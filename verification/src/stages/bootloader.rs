//! The bootloader installation stage: the longest scene.  Detects
//! firmware mode and a target disk, installs boot modules, generates
//! a configuration, sometimes finds another operating system, writes
//! stage images and verifies the result.
use vstd::prelude::*;
use vstd::string::StringExecFns;

use crate::progress::ProgressStyle;
use crate::random::{pick_in, RandomSource};
use crate::script::{script_wf, Action, MAX_ACTION_MS};
use crate::stages::InstallationStage;

verus! {

/// The machine architecture the bootloader is installed for; the
/// front end reads it from the build target and hands it in.
#[derive(Clone, Copy, Debug, PartialEq, Eq, Structural)]
pub enum Arch {
    X86_64,
    Aarch64,
    X86,
    Arm,
    Other,
}

/// Pacing knobs of the bootloader scene.  Values above
/// `MAX_ACTION_MS` are capped when the script is built.
#[derive(Clone, Copy, Debug)]
pub struct BootloaderConfig {
    pub install_delay: u64,
    pub probe_delay: u64,
    pub device_install_delay: u64,
    pub config_gen_delay: u64,
    pub kernel_scan_delay_lo: u64,
    pub kernel_scan_delay_hi: u64,
    pub windows_found_num: u32,
    pub windows_found_den: u32,
    pub windows_delay: u64,
    pub write_stage_delay_lo: u64,
    pub write_stage_delay_hi: u64,
    pub finish_delay: u64,
}

impl Default for BootloaderConfig {
    fn default() -> (r: BootloaderConfig)
        ensures
            r.windows_found_den >= 1,
            r.windows_found_num <= r.windows_found_den,
    {
        BootloaderConfig {
            install_delay: 800,
            probe_delay: 2000,
            device_install_delay: 1500,
            config_gen_delay: 1200,
            kernel_scan_delay_lo: 200,
            kernel_scan_delay_hi: 500,
            windows_found_num: 30,
            windows_found_den: 100,
            windows_delay: 600,
            write_stage_delay_lo: 800,
            write_stage_delay_hi: 1600,
            finish_delay: 500,
        }
    }
}

/// A delay capped at `MAX_ACTION_MS`.
fn cap_ms(ms: u64) -> (r: u64)
    ensures
        r <= MAX_ACTION_MS,
        ms <= MAX_ACTION_MS ==> r == ms,
{
    if ms > MAX_ACTION_MS {
        MAX_ACTION_MS
    } else {
        ms
    }
}

/// A draw from `[lo, hi)`, both ends capped; an empty range yields
/// its capped lower end.
fn draw_between<R: RandomSource>(rng: &mut R, lo: u64, hi: u64) -> (r: u64)
    ensures
        r <= MAX_ACTION_MS,
{
    let l = cap_ms(lo);
    let h = cap_ms(hi);
    if l < h {
        pick_in(rng, l, h)
    } else {
        l
    }
}

/// The shape of a bootloader scene: a long bounded-pacing script
/// ending on the finish banner.
pub open spec fn spec_bootloader_script(st: BootloaderStage, s: Seq<Action>) -> bool {
    &&& script_wf(s)
    &&& s.len() >= 40
    &&& s.last() matches Action::Line { text, delay_ms } && text@
        == "Installation finished. No error reported."@
}

/// Simulates installing a boot manager to a randomly detected disk.
pub struct BootloaderStage {
    config: BootloaderConfig,
    arch: Arch,
}

impl BootloaderStage {
    pub fn new(config: BootloaderConfig, arch: Arch) -> (r: BootloaderStage)
        ensures
            r.spec_config() == config,
            r.spec_arch() == arch,
    {
        BootloaderStage { config, arch }
    }

    pub closed spec fn spec_config(&self) -> BootloaderConfig {
        self.config
    }

    pub closed spec fn spec_arch(&self) -> Arch {
        self.arch
    }

    /// The whole bootloader scene.  Every pacing value is bounded and
    /// the scene always ends on the finish banner after at least
    /// forty steps.
    pub fn script<R: RandomSource>(&self, rng: &mut R) -> (s: Vec<Action>)
        ensures
            spec_bootloader_script(*self, s@),
    {
        let mut s: Vec<Action> = Vec::new();
        s.push(
            Action::Line {
                text: String::from_str("Installing GRUB2 bootloader..."),
                delay_ms: cap_ms(self.config.install_delay),
            },
        );
        s.push(
            Action::Line {
                text: String::from_str("Running pre-installation checks..."),
                delay_ms: 500,
            },
        );
        let is_efi = rng.chance(7, 10);
        if is_efi {
            s.push(
                Action::Line {
                    text: String::from_str("EFI variables detected, installing for UEFI mode"),
                    delay_ms: 300,
                },
            );
            s.push(
                Action::Line {
                    text: String::from_str("EFI System Partition found at /boot/efi"),
                    delay_ms: 400,
                },
            );
        } else {
            s.push(
                Action::Line {
                    text: String::from_str("Legacy BIOS mode detected"),
                    delay_ms: 400,
                },
            );
        }
        s.push(
            Action::Spin {
                message: String::from_str("Probing devices for bootloader installation..."),
                duration_ms: cap_ms(self.config.probe_delay),
            },
        );
        let device_pick = rng.pick(4);
        let device: &'static str = if device_pick == 0 {
            "/dev/sda"
        } else if device_pick == 1 {
            "/dev/nvme0n1"
        } else if device_pick == 2 {
            "/dev/vda"
        } else {
            "/dev/sdb"
        };
        let is_nvme = device_pick == 1;
        let dev_type: &'static str = if device_pick == 0 {
            "SATA"
        } else if device_pick == 1 {
            "NVMe"
        } else if device_pick == 2 {
            "VirtIO"
        } else {
            "SATA"
        };
        let dev_name: &'static str = if device_pick == 0 {
            "WDC WD10EZEX-08WN4A0"
        } else if device_pick == 1 {
            "Samsung SSD 970 EVO Plus"
        } else if device_pick == 2 {
            "QEMU HARDDISK"
        } else {
            "Crucial MX500"
        };
        let capacity: &'static str = if device_pick == 1 {
            "500"
        } else if device_pick == 2 {
            "64"
        } else {
            "1000"
        };
        let mut detected = String::from_str("Detected ");
        detected.append(dev_type);
        detected.append(" device: ");
        detected.append(dev_name);
        detected.append(" (");
        detected.append(device);
        detected.append(")");
        s.push(Action::Line { text: detected, delay_ms: 250 });
        let mut cap_line = String::from_str("  Capacity: ");
        cap_line.append(capacity);
        cap_line.append(" GB");
        s.push(Action::Line { text: cap_line, delay_ms: 200 });
        s.push(Action::Line { text: String::from_str("  Block size: 512 bytes"), delay_ms: 300 });
        s.push(Action::Line { text: String::from_str("Analyzing partition table..."), delay_ms: 600 });
        s.push(
            Action::Line {
                text: if is_efi {
                    String::from_str("  Partition table type: GPT")
                } else {
                    String::from_str("  Partition table type: MBR")
                },
                delay_ms: 250,
            },
        );
        let mut boot_partition = String::from_str(device);
        if is_nvme {
            boot_partition.append("p2");
        } else {
            boot_partition.append("2");
        }
        let mut bp_line = String::from_str("  Boot partition: ");
        bp_line.append(boot_partition.as_str());
        s.push(Action::Line { text: bp_line, delay_ms: 250 });
        if is_efi {
            let mut efi_partition = String::from_str(device);
            if is_nvme {
                efi_partition.append("p1");
            } else {
                efi_partition.append("1");
            }
            let mut ep_line = String::from_str("  EFI partition: ");
            ep_line.append(efi_partition.as_str());
            ep_line.append(" (FAT32, 512 MB)");
            s.push(Action::Line { text: ep_line, delay_ms: 250 });
        }
        s.push(Action::Pause { delay_ms: 400 });
        s.push(Action::Line { text: String::from_str("Checking filesystems..."), delay_ms: 500 });
        let mut mounted = String::from_str("  ");
        mounted.append(boot_partition.as_str());
        mounted.append(" is mounted on /");
        s.push(Action::Line { text: mounted, delay_ms: 200 });
        s.push(Action::Line { text: String::from_str("  Filesystem: ext4"), delay_ms: 400 });
        let platform: &'static str = match self.arch {
            Arch::X86_64 => if is_efi {
                "x86_64-efi"
            } else {
                "x86_64-pc"
            },
            Arch::Aarch64 => if is_efi {
                "arm64-efi"
            } else {
                "arm64-uboot"
            },
            Arch::X86 => "i386-pc",
            Arch::Arm => "arm-uboot",
            Arch::Other => if is_efi {
                "efi"
            } else {
                "pc"
            },
        };
        let mut platform_line = String::from_str("Installing for ");
        platform_line.append(platform);
        platform_line.append(" platform...");
        s.push(
            Action::Line {
                text: platform_line,
                delay_ms: cap_ms(self.config.device_install_delay),
            },
        );
        s.push(
            Action::Line {
                text: if is_efi {
                    String::from_str("Installing GRUB modules (17 modules)...")
                } else {
                    String::from_str("Installing GRUB modules (16 modules)...")
                },
                delay_ms: 300,
            },
        );
        let shown_modules = module_names(is_efi);
        let mn = shown_modules.len();
        let ghost base_modules = s@.len();
        let mut mi: usize = 0;
        while mi < mn
            invariant
                mi <= mn,
                mn == shown_modules@.len(),
                s@.len() == base_modules + mi,
                base_modules >= 15,
                script_wf(s@),
            decreases mn - mi,
        {
            let mut m_line = String::from_str("  Installing ");
            m_line.append(shown_modules[mi].as_str());
            m_line.append(".mod");
            s.push(Action::Line { text: m_line, delay_ms: pick_in(rng, 150, 300) });
            mi = mi + 1;
        }
        s.push(
            Action::Line { text: String::from_str("Installing bootloader fonts..."), delay_ms: 300 },
        );
        s.push(
            Action::Line {
                text: String::from_str("  Converting DejaVu Sans Regular to PFF2 format"),
                delay_ms: 600,
            },
        );
        s.push(
            Action::Line {
                text: String::from_str("Generating grub configuration file..."),
                delay_ms: cap_ms(self.config.config_gen_delay),
            },
        );
        s.push(
            Action::Line {
                text: String::from_str("Probing system configuration..."),
                delay_ms: 500,
            },
        );
        s.push(
            Action::Line { text: String::from_str("Searching for linux images..."), delay_ms: 400 },
        );
        let kernels = kernel_set(rng.pick(3));
        let kn = kernels.len();
        let ghost base_kernels = s@.len();
        let mut ki: usize = 0;
        while ki < kn
            invariant
                ki <= kn,
                kn == kernels@.len(),
                s@.len() == base_kernels + 2 * ki,
                base_kernels >= 26,
                script_wf(s@),
            decreases kn - ki,
        {
            let mut k_line = String::from_str("Found linux image: /boot/vmlinuz-");
            k_line.append(kernels[ki].as_str());
            s.push(Action::Line { text: k_line, delay_ms: 100 });
            let mut i_line = String::from_str("Found initrd image: /boot/initrd.img-");
            i_line.append(kernels[ki].as_str());
            s.push(
                Action::Line {
                    text: i_line,
                    delay_ms: draw_between(
                        rng,
                        self.config.kernel_scan_delay_lo,
                        self.config.kernel_scan_delay_hi,
                    ),
                },
            );
            ki = ki + 1;
        }
        s.push(
            Action::Line {
                text: String::from_str("Found memtest86+ image: /boot/memtest86+.bin"),
                delay_ms: 300,
            },
        );
        let windows_found = if self.config.windows_found_den >= 1 && self.config.windows_found_num
            <= self.config.windows_found_den {
            rng.chance(self.config.windows_found_num, self.config.windows_found_den)
        } else {
            false
        };
        if windows_found {
            let mut w_partition = String::from_str(device);
            if is_nvme {
                w_partition.append("p3");
            } else {
                w_partition.append("3");
            }
            let mut w_line = String::from_str("Found Windows Boot Manager on ");
            w_line.append(w_partition.as_str());
            s.push(Action::Line { text: w_line, delay_ms: 250 });
            let mut w2_line = String::from_str("  Windows 11 (loader) (on ");
            w2_line.append(w_partition.as_str());
            w2_line.append(")");
            s.push(Action::Line { text: w2_line, delay_ms: 200 });
            s.push(
                Action::Line {
                    text: String::from_str("Adding boot menu entry for Windows"),
                    delay_ms: cap_ms(self.config.windows_delay),
                },
            );
        }
        s.push(
            Action::Line {
                text: String::from_str("Writing configuration to /boot/grub/grub.cfg..."),
                delay_ms: 500,
            },
        );
        s.push(
            Action::Line {
                text: String::from_str("  Setting default boot entry: 0"),
                delay_ms: 200,
            },
        );
        s.push(
            Action::Line { text: String::from_str("  Setting timeout: 5 seconds"), delay_ms: 200 },
        );
        s.push(
            Action::Line {
                text: String::from_str("  Enabling submenu for older kernels"),
                delay_ms: 500,
            },
        );
        if rng.chance(6, 10) {
            s.push(
                Action::Line { text: String::from_str("Installing GRUB theme..."), delay_ms: 300 },
            );
            s.push(Action::Line { text: String::from_str("  Theme: starfield"), delay_ms: 400 });
        }
        s.push(
            Action::Line {
                text: String::from_str("Installing bootloader to disk..."),
                delay_ms: 300,
            },
        );
        if is_efi {
            s.push(
                Action::Line {
                    text: String::from_str("Creating EFI boot entry..."),
                    delay_ms: 300,
                },
            );
            s.push(
                Action::Line {
                    text: String::from_str("  EFI application: \\EFI\\ubuntu\\shimx64.efi"),
                    delay_ms: 400,
                },
            );
        }
        let ghost base_writes = s@.len();
        let mut wi: u64 = 0;
        while wi < 5
            invariant
                wi <= 5,
                s@.len() == base_writes + wi,
                base_writes >= 38,
                script_wf(s@),
            decreases 5 - wi,
        {
            let mut w_msg = String::from_str("Writing stage ");
            crate::text::push_char(&mut w_msg, crate::progress::digit_char(wi + 1));
            w_msg.append(" image...");
            s.push(
                Action::Progress {
                    message: w_msg,
                    style: ProgressStyle::Block,
                    duration_ms: draw_between(
                        rng,
                        self.config.write_stage_delay_lo,
                        self.config.write_stage_delay_hi,
                    ),
                },
            );
            wi = wi + 1;
        }
        s.push(Action::Line { text: String::from_str("Verifying installation..."), delay_ms: 600 });
        s.push(
            Action::Line { text: String::from_str("  Checking boot sector... OK"), delay_ms: 400 },
        );
        if is_efi {
            s.push(
                Action::Line {
                    text: String::from_str("  Checking EFI boot variables... OK"),
                    delay_ms: 400,
                },
            );
        }
        s.push(
            Action::Line { text: String::from_str("  Verifying GRUB modules... OK"), delay_ms: 400 },
        );
        s.push(
            Action::Line {
                text: String::from_str("  Checking configuration file... OK"),
                delay_ms: 400,
            },
        );
        s.push(
            Action::Line {
                text: String::from_str("Installation finished. No error reported."),
                delay_ms: cap_ms(self.config.finish_delay),
            },
        );
        s
    }
}

/// The module names shown while boot modules install: every third
/// entry of the full module list.
fn module_names(is_efi: bool) -> (r: Vec<String>)
    ensures
        r@.len() == 6,
{
    let mut v: Vec<String> = Vec::new();
    if is_efi {
        v.push(String::from_str("part_gpt"));
        v.push(String::from_str("ext2"));
        v.push(String::from_str("boot"));
        v.push(String::from_str("efi_gop"));
        v.push(String::from_str("gfxterm"));
        v.push(String::from_str("search"));
    } else {
        v.push(String::from_str("part_msdos"));
        v.push(String::from_str("biosdisk"));
        v.push(String::from_str("boot"));
        v.push(String::from_str("vbe"));
        v.push(String::from_str("gfxterm"));
        v.push(String::from_str("search"));
    }
    v
}

/// One of the three kernel version sets a system may carry.
fn kernel_set(pick: u64) -> (r: Vec<String>)
    ensures
        r@.len() == 3,
{
    let mut v: Vec<String> = Vec::new();
    if pick == 0 {
        v.push(String::from_str("6.8.0-49-generic"));
        v.push(String::from_str("6.8.0-48-generic"));
        v.push(String::from_str("6.8.0-45-generic"));
    } else if pick == 1 {
        v.push(String::from_str("6.5.0-35-generic"));
        v.push(String::from_str("6.5.0-28-generic"));
        v.push(String::from_str("6.5.0-26-generic"));
    } else {
        v.push(String::from_str("6.1.0-27-amd64"));
        v.push(String::from_str("6.1.0-26-amd64"));
        v.push(String::from_str("6.1.0-25-amd64"));
    }
    v
}

impl InstallationStage for BootloaderStage {
    open spec fn spec_name(&self) -> Seq<char> {
        "Bootloader Installation"@
    }

    fn name(&self) -> (r: &'static str) {
        "Bootloader Installation"
    }

    fn build_script<R: RandomSource>(&self, rng: &mut R) -> (s: Vec<Action>) {
        self.script(rng)
    }
}

} // verus!
