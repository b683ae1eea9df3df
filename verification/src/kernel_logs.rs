//! The kernel-log corpus: boot-style lines shown while a boot stage
//! plays.  Loading strips the leading bracketed timestamp token each
//! raw line carries.
use vstd::prelude::*;
use vstd::string::StrSliceExecFns;
use vstd::string::StringExecFns;

use crate::random::{random_lines, RandomSource};
use crate::text::{
    clean_lines, find_char_from, is_blank, is_space, keep_line, lemma_filter_step,
    spec_blank, spec_clean_lines, spec_find, spec_is_space, spec_strip_timestamp,
    spec_trim_start,
};

verus! {

/// The embedded kernel-log text, with the timestamp tokens still in
/// place.
pub const KERNEL_LOG_TEXT: &'static str = "[    0.000000] Linux version 6.8.0-49-generic (buildd@lcy02-amd64-103) (x86_64-linux-gnu-gcc-13)\n[    0.000000] Command line: BOOT_IMAGE=/boot/vmlinuz-6.8.0-49-generic root=UUID=3b6a9f4c ro quiet splash\n[    0.004122] BIOS-provided physical RAM map:\n[    0.012903] ACPI: DSDT table found\n[    0.031337] smpboot: Allowing 4 CPUs, 0 hotplug CPUs\n[    0.104211] Memory: 256MB available\n[    0.150233] Calibrating delay loop... 4589.21 BogoMIPS\n[    0.204501] pci 0000:00:02.0: VGA compatible controller\n[    0.310087] SCSI subsystem initialized\n[    0.402113] usbcore: registered new interface driver usbhid\n[    0.517289] EXT4-fs (sda2): mounted filesystem with ordered data mode\n[    0.611402] random: crng init done\n[    0.722903] snd_hda_intel 0000:00:1b.0: enabling device\n[    0.810331] NET: Registered PF_INET protocol family\n[    0.933210] systemd[1]: Detected architecture x86-64\n";

/// The function a kernel corpus maps over its cleaned lines.
pub open spec fn strip_fn() -> spec_fn(Seq<char>) -> Seq<char> {
    |l: Seq<char>| spec_strip_timestamp(l)
}

/// The display-ready lines of a raw kernel log: non-blank lines, each
/// with its timestamp token stripped, and lines that stripping left
/// blank discarded too — a kernel corpus holds non-empty lines only.
pub open spec fn spec_kernel_lines(text: Seq<char>) -> Seq<Seq<char>> {
    spec_clean_lines(text).map_values(strip_fn()).filter(keep_line())
}

/// A kernel corpus holds no blank line, whatever the raw text.
pub proof fn lemma_kernel_lines_not_blank(text: Seq<char>)
    ensures
        forall|i: int|
            0 <= i < spec_kernel_lines(text).len() ==> !spec_blank(
                #[trigger] spec_kernel_lines(text)[i],
            ),
{
    assert forall|i: int| 0 <= i < spec_kernel_lines(text).len() implies !spec_blank(
        spec_kernel_lines(text)[i],
    ) by {
        spec_clean_lines(text).map_values(strip_fn()).lemma_filter_pred(keep_line(), i);
    }
}

/// An immutable, ordered corpus of display-ready kernel-log lines.
pub struct KernelLogs {
    logs: Vec<String>,
}

impl View for KernelLogs {
    type V = Seq<Seq<char>>;

    closed spec fn view(&self) -> Seq<Seq<char>> {
        self.logs.deep_view()
    }
}

impl KernelLogs {
    /// Load the embedded kernel-log corpus: non-blank lines with
    /// their timestamps stripped, in order.
    pub fn load() -> (r: KernelLogs)
        ensures
            r@ == spec_kernel_lines(KERNEL_LOG_TEXT@),
    {
        KernelLogs::from_text(KERNEL_LOG_TEXT)
    }

    /// Load a corpus from arbitrary raw text.
    pub fn from_text(text: &str) -> (r: KernelLogs)
        ensures
            r@ == spec_kernel_lines(text@),
    {
        let cleaned = clean_lines(text);
        let ghost cv = cleaned.deep_view();
        let ghost target = cv.map_values(strip_fn());
        let mut logs: Vec<String> = Vec::new();
        proof {
            assert(target.take(0) =~= Seq::<Seq<char>>::empty());
            reveal(Seq::filter);
        }
        let n = cleaned.len();
        let mut i: usize = 0;
        while i < n
            invariant
                i <= n,
                n == cleaned.len(),
                cv == cleaned.deep_view(),
                target == cv.map_values(strip_fn()),
                logs.deep_view() == target.take(i as int).filter(keep_line()),
            decreases n - i,
        {
            let ghost pre = logs.deep_view();
            let stripped = KernelLogs::strip_timestamp(cleaned[i].as_str());
            proof {
                lemma_filter_step(target, i as int);
                assert(cv[i as int] == cleaned@[i as int].deep_view());
                assert(cleaned@[i as int].deep_view() == cleaned@[i as int]@);
                assert(target[i as int] == spec_strip_timestamp(cv[i as int]));
                assert(stripped@ == target[i as int]);
            }
            if !is_blank(stripped.as_str()) {
                logs.push(stripped);
                proof {
                    assert(logs.deep_view() =~= pre.push(target[i as int]));
                }
            }
            i = i + 1;
        }
        proof {
            assert(target.take(n as int) =~= target);
        }
        KernelLogs { logs }
    }

    /// Strip the leading bracketed timestamp token from one log line:
    /// `"[    0.000000] message"` becomes `"message"`.  A line
    /// without a `[`/`]` pair passes through unchanged.
    pub fn strip_timestamp(line: &str) -> (r: String)
        ensures
            r@ == spec_strip_timestamp(line@),
    {
        let n = line.unicode_len();
        proof {
            assert(line@.skip(0) =~= line@);
        }
        let start = match find_char_from(line, '[', 0) {
            None => {
                return String::from_str(line);
            },
            Some(i) => i,
        };
        let close = match find_char_from(line, ']', start) {
            None => {
                return String::from_str(line);
            },
            Some(j) => j,
        };
        let ghost tail = line@.skip(close as int + 1);
        let mut k: usize = close + 1;
        proof {
            assert(spec_trim_start(tail) == spec_trim_start(line@.skip(k as int)));
        }
        while k < n && is_space(line.get_char(k))
            invariant
                close + 1 <= k <= n,
                n == line@.len(),
                tail == line@.skip(close as int + 1),
                spec_trim_start(tail) == spec_trim_start(line@.skip(k as int)),
            decreases n - k,
        {
            proof {
                let u = line@.skip(k as int);
                assert(u[0] == line@[k as int]);
                assert(u.drop_first() =~= line@.skip(k as int + 1));
            }
            k = k + 1;
        }
        let rest = line.substring_char(k, n);
        proof {
            let u = line@.skip(k as int);
            assert(rest@ =~= u);
            if k < n {
                assert(u[0] == line@[k as int]);
                assert(!spec_is_space(u[0]));
            }
            assert(spec_trim_start(u) == u);
            assert(spec_find(line@, '[') == start as int);
        }
        String::from_str(rest)
    }

    /// All lines of the corpus, in order.
    pub fn all_logs(&self) -> (r: &Vec<String>)
        ensures
            r.deep_view() == self@,
    {
        &self.logs
    }

    /// `count` lines drawn independently and uniformly, with
    /// replacement; an empty corpus yields an empty batch.
    pub fn random_batch<R: RandomSource>(&self, count: usize, rng: &mut R) -> (r: Vec<String>)
        ensures
            self@.len() == 0 ==> r.deep_view() == Seq::<Seq<char>>::empty(),
            self@.len() > 0 ==> r.deep_view().len() == count,
            forall|i: int|
                0 <= i < r.deep_view().len() ==> self@.contains(#[trigger] r.deep_view()[i]),
    {
        random_lines(&self.logs, count, rng)
    }
}

impl Default for KernelLogs {
    fn default() -> (r: KernelLogs)
        ensures
            r@ == spec_kernel_lines(KERNEL_LOG_TEXT@),
    {
        KernelLogs::load()
    }
}

} // verus!
