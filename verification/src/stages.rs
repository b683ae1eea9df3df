//! The stage abstraction: every themed scene implements one flat
//! contract — a display name and a script builder — and the selected
//! stages are resolved, in canonical order, into the plans the
//! pipeline runs.
use vstd::prelude::*;
use vstd::string::StringExecFns;

pub mod bios;
pub mod boot;
pub mod bootloader;
pub mod compilation;
pub mod deno;
pub mod drivers;
pub mod optimization;
pub mod retro;
pub mod simple;
pub mod system;
pub mod xorg;

use crate::cli::Stage;
use crate::pipeline::{plan_events, plan_polls, play_plan, StagePlan};
use crate::probe::CancelProbe;
use crate::random::RandomSource;
use crate::script::{script_wf, Action, Event};
use crate::InstallError;

use bios::BiosStage;
use boot::BootStage;
use bootloader::{Arch, BootloaderConfig, BootloaderStage};
use compilation::CompilationStage;
use deno::DenoStage;
use drivers::DriversStage;
use retro::RetroSoftwareStage;
use simple::SimpleStage;
use system::SystemStage;
use xorg::XorgStage;

verus! {

/// The capability set every installation stage implements: a static
/// display name, and the resolution of its randomized scene into a
/// script of bounded-pacing actions.
pub trait InstallationStage: Sized {
    /// The stage's display name, as the contracts speak of it.
    spec fn spec_name(&self) -> Seq<char>;

    /// The stage's display name.
    fn name(&self) -> (r: &'static str)
        ensures
            r@ == self.spec_name(),
    ;

    /// Resolve this run's script.  Whatever the random draws, the
    /// script is non-empty and each action's pacing is bounded.
    fn build_script<R: RandomSource>(&self, rng: &mut R) -> (s: Vec<Action>)
        ensures
            script_wf(s@),
            s@.len() >= 1,
    ;

    /// Run the stage once: resolve its script and play it against
    /// the probe, appending the produced events to the transcript.
    /// The run succeeds exactly when no poll it made answered `true`;
    /// the first `true` poll interrupts it, and either way the
    /// transcript gains the events of some well-formed plan carrying
    /// this stage's name — all of them on success, and exactly one
    /// event per consumed poll (after the header) on interruption.
    fn run<P: CancelProbe, R: RandomSource>(
        &self,
        probe: &mut P,
        rng: &mut R,
        out: &mut Vec<Event>,
    ) -> (r: Result<(), InstallError>)
        ensures
            forall|k: nat| final(probe).answer_at(k) == old(probe).answer_at(k),
            old(out).deep_view().is_prefix_of(final(out).deep_view()),
            r is Ok <==> (forall|k: nat|
                old(probe).polls() <= k < final(probe).polls() ==> !old(probe).answer_at(k)),
            r is Err ==> {
                &&& r == Err::<(), InstallError>(InstallError::Interrupted)
                &&& old(probe).polls() < final(probe).polls()
                &&& old(probe).answer_at((final(probe).polls() - 1) as nat)
            },
            exists|p: StagePlan|
                {
                    &&& script_wf(p.script@)
                    &&& p.script@.len() >= 1
                    &&& p.name@ == self.spec_name()
                    &&& (r is Ok ==> final(out).deep_view() == old(out).deep_view()
                        + #[trigger] plan_events(p) && final(probe).polls() == old(probe).polls()
                        + plan_polls(p))
                    &&& (r is Err ==> final(out).deep_view() == old(out).deep_view()
                        + plan_events(p).take(final(probe).polls() - old(probe).polls()))
                },
    {
        let script = self.build_script(rng);
        let plan = StagePlan {
            name: String::from_str(self.name()),
            script,
            prompt_retry: false,
        };
        let ghost pre = out.deep_view();
        let ghost polls0 = probe.polls();
        let r = play_plan(&plan, probe, out);
        proof {
            assert(script_wf(plan.script@) && plan.script@.len() >= 1 && plan.name@
                == self.spec_name());
            if r is Ok {
                assert(out.deep_view() == pre + plan_events(plan));
                assert(pre =~= (pre + plan_events(plan)).take(pre.len() as int));
            } else {
                assert(out.deep_view() == pre + plan_events(plan).take(
                    probe.polls() - polls0,
                ));
                assert(pre =~= (pre + plan_events(plan).take(probe.polls() - polls0)).take(
                    pre.len() as int,
                ));
            }
        }
        r
    }
}

/// One constructed stage, of whichever kind.
pub enum StageUnit {
    Bios(BiosStage),
    Boot(BootStage),
    Bootloader(BootloaderStage),
    Compilation(CompilationStage),
    Deno(DenoStage),
    Drivers(DriversStage),
    Retro(RetroSoftwareStage),
    System(SystemStage),
    Xorg(XorgStage),
    Simple(Stage, SimpleStage),
}

/// The display name each selector resolves to.
pub open spec fn stage_title(kind: Stage) -> Seq<char> {
    match kind {
        Stage::Bios => "BIOS/Firmware Update Sequence"@,
        Stage::Boot => "Kernel Boot Sequence"@,
        Stage::Bootloader => "Bootloader Installation"@,
        Stage::Filesystem => "Filesystem Setup"@,
        Stage::System => "System Component Installation"@,
        Stage::Network => "Network Configuration"@,
        Stage::Drivers => "Hardware Driver Installation"@,
        Stage::Initramfs => "Initramfs Generation"@,
        Stage::Packages => "Package Installation"@,
        Stage::Kernel => "Linux Kernel Compilation"@,
        Stage::Compilation => "Kernel Module Compilation"@,
        Stage::Deno => "Deno Runtime Compilation"@,
        Stage::Database => "Database Setup"@,
        Stage::Xorg => "X Window System Setup"@,
        Stage::Services => "Services Configuration"@,
        Stage::Retro => "Retro Software Installation"@,
        Stage::Locale => "Locale Configuration"@,
        Stage::Container => "Container Orchestration"@,
        Stage::Ai => "AI Model Loading"@,
        Stage::Cloud => "Cloud Provisioning"@,
    }
}

/// Which selector a constructed stage answers to.
pub open spec fn unit_kind(u: StageUnit) -> Stage {
    match u {
        StageUnit::Bios(st) => Stage::Bios,
        StageUnit::Boot(st) => Stage::Boot,
        StageUnit::Bootloader(st) => Stage::Bootloader,
        StageUnit::Compilation(st) => Stage::Compilation,
        StageUnit::Deno(st) => Stage::Deno,
        StageUnit::Drivers(st) => Stage::Drivers,
        StageUnit::Retro(st) => Stage::Retro,
        StageUnit::System(st) => Stage::System,
        StageUnit::Xorg(st) => Stage::Xorg,
        StageUnit::Simple(kind, st) => kind,
    }
}

impl InstallationStage for StageUnit {
    open spec fn spec_name(&self) -> Seq<char> {
        match self {
            StageUnit::Bios(st) => st.spec_name(),
            StageUnit::Boot(st) => st.spec_name(),
            StageUnit::Bootloader(st) => st.spec_name(),
            StageUnit::Compilation(st) => st.spec_name(),
            StageUnit::Deno(st) => st.spec_name(),
            StageUnit::Drivers(st) => st.spec_name(),
            StageUnit::Retro(st) => st.spec_name(),
            StageUnit::System(st) => st.spec_name(),
            StageUnit::Xorg(st) => st.spec_name(),
            StageUnit::Simple(kind, st) => st.spec_name(),
        }
    }

    fn name(&self) -> (r: &'static str) {
        match self {
            StageUnit::Bios(st) => st.name(),
            StageUnit::Boot(st) => st.name(),
            StageUnit::Bootloader(st) => st.name(),
            StageUnit::Compilation(st) => st.name(),
            StageUnit::Deno(st) => st.name(),
            StageUnit::Drivers(st) => st.name(),
            StageUnit::Retro(st) => st.name(),
            StageUnit::System(st) => st.name(),
            StageUnit::Xorg(st) => st.name(),
            StageUnit::Simple(kind, st) => st.name(),
        }
    }

    fn build_script<R: RandomSource>(&self, rng: &mut R) -> (s: Vec<Action>) {
        match self {
            StageUnit::Bios(st) => st.build_script(rng),
            StageUnit::Boot(st) => st.build_script(rng),
            StageUnit::Bootloader(st) => st.build_script(rng),
            StageUnit::Compilation(st) => st.build_script(rng),
            StageUnit::Deno(st) => st.build_script(rng),
            StageUnit::Drivers(st) => st.build_script(rng),
            StageUnit::Retro(st) => st.build_script(rng),
            StageUnit::System(st) => st.build_script(rng),
            StageUnit::Xorg(st) => st.build_script(rng),
            StageUnit::Simple(kind, st) => st.build_script(rng),
        }
    }
}

/// Construct the stage that answers to one selector, carrying that
/// selector's fixed display name.
fn make_stage(kind: Stage, arch: Arch) -> (u: StageUnit)
    ensures
        unit_kind(u) == kind,
        u.spec_name() == stage_title(kind),
{
    match kind {
        Stage::Bios => StageUnit::Bios(BiosStage::new()),
        Stage::Boot => StageUnit::Boot(BootStage::new()),
        Stage::Bootloader => StageUnit::Bootloader(
            BootloaderStage::new(BootloaderConfig::default(), arch),
        ),
        Stage::Compilation => StageUnit::Compilation(CompilationStage::new()),
        Stage::Deno => StageUnit::Deno(DenoStage::new()),
        Stage::Drivers => StageUnit::Drivers(DriversStage::new()),
        Stage::Retro => StageUnit::Retro(RetroSoftwareStage::new()),
        Stage::System => StageUnit::System(SystemStage::new()),
        Stage::Xorg => StageUnit::Xorg(XorgStage::new()),
        Stage::Filesystem => StageUnit::Simple(kind, SimpleStage::new("Filesystem Setup")),
        Stage::Network => StageUnit::Simple(kind, SimpleStage::new("Network Configuration")),
        Stage::Initramfs => StageUnit::Simple(kind, SimpleStage::new("Initramfs Generation")),
        Stage::Packages => StageUnit::Simple(
            kind,
            SimpleStage::with_items("Package Installation", crate::messages::packages()),
        ),
        Stage::Kernel => StageUnit::Simple(kind, SimpleStage::new("Linux Kernel Compilation")),
        Stage::Database => StageUnit::Simple(kind, SimpleStage::new("Database Setup")),
        Stage::Services => StageUnit::Simple(kind, SimpleStage::new("Services Configuration")),
        Stage::Locale => StageUnit::Simple(kind, SimpleStage::new("Locale Configuration")),
        Stage::Container => StageUnit::Simple(kind, SimpleStage::new("Container Orchestration")),
        Stage::Ai => StageUnit::Simple(kind, SimpleStage::new("AI Model Loading")),
        Stage::Cloud => StageUnit::Simple(kind, SimpleStage::new("Cloud Provisioning")),
    }
}

/// Construct the selected stages, in the given order, for the given
/// architecture: each selector yields the stage of its kind, under
/// its fixed display name.
pub fn selected_stages_for(stages: &Vec<Stage>, arch: Arch) -> (r: Vec<StageUnit>)
    ensures
        r@.len() == stages@.len(),
        forall|i: int|
            0 <= i < r@.len() ==> {
                &&& unit_kind(#[trigger] r@[i]) == stages@[i]
                &&& r@[i].spec_name() == stage_title(stages@[i])
            },
{
    let mut out: Vec<StageUnit> = Vec::new();
    let n = stages.len();
    let mut i: usize = 0;
    while i < n
        invariant
            i <= n,
            n == stages@.len(),
            out@.len() == i,
            forall|q: int|
                0 <= q < out@.len() ==> {
                    &&& unit_kind(#[trigger] out@[q]) == stages@[q]
                    &&& out@[q].spec_name() == stage_title(stages@[q])
                },
        decreases n - i,
    {
        out.push(make_stage(stages[i], arch));
        i = i + 1;
    }
    out
}

/// Construct the selected stages for the common architecture.
pub fn selected_stages(stages: &Vec<Stage>) -> (r: Vec<StageUnit>)
    ensures
        r@.len() == stages@.len(),
        forall|i: int|
            0 <= i < r@.len() ==> {
                &&& unit_kind(#[trigger] r@[i]) == stages@[i]
                &&& r@[i].spec_name() == stage_title(stages@[i])
            },
{
    selected_stages_for(stages, Arch::X86_64)
}

/// Resolve every stage's script into a plan the pipeline can run.
/// Every plan carries its stage's name and a non-empty well-formed
/// script; only the build stage's plan may want the retry prompt, and
/// it wants it exactly when its script is the failing build, whose
/// shape (and the succeeding one's) is pinned by the stage's own
/// contract.
pub fn build_plans<R: RandomSource>(units: &Vec<StageUnit>, rng: &mut R) -> (r: Vec<StagePlan>)
    ensures
        r@.len() == units@.len(),
        forall|i: int|
            0 <= i < r@.len() ==> {
                &&& script_wf((#[trigger] r@[i]).script@)
                &&& r@[i].script@.len() >= 1
                &&& r@[i].name@ == units@[i].spec_name()
            },
        forall|i: int|
            0 <= i < r@.len() ==> match units@[i] {
                StageUnit::Deno(st) => {
                    &&& ((#[trigger] r@[i]).prompt_retry ==> deno::spec_failing_script(
                        st,
                        r@[i].script@,
                    ))
                    &&& (!r@[i].prompt_retry ==> deno::spec_passing_script(st, r@[i].script@))
                },
                _ => !(#[trigger] r@[i]).prompt_retry,
            },
        forall|i: int|
            0 <= i < r@.len() ==> match units@[i] {
                StageUnit::Boot(st) => boot::spec_boot_script(st, (#[trigger] r@[i]).script@),
                StageUnit::Bootloader(st) => bootloader::spec_bootloader_script(
                    st,
                    (#[trigger] r@[i]).script@,
                ),
                StageUnit::Compilation(st) => compilation::spec_compilation_script(
                    st,
                    (#[trigger] r@[i]).script@,
                ),
                _ => true,
            },
{
    let mut out: Vec<StagePlan> = Vec::new();
    let n = units.len();
    let mut i: usize = 0;
    while i < n
        invariant
            i <= n,
            n == units@.len(),
            out@.len() == i,
            forall|q: int|
                0 <= q < out@.len() ==> {
                    &&& script_wf((#[trigger] out@[q]).script@)
                    &&& out@[q].script@.len() >= 1
                    &&& out@[q].name@ == units@[q].spec_name()
                },
            forall|q: int|
                0 <= q < out@.len() ==> match units@[q] {
                    StageUnit::Deno(st) => {
                        &&& ((#[trigger] out@[q]).prompt_retry ==> deno::spec_failing_script(
                            st,
                            out@[q].script@,
                        ))
                        &&& (!out@[q].prompt_retry ==> deno::spec_passing_script(
                            st,
                            out@[q].script@,
                        ))
                    },
                    _ => !(#[trigger] out@[q]).prompt_retry,
                },
            forall|q: int|
                0 <= q < out@.len() ==> match units@[q] {
                    StageUnit::Boot(st) => boot::spec_boot_script(
                        st,
                        (#[trigger] out@[q]).script@,
                    ),
                    StageUnit::Bootloader(st) => bootloader::spec_bootloader_script(
                        st,
                        (#[trigger] out@[q]).script@,
                    ),
                    StageUnit::Compilation(st) => compilation::spec_compilation_script(
                        st,
                        (#[trigger] out@[q]).script@,
                    ),
                    _ => true,
                },
        decreases n - i,
    {
        let unit = &units[i];
        let name = String::from_str(unit.name());
        let plan = match unit {
            StageUnit::Deno(st) => {
                let parts = st.script_parts(rng);
                StagePlan { name, script: parts.0, prompt_retry: parts.1 }
            },
            StageUnit::Boot(st) => StagePlan {
                name,
                script: st.script(rng),
                prompt_retry: false,
            },
            StageUnit::Bootloader(st) => StagePlan {
                name,
                script: st.script(rng),
                prompt_retry: false,
            },
            StageUnit::Compilation(st) => StagePlan {
                name,
                script: st.script(rng),
                prompt_retry: false,
            },
            _ => {
                let script = unit.build_script(rng);
                StagePlan { name, script, prompt_retry: false }
            },
        };
        out.push(plan);
        i = i + 1;
    }
    out
}

} // verus!
