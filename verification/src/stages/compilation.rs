//! The kernel-module compilation stage: build-log lines around a
//! linking animation.
use vstd::prelude::*;
use vstd::string::StringExecFns;

use crate::build_logs::{BuildLogs, BUILD_LOG_TEXT};
use crate::progress::ProgressStyle;
use crate::random::{pick_in, RandomSource};
use crate::script::{script_wf, Action};
use crate::stages::InstallationStage;
use crate::text::spec_clean_lines;

verus! {

/// The shape of a compilation scene: the make banners around corpus
/// lines and the Gradient linking bar.
pub open spec fn spec_compilation_script(st: CompilationStage, s: Seq<Action>) -> bool {
    &&& script_wf(s)
    &&& (st.corpus().len() == 0 ==> s.len() == 3)
    &&& (st.corpus().len() > 0 ==> 18 <= s.len() <= 32)
    &&& s[0] matches Action::Line { text, delay_ms } && text@
        == "make[1]: Entering directory '/usr/src/linux-headers-5.4.0'"@
    &&& s.last() matches Action::Line { text, delay_ms } && text@
        == "make[1]: Leaving directory '/usr/src/linux-headers-5.4.0'"@
    &&& s[s.len() - 2] matches Action::Progress { message, style, duration_ms } && message@
        == "Linking modules:"@ && style == ProgressStyle::Gradient && 2000 <= duration_ms < 4000
    &&& forall|i: int|
        1 <= i < s.len() - 2 ==> (#[trigger] s[i] matches Action::Line { text, delay_ms }
            && st.corpus().contains(text@) && 80 <= delay_ms < 250)
}

/// Replays a random sample of the build-log corpus between the make
/// banner lines, then links modules behind a progress bar.
pub struct CompilationStage {
    build_logs: BuildLogs,
}

impl CompilationStage {
    /// The corpus this stage samples from.
    pub closed spec fn corpus(&self) -> Seq<Seq<char>> {
        self.build_logs@
    }

    pub fn new() -> (r: CompilationStage)
        ensures
            r.corpus() == spec_clean_lines(BUILD_LOG_TEXT@),
    {
        CompilationStage { build_logs: BuildLogs::load() }
    }

    /// The stage's script: the entering banner, then (on a non-empty
    /// corpus) 15 to 29 corpus lines each with a delay of 80 to
    /// 249 ms, a Gradient linking bar of 2 to 4 seconds, and the
    /// leaving banner.
    pub fn script<R: RandomSource>(&self, rng: &mut R) -> (s: Vec<Action>)
        ensures
            spec_compilation_script(*self, s@),
    {
        let count = pick_in(rng, 15, 30) as usize;
        let batch = self.build_logs.random_batch(count, rng);
        let mut s: Vec<Action> = Vec::new();
        s.push(
            Action::Line {
                text: String::from_str(
                    "make[1]: Entering directory '/usr/src/linux-headers-5.4.0'",
                ),
                delay_ms: 200,
            },
        );
        let n = batch.len();
        let mut i: usize = 0;
        while i < n
            invariant
                i <= n,
                n == batch@.len(),
                s@.len() == 1 + i,
                script_wf(s@),
                forall|q: int|
                    0 <= q < batch.deep_view().len() ==> self.corpus().contains(
                        #[trigger] batch.deep_view()[q],
                    ),
                s@[0] matches Action::Line { text, delay_ms } && text@
                    == "make[1]: Entering directory '/usr/src/linux-headers-5.4.0'"@,
                forall|q: int|
                    1 <= q < s@.len() ==> (#[trigger] s@[q] matches Action::Line {
                        text,
                        delay_ms,
                    } && self.corpus().contains(text@) && 80 <= delay_ms < 250),
            decreases n - i,
        {
            let text = batch[i].clone();
            proof {
                assert(batch.deep_view()[i as int] == batch@[i as int]@);
            }
            s.push(Action::Line { text, delay_ms: pick_in(rng, 80, 250) });
            i = i + 1;
        }
        s.push(
            Action::Progress {
                message: String::from_str("Linking modules:"),
                style: ProgressStyle::Gradient,
                duration_ms: pick_in(rng, 2000, 4000),
            },
        );
        s.push(
            Action::Line {
                text: String::from_str("make[1]: Leaving directory '/usr/src/linux-headers-5.4.0'"),
                delay_ms: 200,
            },
        );
        s
    }
}

impl InstallationStage for CompilationStage {
    open spec fn spec_name(&self) -> Seq<char> {
        "Kernel Module Compilation"@
    }

    fn name(&self) -> (r: &'static str) {
        "Kernel Module Compilation"
    }

    fn build_script<R: RandomSource>(&self, rng: &mut R) -> (s: Vec<Action>) {
        self.script(rng)
    }
}

impl Default for CompilationStage {
    fn default() -> (r: CompilationStage)
        ensures
            r.corpus() == spec_clean_lines(BUILD_LOG_TEXT@),
    {
        CompilationStage::new()
    }
}

} // verus!
