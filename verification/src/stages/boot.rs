//! The kernel boot-sequence stage: a randomized batch of kernel-log
//! lines, each shown with a short delay.
use vstd::prelude::*;

use crate::kernel_logs::{spec_kernel_lines, KernelLogs, KERNEL_LOG_TEXT};
use crate::random::{pick_in, RandomSource};
use crate::script::{script_wf, Action};
use crate::stages::InstallationStage;

verus! {

/// The shape of a boot scene: corpus lines with short delays, then
/// the closing pause.
pub open spec fn spec_boot_script(st: BootStage, s: Seq<Action>) -> bool {
    &&& script_wf(s)
    &&& s.len() >= 1
    &&& s.last() == (Action::Pause { delay_ms: 300 })
    &&& (st.corpus().len() == 0 ==> s.len() == 1)
    &&& (st.corpus().len() > 0 ==> 9 <= s.len() <= 15)
    &&& forall|i: int|
        0 <= i < s.len() - 1 ==> (#[trigger] s[i] matches Action::Line { text, delay_ms }
            && st.corpus().contains(text@) && 50 <= delay_ms < 200)
}

/// Replays a random sample of the kernel-log corpus.
pub struct BootStage {
    kernel_logs: KernelLogs,
}

impl BootStage {
    /// The corpus this stage samples from.
    pub closed spec fn corpus(&self) -> Seq<Seq<char>> {
        self.kernel_logs@
    }

    pub fn new() -> (r: BootStage)
        ensures
            r.corpus() == spec_kernel_lines(KERNEL_LOG_TEXT@),
    {
        BootStage { kernel_logs: KernelLogs::load() }
    }

    /// The stage's script: on a non-empty corpus, between 8 and 14
    /// lines drawn from it with replacement, each shown with a delay
    /// of 50 to 199 ms, then a closing pause; on an empty corpus only
    /// the pause remains.
    pub fn script<R: RandomSource>(&self, rng: &mut R) -> (s: Vec<Action>)
        ensures
            spec_boot_script(*self, s@),
    {
        let count = pick_in(rng, 8, 15) as usize;
        let batch = self.kernel_logs.random_batch(count, rng);
        let mut s: Vec<Action> = Vec::new();
        let n = batch.len();
        let mut i: usize = 0;
        while i < n
            invariant
                i <= n,
                n == batch@.len(),
                s@.len() == i,
                script_wf(s@),
                forall|q: int|
                    0 <= q < batch.deep_view().len() ==> self.corpus().contains(
                        #[trigger] batch.deep_view()[q],
                    ),
                forall|q: int|
                    0 <= q < s@.len() ==> (#[trigger] s@[q] matches Action::Line {
                        text,
                        delay_ms,
                    } && self.corpus().contains(text@) && 50 <= delay_ms < 200),
            decreases n - i,
        {
            let text = batch[i].clone();
            proof {
                assert(batch.deep_view()[i as int] == batch@[i as int]@);
            }
            s.push(Action::Line { text, delay_ms: pick_in(rng, 50, 200) });
            i = i + 1;
        }
        s.push(Action::Pause { delay_ms: 300 });
        s
    }
}

impl InstallationStage for BootStage {
    open spec fn spec_name(&self) -> Seq<char> {
        "Kernel Boot Sequence"@
    }

    fn name(&self) -> (r: &'static str) {
        "Kernel Boot Sequence"
    }

    fn build_script<R: RandomSource>(&self, rng: &mut R) -> (s: Vec<Action>) {
        self.script(rng)
    }
}

impl Default for BootStage {
    fn default() -> (r: BootStage)
        ensures
            r.corpus() == spec_kernel_lines(KERNEL_LOG_TEXT@),
    {
        BootStage::new()
    }
}

} // verus!
