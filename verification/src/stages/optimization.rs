//! The system-optimization stage.
use vstd::prelude::*;

use crate::messages::optimization_tasks;
use crate::progress::ProgressStyle;
use crate::random::{pick_in, RandomSource};
use crate::script::{script_wf, Action};
use crate::stages::InstallationStage;

verus! {

/// Runs one progress bar per optimization task.
pub struct OptimizationStage {}

impl OptimizationStage {
    pub fn new() -> (r: OptimizationStage) {
        OptimizationStage {  }
    }
}

impl InstallationStage for OptimizationStage {
    open spec fn spec_name(&self) -> Seq<char> {
        "System Optimization"@
    }

    fn name(&self) -> (r: &'static str) {
        "System Optimization"
    }

    fn build_script<R: RandomSource>(&self, rng: &mut R) -> (s: Vec<Action>) {
        let tasks = optimization_tasks();
        let mut s: Vec<Action> = Vec::new();
        let n = tasks.len();
        let mut i: usize = 0;
        while i < n
            invariant
                i <= n,
                n == tasks@.len(),
                s@.len() == i,
                script_wf(s@),
            decreases n - i,
        {
            s.push(
                Action::Progress {
                    message: tasks[i].clone(),
                    style: ProgressStyle::Equals,
                    duration_ms: pick_in(rng, 1500, 3000),
                },
            );
            i = i + 1;
        }
        s
    }
}

} // verus!
