//! The system-component installation stage.
use vstd::prelude::*;
use vstd::string::StringExecFns;

use crate::messages::system_components;
use crate::progress::ProgressStyle;
use crate::random::{pick_in, RandomSource};
use crate::script::{script_wf, Action};
use crate::stages::InstallationStage;

verus! {

/// Initializes each system component in turn, then builds module
/// dependencies behind a progress bar.
pub struct SystemStage {}

impl SystemStage {
    pub fn new() -> (r: SystemStage) {
        SystemStage {  }
    }
}

impl InstallationStage for SystemStage {
    open spec fn spec_name(&self) -> Seq<char> {
        "System Component Installation"@
    }

    fn name(&self) -> (r: &'static str) {
        "System Component Installation"
    }

    fn build_script<R: RandomSource>(&self, rng: &mut R) -> (s: Vec<Action>) {
        let components = system_components();
        let mut s: Vec<Action> = Vec::new();
        let n = components.len();
        let mut i: usize = 0;
        while i < n
            invariant
                i <= n,
                n == components@.len(),
                s@.len() == i,
                script_wf(s@),
            decreases n - i,
        {
            let mut text = String::from_str("  - ");
            text.append(components[i].as_str());
            text.append(" [OK]");
            s.push(Action::Line { text, delay_ms: pick_in(rng, 300, 800) });
            i = i + 1;
        }
        s.push(
            Action::Progress {
                message: String::from_str("Building module dependencies:"),
                style: ProgressStyle::Equals,
                duration_ms: pick_in(rng, 2000, 3500),
            },
        );
        s
    }
}

} // verus!
