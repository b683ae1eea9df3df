//! The hardware-driver installation stage.
use vstd::prelude::*;
use vstd::string::StringExecFns;

use crate::messages::drivers;
use crate::random::{pick_in, RandomSource};
use crate::script::{script_wf, Action};
use crate::stages::InstallationStage;

verus! {

/// Detects each device in the driver list and loads its driver.
pub struct DriversStage {}

impl DriversStage {
    pub fn new() -> (r: DriversStage) {
        DriversStage {  }
    }
}

impl InstallationStage for DriversStage {
    open spec fn spec_name(&self) -> Seq<char> {
        "Hardware Driver Installation"@
    }

    fn name(&self) -> (r: &'static str) {
        "Hardware Driver Installation"
    }

    fn build_script<R: RandomSource>(&self, rng: &mut R) -> (s: Vec<Action>) {
        let list = drivers();
        let mut s: Vec<Action> = Vec::new();
        let n = list.len();
        let mut i: usize = 0;
        while i < n
            invariant
                i <= n,
                n == list@.len(),
                s@.len() == 2 * i,
                script_wf(s@),
            decreases n - i,
        {
            let mut detect = String::from_str("Detecting: ");
            detect.append(list[i].0.as_str());
            detect.append(" [FOUND]");
            s.push(Action::Line { text: detect, delay_ms: pick_in(rng, 400, 900) });
            let mut load = String::from_str("  └─ Loading driver: ");
            load.append(list[i].1.as_str());
            s.push(Action::Line { text: load, delay_ms: 300 });
            i = i + 1;
        }
        s
    }
}

} // verus!
