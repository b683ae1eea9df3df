//! The firmware-update stage.
use vstd::prelude::*;
use vstd::string::StringExecFns;

use crate::random::{pick_in, RandomSource};
use crate::script::{script_wf, Action};
use crate::stages::InstallationStage;
use crate::progress::ProgressStyle;

verus! {

/// Simulates a BIOS/firmware update: spinners while probing, a
/// warning that sometimes appears, and one long flash animation.
pub struct BiosStage {}

impl BiosStage {
    pub fn new() -> (r: BiosStage) {
        BiosStage {  }
    }
}

impl InstallationStage for BiosStage {
    open spec fn spec_name(&self) -> Seq<char> {
        "BIOS/Firmware Update Sequence"@
    }

    fn name(&self) -> (r: &'static str) {
        "BIOS/Firmware Update Sequence"
    }

    fn build_script<R: RandomSource>(&self, rng: &mut R) -> (s: Vec<Action>) {
        let mut s: Vec<Action> = Vec::new();
        s.push(
            Action::Spin {
                message: String::from_str("Initializing BIOS ROM v2.3.1..."),
                duration_ms: 1500,
            },
        );
        s.push(
            Action::Spin {
                message: String::from_str("Detecting memory modules... 256MB RAM found"),
                duration_ms: 1000,
            },
        );
        if rng.chance(3, 10) {
            s.push(
                Action::Line {
                    text: String::from_str("WARNING: CMOS checksum invalid, using defaults"),
                    delay_ms: 800,
                },
            );
        }
        s.push(
            Action::Progress {
                message: String::from_str("Flashing firmware:"),
                style: ProgressStyle::Block,
                duration_ms: pick_in(rng, 2000, 4000),
            },
        );
        s.push(
            Action::Line {
                text: String::from_str("  *** Do NOT power off during this process! ***"),
                delay_ms: 500,
            },
        );
        proof {
            assert(script_wf(s@));
        }
        s
    }
}

} // verus!
