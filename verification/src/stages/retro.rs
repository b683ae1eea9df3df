//! The retro-software installation stage.
use vstd::prelude::*;
use vstd::string::StringExecFns;

use crate::messages::retro_software;
use crate::progress::{digit_char, ProgressStyle};
use crate::random::{pick_in, RandomSource};
use crate::script::{script_wf, Action};
use crate::stages::InstallationStage;
use crate::text::u64_to_string;

verus! {

/// Installs each title of the retro-software list: an extraction
/// animation sized from the title's footprint (shown in megabytes,
/// rounded to one decimal), plus a few optional bookkeeping lines.
pub struct RetroSoftwareStage {}

impl RetroSoftwareStage {
    pub fn new() -> (r: RetroSoftwareStage) {
        RetroSoftwareStage {  }
    }
}

impl InstallationStage for RetroSoftwareStage {
    open spec fn spec_name(&self) -> Seq<char> {
        "Retro Software Installation"@
    }

    fn name(&self) -> (r: &'static str) {
        "Retro Software Installation"
    }

    fn build_script<R: RandomSource>(&self, rng: &mut R) -> (s: Vec<Action>) {
        let list = retro_software();
        let mut s: Vec<Action> = Vec::new();
        let n = list.len();
        let mut i: usize = 0;
        while i < n
            invariant
                i <= n,
                n == list@.len(),
                forall|q: int| 0 <= q < list@.len() ==> (#[trigger] list@[q]).2 <= 100000,
                3 * i <= s@.len() <= 5 * i,
                script_wf(s@),
            decreases n - i,
        {
            let mut installing = String::from_str("Installing ");
            installing.append(list[i].0.as_str());
            installing.append(" v");
            installing.append(list[i].1.as_str());
            s.push(Action::Line { text: installing, delay_ms: 100 });
            if rng.chance(2, 10) {
                s.push(
                    Action::Line {
                        text: String::from_str("Checking for previous installation..."),
                        delay_ms: 500,
                    },
                );
            }
            let size_kb = list[i].2;
            let mb10 = ((size_kb as u64) * 10 + 512) / 1024;
            let mut extracting = String::from_str("  Extracting files (");
            extracting.append(u64_to_string(mb10 / 10).as_str());
            let mut frac = String::new();
            crate::text::push_char(&mut frac, '.');
            crate::text::push_char(&mut frac, digit_char(mb10 % 10));
            extracting.append(frac.as_str());
            extracting.append("MB):");
            s.push(
                Action::Progress {
                    message: extracting,
                    style: ProgressStyle::Block,
                    duration_ms: pick_in(rng, 2000, 4000),
                },
            );
            s.push(Action::Line { text: String::from_str("  Creating shortcuts..."), delay_ms: 400 });
            if rng.chance(3, 10) {
                s.push(
                    Action::Line {
                        text: String::from_str("  Registering file associations..."),
                        delay_ms: 300,
                    },
                );
            }
            i = i + 1;
        }
        proof {
            assert(s@.len() >= 1);
        }
        s
    }
}

} // verus!
