//! A generic stage for the themed scenes that carry no logic of
//! their own: a short probe, an optional list of items to install,
//! the occasional warning, retry notice or easter egg, one
//! configuration animation, and a closing line.
use vstd::prelude::*;
use vstd::string::StringExecFns;

use crate::messages::{easter_eggs, retry_messages, warnings};
use crate::progress::ProgressStyle;
use crate::random::{pick_in, RandomSource};
use crate::script::{script_wf, Action};
use crate::stages::InstallationStage;

verus! {

/// A stage whose scene is generic: it differs from the others only in
/// its display name and in the items it claims to install.
pub struct SimpleStage {
    title: &'static str,
    items: Vec<String>,
}

impl SimpleStage {
    pub fn new(title: &'static str) -> (r: SimpleStage)
        ensures
            r.spec_name() == title@,
    {
        SimpleStage { title, items: Vec::new() }
    }

    /// A generic stage that also walks a list of items.
    pub fn with_items(title: &'static str, items: Vec<String>) -> (r: SimpleStage)
        ensures
            r.spec_name() == title@,
    {
        SimpleStage { title, items }
    }
}

impl InstallationStage for SimpleStage {
    closed spec fn spec_name(&self) -> Seq<char> {
        self.title@
    }

    fn name(&self) -> (r: &'static str) {
        self.title
    }

    fn build_script<R: RandomSource>(&self, rng: &mut R) -> (s: Vec<Action>) {
        let mut s: Vec<Action> = Vec::new();
        let mut probing = String::from_str("Preparing ");
        probing.append(self.title);
        probing.append("...");
        s.push(Action::Spin { message: probing, duration_ms: 1200 });
        let n = self.items.len();
        let mut i: usize = 0;
        while i < n
            invariant
                i <= n,
                n == self.items@.len(),
                s@.len() >= 1,
                script_wf(s@),
            decreases n - i,
        {
            let mut line = String::from_str("  Installing ");
            line.append(self.items[i].as_str());
            line.append("...");
            s.push(Action::Line { text: line, delay_ms: pick_in(rng, 200, 500) });
            if rng.chance(1, 10) {
                let notices = retry_messages();
                let pick = rng.pick(notices.len() as u64) as usize;
                s.push(Action::Line { text: notices[pick].clone(), delay_ms: 700 });
            }
            i = i + 1;
        }
        if rng.chance(15, 100) {
            let list = warnings();
            let pick = rng.pick(list.len() as u64) as usize;
            s.push(Action::Line { text: list[pick].clone(), delay_ms: 600 });
        }
        if rng.chance(1, 8) {
            let eggs = easter_eggs();
            let pick = rng.pick(eggs.len() as u64) as usize;
            s.push(Action::Line { text: eggs[pick].clone(), delay_ms: 500 });
        }
        let mut configuring = String::from_str("Configuring ");
        configuring.append(self.title);
        configuring.append(":");
        s.push(
            Action::Progress {
                message: configuring,
                style: ProgressStyle::Equals,
                duration_ms: pick_in(rng, 1800, 3200),
            },
        );
        s.push(Action::Line { text: String::from_str("  Done."), delay_ms: 300 });
        proof {
            assert(script_wf(s@));
        }
        s
    }
}

} // verus!
