//! The X window system setup stage.
use vstd::prelude::*;
use vstd::string::StringExecFns;

use crate::random::{pick_in, RandomSource};
use crate::script::{script_wf, Action};
use crate::stages::InstallationStage;

verus! {

/// Sets up display-server packages, probes the graphics hardware and
/// builds the font cache.
pub struct XorgStage {}

impl XorgStage {
    pub fn new() -> (r: XorgStage) {
        XorgStage {  }
    }
}

fn xorg_packages() -> (r: Vec<String>)
    ensures
        r@.len() == 6,
{
    let mut v: Vec<String> = Vec::new();
    v.push(String::from_str("xserver-xorg-core"));
    v.push(String::from_str("xserver-xorg-input-all"));
    v.push(String::from_str("xserver-xorg-video-intel"));
    v.push(String::from_str("xserver-xorg-video-nouveau"));
    v.push(String::from_str("libgl1-mesa-dri"));
    v.push(String::from_str("libglx-mesa0"));
    v
}

fn gpu_vendor<R: RandomSource>(rng: &mut R) -> (r: String) {
    let pick = rng.pick(4);
    if pick == 0 {
        String::from_str("Intel")
    } else if pick == 1 {
        String::from_str("NVIDIA")
    } else if pick == 2 {
        String::from_str("AMD Radeon")
    } else {
        String::from_str("VirtualBox Graphics")
    }
}

impl InstallationStage for XorgStage {
    open spec fn spec_name(&self) -> Seq<char> {
        "X Window System Setup"@
    }

    fn name(&self) -> (r: &'static str) {
        "X Window System Setup"
    }

    fn build_script<R: RandomSource>(&self, rng: &mut R) -> (s: Vec<Action>) {
        let mut s: Vec<Action> = Vec::new();
        s.push(Action::Line { text: String::from_str("Installing X.Org Server..."), delay_ms: 600 });
        let packages = xorg_packages();
        let n = packages.len();
        let mut i: usize = 0;
        while i < n
            invariant
                i <= n,
                n == packages@.len(),
                s@.len() == 1 + i,
                script_wf(s@),
            decreases n - i,
        {
            let mut text = String::from_str("  Setting up ");
            text.append(packages[i].as_str());
            text.append("...");
            s.push(Action::Line { text, delay_ms: pick_in(rng, 200, 500) });
            i = i + 1;
        }
        s.push(
            Action::Spin {
                message: String::from_str("Generating X server configuration..."),
                duration_ms: 1500,
            },
        );
        s.push(
            Action::Line { text: String::from_str("Probing graphics hardware..."), delay_ms: 800 },
        );
        let mut detected = String::from_str("  Detected: ");
        detected.append(gpu_vendor(rng).as_str());
        detected.append(" Graphics");
        s.push(Action::Line { text: detected, delay_ms: 400 });
        s.push(
            Action::Line { text: String::from_str("  Resolution: 1920x1080@60Hz"), delay_ms: 0 },
        );
        s.push(Action::Line { text: String::from_str("  Color depth: 24-bit"), delay_ms: 0 });
        s.push(
            Action::Spin {
                message: String::from_str("Building font cache..."),
                duration_ms: 2000,
            },
        );
        s
    }
}

} // verus!
