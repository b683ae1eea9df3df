//! Stage selection: the closed set of installation stages, their
//! canonical order, and the resolution of a command line's choices
//! into the list of stages to run.
//!
//! The argument surface itself (flag parsing) lives in the front end;
//! it hands over plain values.
use vstd::prelude::*;

verus! {

/// Every installation stage, in no particular order of its own; the
/// canonical running order is `spec_all_stages`.
#[derive(Clone, Copy, Debug, PartialEq, Eq, Structural)]
pub enum Stage {
    Bios,
    Boot,
    Bootloader,
    Filesystem,
    System,
    Network,
    Drivers,
    Initramfs,
    Packages,
    Kernel,
    Compilation,
    Deno,
    Database,
    Xorg,
    Services,
    Retro,
    Locale,
    Container,
    Ai,
    Cloud,
}

/// The canonical installation order of all stages.
pub open spec fn spec_all_stages() -> Seq<Stage> {
    seq![
        Stage::Bios,
        Stage::Boot,
        Stage::Bootloader,
        Stage::Filesystem,
        Stage::System,
        Stage::Network,
        Stage::Drivers,
        Stage::Initramfs,
        Stage::Packages,
        Stage::Kernel,
        Stage::Compilation,
        Stage::Deno,
        Stage::Database,
        Stage::Xorg,
        Stage::Services,
        Stage::Retro,
        Stage::Locale,
        Stage::Container,
        Stage::Ai,
        Stage::Cloud,
    ]
}

impl Stage {
    /// All stages in installation order.
    pub fn all() -> (r: Vec<Stage>)
        ensures
            r@ == spec_all_stages(),
    {
        let mut v: Vec<Stage> = Vec::new();
        v.push(Stage::Bios);
        v.push(Stage::Boot);
        v.push(Stage::Bootloader);
        v.push(Stage::Filesystem);
        v.push(Stage::System);
        v.push(Stage::Network);
        v.push(Stage::Drivers);
        v.push(Stage::Initramfs);
        v.push(Stage::Packages);
        v.push(Stage::Kernel);
        v.push(Stage::Compilation);
        v.push(Stage::Deno);
        v.push(Stage::Database);
        v.push(Stage::Xorg);
        v.push(Stage::Services);
        v.push(Stage::Retro);
        v.push(Stage::Locale);
        v.push(Stage::Container);
        v.push(Stage::Ai);
        v.push(Stage::Cloud);
        proof {
            assert(v@ =~= spec_all_stages());
        }
        v
    }
}

/// The predicate stage selection keeps stages by: not excluded.
pub open spec fn spec_keep(exclude: Seq<Stage>) -> spec_fn(Stage) -> bool {
    |s: Stage| !exclude.contains(s)
}

/// The list a command line starts from: the explicit stages, or all
/// of them when `--all` was given or none were named.
pub open spec fn spec_base(stages: Seq<Stage>, all: bool) -> Seq<Stage> {
    if all || stages.len() == 0 {
        spec_all_stages()
    } else {
        stages
    }
}

/// The stages a command line selects: the base list with every
/// excluded stage removed, order kept.
pub open spec fn spec_selected(stages: Seq<Stage>, all: bool, exclude: Seq<Stage>) -> Seq<Stage> {
    spec_base(stages, all).filter(spec_keep(exclude))
}

/// A resolved command line: explicitly named stages, the request to
/// run all of them, and the stages to leave out.
pub struct Cli {
    pub stages: Vec<Stage>,
    pub all: bool,
    pub exclude: Vec<Stage>,
}

/// Filtering one more stage keeps it exactly when the predicate holds
/// of it.
proof fn lemma_stage_filter_step(s: Seq<Stage>, pred: spec_fn(Stage) -> bool, i: int)
    requires
        0 <= i < s.len(),
    ensures
        s.take(i + 1).filter(pred) == if pred(s[i]) {
            s.take(i).filter(pred).push(s[i])
        } else {
            s.take(i).filter(pred)
        },
{
    reveal(Seq::filter);
    assert(s.take(i + 1).drop_last() =~= s.take(i));
    assert(s.take(i + 1).last() == s[i]);
}

/// Whether `v` holds `s`.
fn contains_stage(v: &Vec<Stage>, s: Stage) -> (r: bool)
    ensures
        r == v@.contains(s),
{
    let n = v.len();
    let mut i: usize = 0;
    while i < n
        invariant
            i <= n,
            n == v@.len(),
            forall|k: int| 0 <= k < i ==> v@[k] != s,
        decreases n - i,
    {
        if v[i] == s {
            return true;
        }
        i = i + 1;
    }
    proof {
        assert(!v@.contains(s)) by {
            if v@.contains(s) {
                let w = choose|w: int| 0 <= w < v@.len() && v@[w] == s;
                assert(v@[w] != s);
            }
        }
    }
    false
}

impl Cli {
    /// The selected stages: the named ones (or all, when `--all` was
    /// given or none were named), minus the excluded ones, in order.
    pub fn get_stages(&self) -> (r: Vec<Stage>)
        ensures
            r@ == spec_selected(self.stages@, self.all, self.exclude@),
    {
        let base: Vec<Stage> = if self.all || self.stages.len() == 0 {
            Stage::all()
        } else {
            let mut copy: Vec<Stage> = Vec::new();
            let mut i: usize = 0;
            while i < self.stages.len()
                invariant
                    i <= self.stages@.len(),
                    copy@ == self.stages@.take(i as int),
                decreases self.stages@.len() - i,
            {
                copy.push(self.stages[i]);
                proof {
                    assert(copy@ =~= self.stages@.take(i as int + 1));
                }
                i = i + 1;
            }
            proof {
                assert(self.stages@.take(self.stages@.len() as int) =~= self.stages@);
            }
            copy
        };
        let ghost bv = base@;
        let ghost pred = spec_keep(self.exclude@);
        let mut out: Vec<Stage> = Vec::new();
        proof {
            reveal(Seq::filter);
            assert(bv.take(0) =~= Seq::<Stage>::empty());
        }
        let n = base.len();
        let mut i: usize = 0;
        while i < n
            invariant
                i <= n,
                n == base@.len(),
                bv == base@,
                pred == spec_keep(self.exclude@),
                out@ == bv.take(i as int).filter(pred),
            decreases n - i,
        {
            proof {
                lemma_stage_filter_step(bv, pred, i as int);
            }
            if !contains_stage(&self.exclude, base[i]) {
                out.push(base[i]);
            }
            i = i + 1;
        }
        proof {
            assert(bv.take(n as int) =~= bv);
        }
        out
    }
}

} // verus!
