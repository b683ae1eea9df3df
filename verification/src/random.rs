//! Injectable randomness.
//!
//! Randomized branching (failure odds, batch sizes, device picks) is
//! drawn from a `RandomSource` handed in by the caller, so the logic
//! is verified for every outcome and tests can force one
//! deterministically.  `ThreadRandom` draws from the process's
//! thread-local generator; `FixedRandom` replays a fixed list.
use vstd::prelude::*;

use rand::Rng;

verus! {

/// A source of random draws.  Nothing is assumed about which value
/// comes out beyond its range; the two `chance` edge cases are the
/// documented guarantees of a ratio draw.
pub trait RandomSource: Sized {
    /// Draw an integer uniformly from `[0, bound)`.
    fn pick(&mut self, bound: u64) -> (r: u64)
        requires
            bound >= 1,
        ensures
            r < bound,
    ;

    /// Draw a boolean that is true with probability `num / den`.
    fn chance(&mut self, num: u32, den: u32) -> (r: bool)
        requires
            1 <= den,
            num <= den,
        ensures
            num == 0 ==> !r,
            num == den ==> r,
    ;
}

/// Draws from the thread-local generator of the `rand` crate.
pub struct ThreadRandom {}

impl ThreadRandom {
    pub fn new() -> (r: ThreadRandom) {
        ThreadRandom {  }
    }
}

/// Relies on rand::Rng::gen_range on the thread-local generator: a
/// sample from the non-empty range `0..bound` lies in it.
#[verifier::external_body]
fn rand_below(bound: u64) -> (r: u64)
    requires
        bound >= 1,
    ensures
        r < bound,
{
    rand::thread_rng().gen_range(0..bound)
}

/// Relies on rand::Rng::gen_ratio on the thread-local generator: with
/// numerator 0 the draw is always false, with numerator equal to the
/// denominator always true.
#[verifier::external_body]
fn rand_ratio(num: u32, den: u32) -> (r: bool)
    requires
        1 <= den,
        num <= den,
    ensures
        num == 0 ==> !r,
        num == den ==> r,
{
    rand::thread_rng().gen_ratio(num, den)
}

impl RandomSource for ThreadRandom {
    fn pick(&mut self, bound: u64) -> (r: u64) {
        rand_below(bound)
    }

    fn chance(&mut self, num: u32, den: u32) -> (r: bool) {
        rand_ratio(num, den)
    }
}

/// Replays a fixed list of draws, for deterministic tests.  An empty
/// list always draws zero.
pub struct FixedRandom {
    draws: Vec<u64>,
    next: usize,
}

impl FixedRandom {
    pub fn new(draws: Vec<u64>) -> (r: FixedRandom) {
        FixedRandom { draws, next: 0 }
    }
}

impl RandomSource for FixedRandom {
    fn pick(&mut self, bound: u64) -> (r: u64) {
        if self.draws.len() == 0 {
            0
        } else {
            let i = self.next % self.draws.len();
            self.next = if self.next < usize::MAX - 1 {
                self.next + 1
            } else {
                0
            };
            self.draws[i] % bound
        }
    }

    fn chance(&mut self, num: u32, den: u32) -> (r: bool) {
        if num == 0 {
            false
        } else if num == den {
            true
        } else {
            let d = self.pick(den as u64);
            d < num as u64
        }
    }
}

/// Draw an integer uniformly from `[lo, hi)`.
pub fn pick_in<R: RandomSource>(rng: &mut R, lo: u64, hi: u64) -> (r: u64)
    requires
        lo < hi,
    ensures
        lo <= r < hi,
{
    lo + rng.pick(hi - lo)
}

/// Shared sampling: `count` draws with replacement from `logs`; an
/// empty list yields an empty batch.
pub fn random_lines<R: RandomSource>(logs: &Vec<String>, count: usize, rng: &mut R) -> (r: Vec<
    String,
>)
    ensures
        logs.deep_view().len() == 0 ==> r.deep_view() == Seq::<Seq<char>>::empty(),
        logs.deep_view().len() > 0 ==> r.deep_view().len() == count,
        forall|i: int|
            0 <= i < r.deep_view().len() ==> logs.deep_view().contains(
                #[trigger] r.deep_view()[i],
            ),
{
    let mut out: Vec<String> = Vec::new();
    if logs.len() == 0 {
        proof {
            assert(out.deep_view() =~= Seq::<Seq<char>>::empty());
        }
        return out;
    }
    let n = logs.len();
    let mut i: usize = 0;
    while i < count
        invariant
            i <= count,
            n == logs.len(),
            n > 0,
            out.deep_view().len() == i,
            forall|q: int|
                0 <= q < out.deep_view().len() ==> logs.deep_view().contains(
                    #[trigger] out.deep_view()[q],
                ),
        decreases count - i,
    {
        let idx = rng.pick(n as u64) as usize;
        let ghost pre = out.deep_view();
        out.push(logs[idx].clone());
        proof {
            assert(out.deep_view() =~= pre.push(logs.deep_view()[idx as int]));
            assert(logs.deep_view().contains(logs.deep_view()[idx as int]));
        }
        i = i + 1;
    }
    out
}

} // verus!
