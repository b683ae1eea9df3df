//! The pipeline: an ordered list of stage plans, executed strictly in
//! sequence.
//!
//! Each plan is played in full before the next starts; the first
//! interruption stops the run at once, so a stage after the
//! interrupted one contributes nothing to the transcript.  The
//! contracts state exactly that: on success the transcript gains the
//! concatenation of every plan's events; on interruption it gains the
//! events of the completed stages followed by the interrupted stage's
//! events cut exactly at the poll that answered `true` — headers are
//! free, every other event costs one poll.
use vstd::prelude::*;

use crate::probe::CancelProbe;
use crate::script::{action_events, action_polls, emit, play_action, Action, Event, SpecEvent};
use crate::InstallError;

verus! {

/// One stage, resolved to a display name and the script it will
/// play.  `prompt_retry` marks a plan after which the front end asks
/// the user whether to retry; playing the plan itself is unaffected.
pub struct StagePlan {
    pub name: String,
    pub script: Vec<Action>,
    pub prompt_retry: bool,
}

/// The events of a list of actions, in order.
pub open spec fn actions_events(s: Seq<Action>) -> Seq<SpecEvent>
    decreases s.len(),
{
    if s.len() == 0 {
        Seq::empty()
    } else {
        action_events(s[0]) + actions_events(s.drop_first())
    }
}

/// The polls a list of actions makes, in order.
pub open spec fn actions_polls(s: Seq<Action>) -> nat
    decreases s.len(),
{
    if s.len() == 0 {
        0
    } else {
        action_polls(s[0]) + actions_polls(s.drop_first())
    }
}

/// The events of a completed plan: its header, then its actions'
/// events.
pub open spec fn plan_events(p: StagePlan) -> Seq<SpecEvent> {
    seq![SpecEvent::Header(p.name@)] + actions_events(p.script@)
}

/// The polls a completed plan makes; the header itself is printed
/// without a poll.
pub open spec fn plan_polls(p: StagePlan) -> nat {
    actions_polls(p.script@)
}

/// The events of a list of completed plans, in order.
pub open spec fn plans_events(s: Seq<StagePlan>) -> Seq<SpecEvent>
    decreases s.len(),
{
    if s.len() == 0 {
        Seq::empty()
    } else {
        plan_events(s[0]) + plans_events(s.drop_first())
    }
}

/// The polls a list of completed plans makes, in order.
pub open spec fn plans_polls(s: Seq<StagePlan>) -> nat
    decreases s.len(),
{
    if s.len() == 0 {
        0
    } else {
        plan_polls(s[0]) + plans_polls(s.drop_first())
    }
}

/// An action produces exactly one event per poll it makes.
pub proof fn lemma_action_counts(a: Action)
    ensures
        action_events(a).len() == action_polls(a),
{
}

/// A list of actions produces exactly one event per poll it makes.
pub proof fn lemma_actions_counts(s: Seq<Action>)
    ensures
        actions_events(s).len() == actions_polls(s),
    decreases s.len(),
{
    if s.len() > 0 {
        lemma_action_counts(s[0]);
        lemma_actions_counts(s.drop_first());
    }
}

/// A plan produces exactly one event per poll it makes, plus its
/// header.
pub proof fn lemma_plan_counts(p: StagePlan)
    ensures
        plan_events(p).len() == 1 + plan_polls(p),
{
    lemma_actions_counts(p.script@);
}

/// Taking one more action extends the accumulated events and polls by
/// exactly that action's.
pub proof fn lemma_actions_step(s: Seq<Action>, i: int)
    requires
        0 <= i < s.len(),
    ensures
        actions_events(s.take(i + 1)) == actions_events(s.take(i)) + action_events(s[i]),
        actions_polls(s.take(i + 1)) == actions_polls(s.take(i)) + action_polls(s[i]),
    decreases i,
{
    if i == 0 {
        assert(s.take(0) =~= Seq::<Action>::empty());
        assert(s.take(1).drop_first() =~= Seq::<Action>::empty());
        assert(actions_events(s.take(1)) =~= actions_events(s.take(0)) + action_events(s[0]));
    } else {
        let sd = s.drop_first();
        lemma_actions_step(sd, i - 1);
        assert(s.take(i + 1).drop_first() =~= sd.take(i));
        assert(s.take(i).drop_first() =~= sd.take(i - 1));
        assert(actions_events(s.take(i + 1)) == action_events(s[0]) + actions_events(sd.take(i)));
        assert(actions_events(s.take(i)) == action_events(s[0]) + actions_events(sd.take(i - 1)));
        assert(action_events(s[0]) + (actions_events(sd.take(i - 1)) + action_events(sd[i - 1]))
            =~= (action_events(s[0]) + actions_events(sd.take(i - 1))) + action_events(sd[i - 1]));
    }
}

/// A list of actions splits around any position, in events and in
/// polls.
pub proof fn lemma_actions_split(s: Seq<Action>, j: int)
    requires
        0 <= j < s.len(),
    ensures
        actions_events(s) == actions_events(s.take(j)) + action_events(s[j]) + actions_events(
            s.skip(j + 1),
        ),
        actions_polls(s) == actions_polls(s.take(j)) + action_polls(s[j]) + actions_polls(
            s.skip(j + 1),
        ),
    decreases j,
{
    if j == 0 {
        assert(s.take(0) =~= Seq::<Action>::empty());
        assert(s.skip(1) =~= s.drop_first());
        assert(actions_events(s.take(0)) + action_events(s[0]) =~= action_events(s[0]));
    } else {
        let sd = s.drop_first();
        lemma_actions_split(sd, j - 1);
        assert(s.take(j).drop_first() =~= sd.take(j - 1));
        assert(s.skip(j + 1) =~= sd.skip(j));
        assert(actions_events(s.take(j)) == action_events(s[0]) + actions_events(sd.take(j - 1)));
        assert(actions_polls(s.take(j)) == action_polls(s[0]) + actions_polls(sd.take(j - 1)));
        assert(action_events(s[0]) + (actions_events(sd.take(j - 1)) + action_events(sd[j - 1])
            + actions_events(sd.skip(j))) =~= (action_events(s[0]) + actions_events(sd.take(j - 1)))
            + action_events(sd[j - 1]) + actions_events(sd.skip(j)));
    }
}

/// Taking one more plan extends the accumulated events and polls by
/// exactly that plan's.
pub proof fn lemma_plans_step(s: Seq<StagePlan>, i: int)
    requires
        0 <= i < s.len(),
    ensures
        plans_events(s.take(i + 1)) == plans_events(s.take(i)) + plan_events(s[i]),
        plans_polls(s.take(i + 1)) == plans_polls(s.take(i)) + plan_polls(s[i]),
    decreases i,
{
    if i == 0 {
        assert(s.take(0) =~= Seq::<StagePlan>::empty());
        assert(s.take(1).drop_first() =~= Seq::<StagePlan>::empty());
        assert(plans_events(s.take(1)) =~= plans_events(s.take(0)) + plan_events(s[0]));
    } else {
        let sd = s.drop_first();
        lemma_plans_step(sd, i - 1);
        assert(s.take(i + 1).drop_first() =~= sd.take(i));
        assert(s.take(i).drop_first() =~= sd.take(i - 1));
        assert(plans_events(s.take(i + 1)) == plan_events(s[0]) + plans_events(sd.take(i)));
        assert(plans_events(s.take(i)) == plan_events(s[0]) + plans_events(sd.take(i - 1)));
        assert(plan_events(s[0]) + (plans_events(sd.take(i - 1)) + plan_events(sd[i - 1]))
            =~= (plan_events(s[0]) + plans_events(sd.take(i - 1))) + plan_events(sd[i - 1]));
    }
}

/// A list of plans splits around any position, in events and in
/// polls.
pub proof fn lemma_plans_split(s: Seq<StagePlan>, j: int)
    requires
        0 <= j < s.len(),
    ensures
        plans_events(s) == plans_events(s.take(j)) + plan_events(s[j]) + plans_events(
            s.skip(j + 1),
        ),
        plans_polls(s) == plans_polls(s.take(j)) + plan_polls(s[j]) + plans_polls(s.skip(j + 1)),
    decreases j,
{
    if j == 0 {
        assert(s.take(0) =~= Seq::<StagePlan>::empty());
        assert(s.skip(1) =~= s.drop_first());
        assert(plans_events(s.take(0)) + plan_events(s[0]) =~= plan_events(s[0]));
    } else {
        let sd = s.drop_first();
        lemma_plans_split(sd, j - 1);
        assert(s.take(j).drop_first() =~= sd.take(j - 1));
        assert(s.skip(j + 1) =~= sd.skip(j));
        assert(plans_events(s.take(j)) == plan_events(s[0]) + plans_events(sd.take(j - 1)));
        assert(plans_polls(s.take(j)) == plan_polls(s[0]) + plans_polls(sd.take(j - 1)));
        assert(plan_events(s[0]) + (plans_events(sd.take(j - 1)) + plan_events(sd[j - 1])
            + plans_events(sd.skip(j))) =~= (plan_events(s[0]) + plans_events(sd.take(j - 1)))
            + plan_events(sd[j - 1]) + plans_events(sd.skip(j)));
    }
}

/// The law behind cooperative cancellation: whatever an interrupted
/// run has shown is a prefix of what the same plans would have shown
/// uninterrupted — interruption only cuts the transcript short, it
/// never changes or reorders it.
pub proof fn lemma_interrupted_is_prefix(
    plans: Seq<StagePlan>,
    pre: Seq<SpecEvent>,
    post: Seq<SpecEvent>,
    d: int,
)
    requires
        interrupted_cut(plans, pre, post, d),
    ensures
        post.is_prefix_of(pre + plans_events(plans)),
{
    let i = choose|i: int|
        {
            &&& 0 <= i < plans.len()
            &&& plans_polls(plans.take(i)) < d <= plans_polls(plans.take(i)) + plan_polls(
                plans[i],
            )
            &&& post == pre + plans_events(plans.take(i)) + #[trigger] plan_events(
                plans[i],
            ).take(d - plans_polls(plans.take(i)))
        };
    let n = d - plans_polls(plans.take(i));
    lemma_plan_counts(plans[i]);
    lemma_plans_split(plans, i);
    let done = plans_events(plans.take(i));
    let cur = plan_events(plans[i]);
    let rest = plans_events(plans.skip(i + 1));
    assert(pre + plans_events(plans) =~= (pre + done) + (cur + rest));
    lemma_take_of_concat(pre + done, cur + rest, n);
    lemma_take_short(cur, rest, n);
    assert(post =~= (pre + done) + cur.take(n));
    assert((pre + plans_events(plans)).take((pre + done).len() + n) == (pre + done) + cur.take(n));
    assert(post =~= (pre + plans_events(plans)).take(post.len() as int));
}

/// Taking an index that falls inside the second part of a
/// concatenation takes all of the first part and a prefix of the
/// second.
pub proof fn lemma_take_of_concat(a: Seq<SpecEvent>, b: Seq<SpecEvent>, d: int)
    requires
        0 <= d <= b.len(),
    ensures
        (a + b).take(a.len() + d) == a + b.take(d),
{
    assert((a + b).take(a.len() as int + d) =~= a + b.take(d));
}

/// Taking an index inside the first part of a concatenation ignores
/// the second part.
pub proof fn lemma_take_short(a: Seq<SpecEvent>, b: Seq<SpecEvent>, d: int)
    requires
        0 <= d <= a.len(),
    ensures
        (a + b).take(d) == a.take(d),
{
    assert((a + b).take(d) =~= a.take(d));
}

/// Play one plan: print its header, then play its actions in order,
/// stopping at the first interruption.  The header costs no poll and
/// every later event costs exactly one, so the transcript gained by
/// an interrupted run is the plan's events cut exactly at the number
/// of polls consumed.
pub fn play_plan<P: CancelProbe>(p: &StagePlan, probe: &mut P, out: &mut Vec<Event>) -> (r: Result<
    (),
    InstallError,
>)
    ensures
        forall|k: nat| final(probe).answer_at(k) == old(probe).answer_at(k),
        r is Ok ==> {
            &&& final(out).deep_view() == old(out).deep_view() + plan_events(*p)
            &&& final(probe).polls() == old(probe).polls() + plan_polls(*p)
            &&& forall|k: nat|
                old(probe).polls() <= k < final(probe).polls() ==> !old(probe).answer_at(k)
        },
        r is Err ==> {
            &&& r == Err::<(), InstallError>(InstallError::Interrupted)
            &&& old(probe).polls() < final(probe).polls() <= old(probe).polls() + plan_polls(*p)
            &&& old(probe).answer_at((final(probe).polls() - 1) as nat)
            &&& forall|k: nat|
                old(probe).polls() <= k < final(probe).polls() - 1 ==> !old(probe).answer_at(k)
            &&& final(out).deep_view() == old(out).deep_view() + plan_events(*p).take(
                final(probe).polls() - old(probe).polls(),
            )
        },
{
    let ghost pre = out.deep_view();
    let ghost p0: nat = probe.polls();
    let ghost probe0: P = *probe;
    let ghost head = seq![SpecEvent::Header(p.name@)];
    emit(out, Event::Header(p.name.clone()));
    proof {
        assert(out.deep_view() =~= pre + head + actions_events(p.script@.take(0)));
    }
    let n_actions = p.script.len();
    let mut j: usize = 0;
    while j < n_actions
        invariant
            j <= n_actions,
            n_actions == p.script.len(),
            probe0 == *old(probe),
            p0 == old(probe).polls(),
            pre == old(out).deep_view(),
            head == seq![SpecEvent::Header(p.name@)],
            probe.polls() == p0 + actions_polls(p.script@.take(j as int)),
            forall|k: nat| probe.answer_at(k) == probe0.answer_at(k),
            forall|k: nat| p0 <= k < probe.polls() ==> !probe0.answer_at(k),
            out.deep_view() == pre + head + actions_events(p.script@.take(j as int)),
        decreases n_actions - j,
    {
        let ghost polls_before = probe.polls();
        let r = play_action(&p.script[j], probe, out);
        proof {
            lemma_actions_step(p.script@, j as int);
        }
        match r {
            Ok(unit) => {
                proof {
                    assert(out.deep_view() =~= pre + head + actions_events(
                        p.script@.take(j as int + 1),
                    ));
                }
                j = j + 1;
            },
            Err(e) => {
                proof {
                    let a = p.script@[j as int];
                    lemma_actions_split(p.script@, j as int);
                    lemma_action_counts(a);
                    lemma_actions_counts(p.script@.take(j as int));
                    let d = probe.polls() - polls_before - 1;
                    let done = actions_events(p.script@.take(j as int));
                    let rest = actions_events(p.script@.skip(j as int + 1));
                    let n = 1 + done.len() + d;
                    assert(n == probe.polls() - p0);
                    // The plan's events regrouped around the failing
                    // action.
                    assert(plan_events(*p) =~= (head + done) + (action_events(a) + rest));
                    lemma_take_of_concat(head + done, action_events(a) + rest, d);
                    lemma_take_short(action_events(a), rest, d);
                    assert(plan_events(*p).take(n) == (head + done) + action_events(a).take(d));
                    assert(action_events(a).take(d) =~= action_events(a).take(d));
                    assert(out.deep_view() == (pre + head + done) + action_events(a).take(d));
                    assert(out.deep_view() =~= pre + ((head + done) + action_events(a).take(d)));
                    assert(out.deep_view() == pre + plan_events(*p).take(n));
                    assert(1 <= n <= plan_events(*p).len());
                }
                return Err(e);
            },
        }
    }
    proof {
        assert(p.script@.take(n_actions as int) =~= p.script@);
        assert(out.deep_view() =~= pre + plan_events(*p));
    }
    Ok(())
}

/// What a transcript looks like after a run interrupted at its
/// `d`-th poll: the stages whose polls all fit before `d` contributed
/// their full events, the stage the `d`-th poll fell in contributed
/// its events cut exactly at `d` minus the polls of the stages before
/// it, and no later stage contributed anything.
pub open spec fn interrupted_cut(
    plans: Seq<StagePlan>,
    pre: Seq<SpecEvent>,
    post: Seq<SpecEvent>,
    d: int,
) -> bool {
    exists|i: int|
        {
            &&& 0 <= i < plans.len()
            &&& plans_polls(plans.take(i)) < d <= plans_polls(plans.take(i)) + plan_polls(
                plans[i],
            )
            &&& post == pre + plans_events(plans.take(i)) + #[trigger] plan_events(
                plans[i],
            ).take(d - plans_polls(plans.take(i)))
        }
}

/// An ordered list of stages, run strictly in sequence, aborting on
/// the first interruption.
pub struct Pipeline {
    pub plans: Vec<StagePlan>,
}

impl Pipeline {
    pub fn new(plans: Vec<StagePlan>) -> (r: Pipeline)
        ensures
            r.plans == plans,
    {
        Pipeline { plans }
    }

    /// Run every stage in list order.  Success is owed whenever the
    /// probe never answers `true` during the run's polls; on
    /// interruption the transcript is cut exactly at the cancelling
    /// poll: the stages before the interrupted one have run in full,
    /// the interrupted one shows one event per poll it consumed, and
    /// no later stage has produced any event.
    pub fn run<P: CancelProbe>(&self, probe: &mut P, out: &mut Vec<Event>) -> (r: Result<
        (),
        InstallError,
    >)
        ensures
            forall|k: nat| final(probe).answer_at(k) == old(probe).answer_at(k),
            r is Ok ==> {
                &&& final(out).deep_view() == old(out).deep_view() + plans_events(self.plans@)
                &&& final(probe).polls() == old(probe).polls() + plans_polls(self.plans@)
                &&& forall|k: nat|
                    old(probe).polls() <= k < final(probe).polls() ==> !old(probe).answer_at(k)
            },
            r is Err ==> {
                &&& r == Err::<(), InstallError>(InstallError::Interrupted)
                &&& old(probe).polls() < final(probe).polls() <= old(probe).polls() + plans_polls(
                    self.plans@,
                )
                &&& old(probe).answer_at((final(probe).polls() - 1) as nat)
                &&& forall|k: nat|
                    old(probe).polls() <= k < final(probe).polls() - 1 ==> !old(
                        probe,
                    ).answer_at(k)
                &&& interrupted_cut(
                    self.plans@,
                    old(out).deep_view(),
                    final(out).deep_view(),
                    final(probe).polls() - old(probe).polls(),
                )
            },
    {
        let ghost pre = out.deep_view();
        let ghost p0: nat = probe.polls();
        let ghost probe0: P = *probe;
        proof {
            assert(out.deep_view() =~= pre + plans_events(self.plans@.take(0)));
        }
        let n_plans = self.plans.len();
        let mut i: usize = 0;
        while i < n_plans
            invariant
                i <= n_plans,
                n_plans == self.plans.len(),
                probe0 == *old(probe),
                p0 == old(probe).polls(),
                pre == old(out).deep_view(),
                probe.polls() == p0 + plans_polls(self.plans@.take(i as int)),
                forall|k: nat| probe.answer_at(k) == probe0.answer_at(k),
                forall|k: nat| p0 <= k < probe.polls() ==> !probe0.answer_at(k),
                out.deep_view() == pre + plans_events(self.plans@.take(i as int)),
            decreases n_plans - i,
        {
            let ghost events_before = out.deep_view();
            let ghost polls_before = probe.polls();
            let r = play_plan(&self.plans[i], probe, out);
            proof {
                lemma_plans_step(self.plans@, i as int);
            }
            match r {
                Ok(unit) => {
                    proof {
                        assert(out.deep_view() =~= pre + plans_events(
                            self.plans@.take(i as int + 1),
                        ));
                    }
                    i = i + 1;
                },
                Err(e) => {
                    proof {
                        let p = self.plans@[i as int];
                        lemma_plans_split(self.plans@, i as int);
                        let delta = probe.polls() - polls_before;
                        let d = probe.polls() - p0;
                        assert(d - plans_polls(self.plans@.take(i as int)) == delta);
                        assert(out.deep_view() =~= pre + plans_events(self.plans@.take(i as int))
                            + plan_events(p).take(delta));
                        assert(interrupted_cut(self.plans@, pre, out.deep_view(), d));
                    }
                    return Err(e);
                },
            }
        }
        proof {
            assert(self.plans@.take(n_plans as int) =~= self.plans@);
        }
        Ok(())
    }
}

} // verus!
