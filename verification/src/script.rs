//! Scripts and transcripts.
//!
//! A stage's behaviour is a *script*: an ordered list of actions —
//! timed lines, progress-bar animations, spinner animations and bare
//! pauses.  Playing a script produces a *transcript* of events (the
//! lines printed and the frames drawn), while a cancellation probe is
//! polled before every line and before every frame.  The front end
//! that owns the terminal performs the same actions with real pacing;
//! the verified players here pin down exactly which events are
//! produced and how the outcome relates to the poll at which
//! cancellation was first observed.
use vstd::prelude::*;
use vstd::string::StringExecFns;

use crate::probe::CancelProbe;
use crate::progress::{spec_render, ProgressBar, ProgressStyle, STEPS};
use crate::spinner::{spec_spin_count, spec_spin_glyph, spin_glyph, Spinner, SPIN_FRAME_MS};
use crate::text::{contains_str, push_char, spec_contains};
use crate::InstallError;

verus! {

/// One step of a stage's script.
///
/// `delay_ms` and `duration_ms` are pacing hints for the front end;
/// they do not change which events playing the action produces.
#[derive(Debug)]
pub enum Action {
    /// Print one line, then wait `delay_ms`.
    Line { text: String, delay_ms: u64 },
    /// Animate a progress bar over `duration_ms`.
    Progress { message: String, style: ProgressStyle, duration_ms: u64 },
    /// Animate a spinner over `duration_ms`.
    Spin { message: String, duration_ms: u64 },
    /// Wait `delay_ms` without printing anything.
    Pause { delay_ms: u64 },
}

/// One produced output: a stage header, a printed line, or a redrawn
/// animation frame.
#[derive(Debug)]
pub enum Event {
    Header(String),
    Line(String),
    Frame(String),
}

/// The mathematical image of an `Event`: the same shape over
/// character sequences.
pub enum SpecEvent {
    Header(Seq<char>),
    Line(Seq<char>),
    Frame(Seq<char>),
}

impl DeepView for Event {
    type V = SpecEvent;

    open spec fn deep_view(&self) -> SpecEvent {
        match self {
            Event::Header(s) => SpecEvent::Header(s@),
            Event::Line(s) => SpecEvent::Line(s@),
            Event::Frame(s) => SpecEvent::Frame(s@),
        }
    }
}

/// Append one event to a transcript.
pub fn emit(out: &mut Vec<Event>, e: Event)
    ensures
        final(out).deep_view() == old(out).deep_view().push(e.deep_view()),
{
    let ghost pre = out.deep_view();
    let ghost ev = e.deep_view();
    out.push(e);
    proof {
        assert(out.deep_view() =~= pre.push(ev));
    }
}

/// The frame a progress animation draws at step `i`: the message, a
/// space, and the bar rendered at `i / STEPS`.
pub open spec fn spec_progress_frame(
    style: ProgressStyle,
    width: int,
    msg: Seq<char>,
    i: int,
) -> SpecEvent {
    SpecEvent::Frame(msg + seq![' '] + spec_render(style, width, i, STEPS as int))
}

/// All `STEPS + 1` frames of a completed progress animation.
pub open spec fn spec_progress_frames(style: ProgressStyle, width: int, msg: Seq<char>) -> Seq<
    SpecEvent,
> {
    Seq::new((STEPS + 1) as nat, |i: int| spec_progress_frame(style, width, msg, i))
}

/// The frame a spinner draws on step `i`: the message, a space, and
/// the rotating glyph.
pub open spec fn spec_spin_frame(msg: Seq<char>, i: int) -> SpecEvent {
    SpecEvent::Frame(msg + seq![' ', spec_spin_glyph(i)])
}

/// All frames of a completed spinner run of the given length.
pub open spec fn spec_spin_frames(msg: Seq<char>, duration_ms: int) -> Seq<SpecEvent> {
    Seq::new(spec_spin_count(duration_ms) as nat, |i: int| spec_spin_frame(msg, i))
}

/// How a printed line reads, for the front end's styling: failures,
/// warnings, successes and downloads stand out from plain output.
#[derive(Clone, Copy, Debug, PartialEq, Eq, Structural)]
pub enum LineTone {
    Failure,
    Warning,
    Success,
    Download,
    Plain,
}

/// The tone of a line, decided by the first matching marker.
pub open spec fn spec_line_tone(line: Seq<char>) -> LineTone {
    if spec_contains(line, "error"@) || spec_contains(line, "Error"@) || spec_contains(
        line,
        "failed"@,
    ) {
        LineTone::Failure
    } else if spec_contains(line, "WARNING"@) || spec_contains(line, "warning"@) {
        LineTone::Warning
    } else if spec_contains(line, "[FOUND]"@) || spec_contains(line, "[OK]"@) || spec_contains(
        line,
        "successfully"@,
    ) {
        LineTone::Success
    } else if spec_contains(line, "Downloading"@) || spec_contains(line, "Downloaded"@) {
        LineTone::Download
    } else {
        LineTone::Plain
    }
}

/// Classify a line for styling.
pub fn line_tone(line: &str) -> (r: LineTone)
    ensures
        r == spec_line_tone(line@),
{
    if contains_str(line, "error") || contains_str(line, "Error") || contains_str(
        line,
        "failed",
    ) {
        LineTone::Failure
    } else if contains_str(line, "WARNING") || contains_str(line, "warning") {
        LineTone::Warning
    } else if contains_str(line, "[FOUND]") || contains_str(line, "[OK]") || contains_str(
        line,
        "successfully",
    ) {
        LineTone::Success
    } else if contains_str(line, "Downloading") || contains_str(line, "Downloaded") {
        LineTone::Download
    } else {
        LineTone::Plain
    }
}

/// The longest pause or animation a single action may ask the front
/// end for, in milliseconds: keeps every stage responsive.
pub const MAX_ACTION_MS: u64 = 10000;

/// An action's pacing stays within `MAX_ACTION_MS`.
pub open spec fn action_wf(a: Action) -> bool {
    match a {
        Action::Line { text, delay_ms } => delay_ms <= MAX_ACTION_MS,
        Action::Progress { message, style, duration_ms } => duration_ms <= MAX_ACTION_MS,
        Action::Spin { message, duration_ms } => duration_ms <= MAX_ACTION_MS,
        Action::Pause { delay_ms } => delay_ms <= MAX_ACTION_MS,
    }
}

/// Every action of the script keeps its pacing bounded.
pub open spec fn script_wf(s: Seq<Action>) -> bool {
    forall|i: int| 0 <= i < s.len() ==> action_wf(#[trigger] s[i])
}

/// The events a completed action produces.
pub open spec fn action_events(a: Action) -> Seq<SpecEvent> {
    match a {
        Action::Line { text, delay_ms } => seq![SpecEvent::Line(text@)],
        Action::Progress { message, style, duration_ms } => spec_progress_frames(
            style,
            20,
            message@,
        ),
        Action::Spin { message, duration_ms } => spec_spin_frames(message@, duration_ms as int),
        Action::Pause { delay_ms } => Seq::empty(),
    }
}

/// How many times a completed action polls the probe: once per line
/// and once per animation frame.
pub open spec fn action_polls(a: Action) -> nat {
    match a {
        Action::Line { text, delay_ms } => 1,
        Action::Progress { message, style, duration_ms } => (STEPS + 1) as nat,
        Action::Spin { message, duration_ms } => spec_spin_count(duration_ms as int) as nat,
        Action::Pause { delay_ms } => 0,
    }
}

impl ProgressBar {
    /// Play a progress animation: for each step, poll the probe, then
    /// draw a frame.  The first poll answered `true` interrupts the
    /// run at once: the pending frame is not drawn and no further
    /// event is produced.
    pub fn animate<P: CancelProbe>(
        &self,
        message: &str,
        duration_ms: u64,
        probe: &mut P,
        out: &mut Vec<Event>,
    ) -> (r: Result<(), InstallError>)
        ensures
            forall|k: nat| final(probe).answer_at(k) == old(probe).answer_at(k),
            r is Ok ==> {
                &&& final(out).deep_view() == old(out).deep_view() + spec_progress_frames(
                    self.spec_style(),
                    self.spec_width(),
                    message@,
                )
                &&& final(probe).polls() == old(probe).polls() + (STEPS + 1) as nat
                &&& forall|k: nat|
                    old(probe).polls() <= k < final(probe).polls() ==> !old(probe).answer_at(k)
            },
            r is Err ==> {
                &&& r == Err::<(), InstallError>(InstallError::Interrupted)
                &&& old(probe).polls() < final(probe).polls() <= old(probe).polls() + (STEPS
                    + 1) as nat
                &&& old(probe).answer_at((final(probe).polls() - 1) as nat)
                &&& forall|k: nat|
                    old(probe).polls() <= k < final(probe).polls() - 1 ==> !old(
                        probe,
                    ).answer_at(k)
                &&& final(out).deep_view() == old(out).deep_view() + spec_progress_frames(
                    self.spec_style(),
                    self.spec_width(),
                    message@,
                ).take(final(probe).polls() - old(probe).polls() - 1)
            },
            old(probe).answer_at(old(probe).polls()) ==> {
                &&& r is Err
                &&& final(out).deep_view() == old(out).deep_view()
                &&& final(probe).polls() == old(probe).polls() + 1
            },
    {
        let ghost pre = out.deep_view();
        let ghost p0: nat = probe.polls();
        let ghost probe0: P = *probe;
        let ghost frames = spec_progress_frames(self.spec_style(), self.spec_width(), message@);
        proof {
            assert(out.deep_view() =~= pre + frames.take(0));
        }
        let mut i: u64 = 0;
        while i <= STEPS
            invariant
                i <= STEPS + 1,
                probe0 == *old(probe),
                p0 == old(probe).polls(),
                pre == old(out).deep_view(),
                probe.polls() == p0 + i as nat,
                forall|k: nat| probe.answer_at(k) == probe0.answer_at(k),
                forall|k: nat| p0 <= k < p0 + i as nat ==> !probe0.answer_at(k),
                out.deep_view() == pre + frames.take(i as int),
                frames == spec_progress_frames(self.spec_style(), self.spec_width(), message@),
            decreases STEPS + 1 - i,
        {
            if probe.should_cancel() {
                return Err(InstallError::Interrupted);
            }
            let mut line = String::from_str(message);
            push_char(&mut line, ' ');
            let bar = self.render(i, STEPS);
            line.append(bar.as_str());
            emit(out, Event::Frame(line));
            proof {
                assert(pre + frames.take(i + 1) =~= (pre + frames.take(i as int)).push(
                    frames[i as int],
                ));
            }
            i = i + 1;
        }
        proof {
            assert(frames.take((STEPS + 1) as int) =~= frames);
        }
        Ok(())
    }
}

impl Spinner {
    /// Play a spinner animation: for each frame, poll the probe, then
    /// draw the rotating glyph.  Cancellation interrupts the run
    /// before the pending frame is drawn.
    pub fn animate<P: CancelProbe>(
        &self,
        message: &str,
        duration_ms: u64,
        probe: &mut P,
        out: &mut Vec<Event>,
    ) -> (r: Result<(), InstallError>)
        ensures
            forall|k: nat| final(probe).answer_at(k) == old(probe).answer_at(k),
            r is Ok ==> {
                &&& final(out).deep_view() == old(out).deep_view() + spec_spin_frames(
                    message@,
                    duration_ms as int,
                )
                &&& final(probe).polls() == old(probe).polls() + spec_spin_count(
                    duration_ms as int,
                ) as nat
                &&& forall|k: nat|
                    old(probe).polls() <= k < final(probe).polls() ==> !old(probe).answer_at(k)
            },
            r is Err ==> {
                &&& r == Err::<(), InstallError>(InstallError::Interrupted)
                &&& old(probe).polls() < final(probe).polls() <= old(probe).polls()
                    + spec_spin_count(duration_ms as int) as nat
                &&& old(probe).answer_at((final(probe).polls() - 1) as nat)
                &&& forall|k: nat|
                    old(probe).polls() <= k < final(probe).polls() - 1 ==> !old(
                        probe,
                    ).answer_at(k)
                &&& final(out).deep_view() == old(out).deep_view() + spec_spin_frames(
                    message@,
                    duration_ms as int,
                ).take(final(probe).polls() - old(probe).polls() - 1)
            },
            old(probe).answer_at(old(probe).polls()) ==> {
                &&& r is Err
                &&& final(out).deep_view() == old(out).deep_view()
                &&& final(probe).polls() == old(probe).polls() + 1
            },
    {
        let ghost pre = out.deep_view();
        let ghost p0: nat = probe.polls();
        let ghost probe0: P = *probe;
        let ghost frames = spec_spin_frames(message@, duration_ms as int);
        let count = duration_ms / SPIN_FRAME_MS + 1;
        proof {
            assert(out.deep_view() =~= pre + frames.take(0));
        }
        let mut i: u64 = 0;
        while i < count
            invariant
                i <= count,
                count == spec_spin_count(duration_ms as int),
                probe0 == *old(probe),
                p0 == old(probe).polls(),
                pre == old(out).deep_view(),
                probe.polls() == p0 + i as nat,
                forall|k: nat| probe.answer_at(k) == probe0.answer_at(k),
                forall|k: nat| p0 <= k < p0 + i as nat ==> !probe0.answer_at(k),
                out.deep_view() == pre + frames.take(i as int),
                frames == spec_spin_frames(message@, duration_ms as int),
            decreases count - i,
        {
            if probe.should_cancel() {
                return Err(InstallError::Interrupted);
            }
            let mut line = String::from_str(message);
            push_char(&mut line, ' ');
            push_char(&mut line, spin_glyph(i));
            emit(out, Event::Frame(line));
            proof {
                assert(line@ =~= message@ + seq![' ', spec_spin_glyph(i as int)]);
                assert(pre + frames.take(i + 1) =~= (pre + frames.take(i as int)).push(
                    frames[i as int],
                ));
            }
            i = i + 1;
        }
        proof {
            assert(frames.take(count as int) =~= frames);
        }
        Ok(())
    }
}

/// Play one action against a probe, appending the produced events to
/// the transcript.  Success means the action ran in full and every
/// poll it made answered `false`; interruption means the poll at
/// `final(probe).polls() - 1` was the first to answer `true`, and
/// exactly the events before that poll were produced.
pub fn play_action<P: CancelProbe>(a: &Action, probe: &mut P, out: &mut Vec<Event>) -> (r: Result<
    (),
    InstallError,
>)
    ensures
        forall|k: nat| final(probe).answer_at(k) == old(probe).answer_at(k),
        r is Ok ==> {
            &&& final(out).deep_view() == old(out).deep_view() + action_events(*a)
            &&& final(probe).polls() == old(probe).polls() + action_polls(*a)
            &&& forall|k: nat|
                old(probe).polls() <= k < final(probe).polls() ==> !old(probe).answer_at(k)
        },
        r is Err ==> {
            &&& r == Err::<(), InstallError>(InstallError::Interrupted)
            &&& old(probe).polls() < final(probe).polls() <= old(probe).polls() + action_polls(*a)
            &&& old(probe).answer_at((final(probe).polls() - 1) as nat)
            &&& forall|k: nat|
                old(probe).polls() <= k < final(probe).polls() - 1 ==> !old(probe).answer_at(k)
            &&& final(out).deep_view() == old(out).deep_view() + action_events(*a).take(
                final(probe).polls() - old(probe).polls() - 1,
            )
        },
{
    match a {
        Action::Line { text, delay_ms } => {
            let ghost pre = out.deep_view();
            if probe.should_cancel() {
                proof {
                    assert(out.deep_view() =~= pre + action_events(*a).take(0));
                }
                Err(InstallError::Interrupted)
            } else {
                emit(out, Event::Line(text.clone()));
                proof {
                    assert(out.deep_view() =~= pre + action_events(*a));
                }
                Ok(())
            }
        },
        Action::Progress { message, style, duration_ms } => {
            let bar = ProgressBar::new(*style);
            bar.animate(message.as_str(), *duration_ms, probe, out)
        },
        Action::Spin { message, duration_ms } => {
            let spinner = Spinner::new();
            spinner.animate(message.as_str(), *duration_ms, probe, out)
        },
        Action::Pause { delay_ms } => {
            proof {
                assert(out.deep_view() =~= out.deep_view() + action_events(*a));
            }
            Ok(())
        },
    }
}

} // verus!
