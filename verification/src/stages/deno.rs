//! The runtime-build stage: replays a build-log corpus with per-line
//! styling and pacing, sometimes fails, and — after an explicit
//! keypress decision made by the front end — either retries with the
//! success corpus or skips.
use vstd::prelude::*;
use vstd::string::StringExecFns;

use crate::deno_logs::{DenoLogs, DENO_ERROR_TEXT, DENO_SUCCESS_TEXT};
use crate::progress::ProgressStyle;
use crate::random::{pick_in, RandomSource};
use crate::script::{script_wf, Action};
use crate::stages::InstallationStage;
use crate::text::{contains_str, spec_clean_lines, spec_contains};

verus! {

/// How one corpus line is turned into an action: compile lines become
/// progress animations, download lines scroll fast, errors and
/// warnings print at once, the finish line lingers.
pub open spec fn spec_display_action(line: Seq<char>, a: Action) -> bool {
    if spec_contains(line, "error:"@) || spec_contains(line, "Error"@) {
        &&& a matches Action::Line { text, delay_ms }
        &&& text@ == line
        &&& delay_ms == 0
    } else if spec_contains(line, "warning:"@) {
        &&& a matches Action::Line { text, delay_ms }
        &&& text@ == line
        &&& delay_ms == 0
    } else if spec_contains(line, "Compiling"@) {
        &&& a matches Action::Progress { message, style, duration_ms }
        &&& message@ == line
        &&& style == ProgressStyle::Block
        &&& duration_ms < 2500
    } else if spec_contains(line, "Downloading"@) || spec_contains(line, "Downloaded"@) {
        &&& a matches Action::Line { text, delay_ms }
        &&& text@ == line
        &&& delay_ms < 40
    } else if spec_contains(line, "Finished"@) {
        &&& a matches Action::Line { text, delay_ms }
        &&& text@ == line
        &&& delay_ms == 300
    } else {
        &&& a matches Action::Line { text, delay_ms }
        &&& text@ == line
        &&& delay_ms < 80
    }
}

/// Turn corpus lines into actions, one action per line.
pub fn display_script<R: RandomSource>(logs: &Vec<String>, rng: &mut R) -> (s: Vec<Action>)
    ensures
        s@.len() == logs.deep_view().len(),
        script_wf(s@),
        forall|i: int|
            0 <= i < s@.len() ==> spec_display_action(logs.deep_view()[i], #[trigger] s@[i]),
{
    let mut s: Vec<Action> = Vec::new();
    let n = logs.len();
    let mut j: usize = 0;
    while j < n
        invariant
            j <= n,
            n == logs@.len(),
            s@.len() == j,
            script_wf(s@),
            forall|i: int|
                0 <= i < s@.len() ==> spec_display_action(logs.deep_view()[i], #[trigger] s@[i]),
        decreases n - j,
    {
        let line = &logs[j];
        proof {
            assert(logs.deep_view()[j as int] == logs@[j as int]@);
        }
        if contains_str(line.as_str(), "error:") || contains_str(line.as_str(), "Error") {
            s.push(Action::Line { text: line.clone(), delay_ms: 0 });
        } else if contains_str(line.as_str(), "warning:") {
            s.push(Action::Line { text: line.clone(), delay_ms: 0 });
        } else if contains_str(line.as_str(), "Compiling") {
            let speed = rng.pick(10);
            let duration = if speed < 3 {
                pick_in(rng, 100, 400)
            } else if speed < 7 {
                pick_in(rng, 400, 1000)
            } else {
                pick_in(rng, 1000, 2500)
            };
            s.push(
                Action::Progress {
                    message: line.clone(),
                    style: ProgressStyle::Block,
                    duration_ms: duration,
                },
            );
        } else if contains_str(line.as_str(), "Downloading") || contains_str(
            line.as_str(),
            "Downloaded",
        ) {
            s.push(Action::Line { text: line.clone(), delay_ms: pick_in(rng, 10, 40) });
        } else if contains_str(line.as_str(), "Finished") {
            s.push(Action::Line { text: line.clone(), delay_ms: 300 });
        } else {
            s.push(Action::Line { text: line.clone(), delay_ms: pick_in(rng, 20, 80) });
        }
        j = j + 1;
    }
    s
}

/// The shape of a failing build's script: the building banner, the
/// error corpus displayed line by line, and the failure banner.
pub open spec fn spec_failing_script(st: DenoStage, s: Seq<Action>) -> bool {
    &&& s.len() == st.spec_error().len() + 2
    &&& forall|i: int|
        1 <= i < 1 + st.spec_error().len() ==> spec_display_action(
            st.spec_error()[i - 1],
            #[trigger] s[i],
        )
    &&& s.last() matches Action::Line { text, delay_ms } && text@
        == "Build failed! The installation encountered errors."@
}

/// The shape of a succeeding build's script: the building banner, the
/// success corpus displayed line by line, and the completion banner.
pub open spec fn spec_passing_script(st: DenoStage, s: Seq<Action>) -> bool {
    &&& s.len() == st.spec_success().len() + 2
    &&& forall|i: int|
        1 <= i < 1 + st.spec_success().len() ==> spec_display_action(
            st.spec_success()[i - 1],
            #[trigger] s[i],
        )
    &&& s.last() matches Action::Line { text, delay_ms } && text@
        == "Build completed successfully!"@
}

/// Builds a runtime from source; the build fails three times in ten
/// and then asks whether to try again.
pub struct DenoStage {
    deno_logs: DenoLogs,
}

impl DenoStage {
    /// The success corpus.
    pub closed spec fn spec_success(&self) -> Seq<Seq<char>> {
        self.deno_logs.spec_success()
    }

    /// The error corpus.
    pub closed spec fn spec_error(&self) -> Seq<Seq<char>> {
        self.deno_logs.spec_error()
    }

    pub fn new() -> (r: DenoStage)
        ensures
            r.spec_success() == spec_clean_lines(DENO_SUCCESS_TEXT@),
            r.spec_error() == spec_clean_lines(DENO_ERROR_TEXT@),
    {
        DenoStage { deno_logs: DenoLogs::load() }
    }

    /// The stage's script together with whether this run fails.  A
    /// failing run replays the error corpus and ends on the failure
    /// banner — the front end then asks the user and plays
    /// `followup_script` with the answer; a succeeding run replays
    /// the success corpus and ends on the completion banner.
    pub fn script_parts<R: RandomSource>(&self, rng: &mut R) -> (r: (Vec<Action>, bool))
        ensures
            script_wf(r.0@),
            r.1 ==> spec_failing_script(*self, r.0@),
            !r.1 ==> spec_passing_script(*self, r.0@),
    {
        let fail = rng.chance(3, 10);
        let mut s: Vec<Action> = Vec::new();
        s.push(
            Action::Line { text: String::from_str("Building Deno from source..."), delay_ms: 100 },
        );
        if fail {
            let mut body = display_script(self.deno_logs.error_logs(), rng);
            let ghost bodyv = body@;
            s.append(&mut body);
            s.push(
                Action::Line {
                    text: String::from_str(
                        "Build failed! The installation encountered errors.",
                    ),
                    delay_ms: 0,
                },
            );
            proof {
                assert(forall|i: int|
                    1 <= i < 1 + bodyv.len() ==> s@[i] == #[trigger] bodyv[i - 1]);
                assert(script_wf(s@));
            }
        } else {
            let mut body = display_script(self.deno_logs.success_logs(), rng);
            let ghost bodyv = body@;
            s.append(&mut body);
            s.push(
                Action::Line {
                    text: String::from_str("Build completed successfully!"),
                    delay_ms: 500,
                },
            );
            proof {
                assert(forall|i: int|
                    1 <= i < 1 + bodyv.len() ==> s@[i] == #[trigger] bodyv[i - 1]);
                assert(script_wf(s@));
            }
        }
        (s, fail)
    }

    /// The question the front end asks after a failed build.
    pub fn retry_prompt() -> (r: String)
        ensures
            r@ == "Try again or abort? [1-2]: "@,
    {
        String::from_str("Try again or abort? [1-2]: ")
    }

    /// The prompt's key mapping: `'1'` answers retry, `'2'` answers
    /// abort, and any other key leaves the prompt open.
    pub fn retry_choice(key: char) -> (r: Option<bool>)
        ensures
            key == '1' ==> r == Some(true),
            key == '2' ==> r == Some(false),
            key != '1' && key != '2' ==> r is None,
    {
        if key == '1' {
            Some(true)
        } else if key == '2' {
            Some(false)
        } else {
            None
        }
    }

    /// What happens after the user's retry decision: on retry the
    /// success corpus plays and the build completes; on abort a
    /// single skip line is shown.
    pub fn followup_script<R: RandomSource>(&self, retry: bool, rng: &mut R) -> (s: Vec<Action>)
        ensures
            script_wf(s@),
            s@.len() >= 1,
            !retry ==> s@.len() == 1 && (s@[0] matches Action::Line { text, delay_ms }
                && text@ == "Skipping Deno installation..."@ && delay_ms == 500),
            retry ==> s@.len() == self.spec_success().len() + 3,
            retry ==> (s@[0] matches Action::Line { text, delay_ms } && text@
                == "Retrying compilation..."@ && delay_ms == 1000),
            retry ==> (s@[1] matches Action::Line { text, delay_ms } && text@
                == "Rebuilding Deno from source..."@ && delay_ms == 100),
            retry ==> (s@.last() matches Action::Line { text, delay_ms } && text@
                == "Build completed successfully!"@ && delay_ms == 500),
            retry ==> forall|i: int|
                2 <= i < 2 + self.spec_success().len() ==> spec_display_action(
                    self.spec_success()[i - 2],
                    #[trigger] s@[i],
                ),
    {
        let mut s: Vec<Action> = Vec::new();
        if retry {
            s.push(
                Action::Line { text: String::from_str("Retrying compilation..."), delay_ms: 1000 },
            );
            s.push(
                Action::Line {
                    text: String::from_str("Rebuilding Deno from source..."),
                    delay_ms: 100,
                },
            );
            let mut body = display_script(self.deno_logs.success_logs(), rng);
            let ghost bodyv = body@;
            s.append(&mut body);
            s.push(
                Action::Line {
                    text: String::from_str("Build completed successfully!"),
                    delay_ms: 500,
                },
            );
            proof {
                assert(forall|i: int|
                    2 <= i < 2 + bodyv.len() ==> s@[i] == #[trigger] bodyv[i - 2]);
                assert(script_wf(s@));
            }
        } else {
            s.push(
                Action::Line { text: String::from_str("Skipping Deno installation..."), delay_ms: 500 },
            );
            proof {
                assert(script_wf(s@));
            }
        }
        s
    }
}

impl InstallationStage for DenoStage {
    open spec fn spec_name(&self) -> Seq<char> {
        "Deno Runtime Compilation"@
    }

    fn name(&self) -> (r: &'static str) {
        "Deno Runtime Compilation"
    }

    fn build_script<R: RandomSource>(&self, rng: &mut R) -> (s: Vec<Action>) {
        let parts = self.script_parts(rng);
        parts.0
    }
}

impl Default for DenoStage {
    fn default() -> (r: DenoStage)
        ensures
            r.spec_success() == spec_clean_lines(DENO_SUCCESS_TEXT@),
            r.spec_error() == spec_clean_lines(DENO_ERROR_TEXT@),
    {
        DenoStage::new()
    }
}

} // verus!
