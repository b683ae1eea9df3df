//! A simulated operating-system installer: themed stages that print
//! plausible log lines, progress bars and spinners, all of it
//! interruptible through a polled cancellation probe.
//!
//! Nothing is installed.  The library holds the logic: rendering a
//! progress bar, building each stage's script of timed lines and
//! animations, and the pipeline that plays scripts while polling for
//! cancellation.  A thin front end performs the actual terminal
//! output and the real-time pacing.
use vstd::prelude::*;

pub mod build_logs;
pub mod cli;
pub mod deno_logs;
pub mod kernel_logs;
pub mod messages;
pub mod pipeline;
pub mod probe;
pub mod progress;
pub mod random;
pub mod script;
pub mod spinner;
pub mod stages;
pub mod text;

verus! {

/// The two failure kinds an installation run distinguishes: the user
/// asked to stop, or the underlying output stream broke.
#[derive(Clone, Copy, Debug, PartialEq, Eq, Structural)]
pub enum InstallError {
    Interrupted,
    Output,
}

impl InstallError {
    /// True exactly for the user-requested interruption.
    pub fn is_interrupted(&self) -> (r: bool)
        ensures
            r == (*self == InstallError::Interrupted),
    {
        match self {
            InstallError::Interrupted => true,
            InstallError::Output => false,
        }
    }
}

} // verus!
