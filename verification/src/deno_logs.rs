//! The runtime-build log corpora: one for a build that succeeds, one
//! for a build that fails, selected by the stage that plays them.
use vstd::prelude::*;

use crate::text::{clean_lines, spec_clean_lines};

verus! {

/// The embedded text of a successful build.
pub const DENO_SUCCESS_TEXT: &'static str = "Downloading https://dl.example.invalid/release/v1.38.0/deno_src.tar.gz\nDownloaded 94.3 MB in 12.4s\n   Compiling libc v0.2.149\n   Compiling cfg-if v1.0.0\n   Compiling serde v1.0.190\n   Compiling tokio v1.33.0\n   Compiling v8 v0.79.2\n   Compiling deno_core v0.224.0\n   Compiling deno_runtime v0.129.0\n   Compiling deno v1.38.0\nwarning: unused variable `perf_hint` in ops/io.rs\n    Finished release [optimized] target(s) in 41m 12s\n";

/// The embedded text of a failing build.
pub const DENO_ERROR_TEXT: &'static str = "Downloading https://dl.example.invalid/release/v1.38.0/deno_src.tar.gz\nDownloaded 94.3 MB in 12.4s\n   Compiling libc v0.2.149\n   Compiling cfg-if v1.0.0\n   Compiling serde v1.0.190\n   Compiling v8 v0.79.2\nerror: failed to run custom build command for `v8 v0.79.2`\nerror[E0308]: mismatched types in runtime/ops/process.rs\nwarning: build terminated before deno_core was reached\nError: Cargo build failed with exit code 101\n";

/// The two corpora of a simulated runtime build: success lines and
/// error lines, loaded together, each an immutable ordered list of
/// non-empty lines.
pub struct DenoLogs {
    success_logs: Vec<String>,
    error_logs: Vec<String>,
}

impl DenoLogs {
    /// The success corpus, as line character-sequences.
    pub closed spec fn spec_success(&self) -> Seq<Seq<char>> {
        self.success_logs.deep_view()
    }

    /// The error corpus, as line character-sequences.
    pub closed spec fn spec_error(&self) -> Seq<Seq<char>> {
        self.error_logs.deep_view()
    }

    /// Load both embedded corpora: their non-blank lines, in order.
    pub fn load() -> (r: DenoLogs)
        ensures
            r.spec_success() == spec_clean_lines(DENO_SUCCESS_TEXT@),
            r.spec_error() == spec_clean_lines(DENO_ERROR_TEXT@),
    {
        DenoLogs {
            success_logs: clean_lines(DENO_SUCCESS_TEXT),
            error_logs: clean_lines(DENO_ERROR_TEXT),
        }
    }

    /// Load both corpora from arbitrary raw texts.
    pub fn from_texts(success: &str, error: &str) -> (r: DenoLogs)
        ensures
            r.spec_success() == spec_clean_lines(success@),
            r.spec_error() == spec_clean_lines(error@),
    {
        DenoLogs { success_logs: clean_lines(success), error_logs: clean_lines(error) }
    }

    /// The lines shown for a successful build, in order.
    pub fn success_logs(&self) -> (r: &Vec<String>)
        ensures
            r.deep_view() == self.spec_success(),
    {
        &self.success_logs
    }

    /// The lines shown for a failing build, in order.
    pub fn error_logs(&self) -> (r: &Vec<String>)
        ensures
            r.deep_view() == self.spec_error(),
    {
        &self.error_logs
    }
}

} // verus!
