//! Why a start of the worker failed, and the message reported for it.

use vstd::prelude::*;
use crate::text::{decimal_i32, int_text};

verus! {

/// A failed start of the worker.
#[derive(Debug, PartialEq, Eq)]
pub enum StartupError {
    /// The host could not locate its resource directory; holds its reason.
    ResourceResolution(String),
    /// No executable at the expected place; holds the full path looked at.
    ExecutableNotFound(String),
    /// The operating system could not start the worker; holds its reason.
    Spawn(String),
    /// The worker reported on its error channel before its port.
    Stream(String),
    /// The worker ended before reporting its port; holds its exit code, if any.
    EarlyTermination(Option<i32>),
    /// No usable port: the output ended, or the port marker did not hold a port.
    NoPortReported,
}

/// The mathematical value of a [`StartupError`].
pub enum StartupFailure {
    ResourceResolution(Seq<char>),
    ExecutableNotFound(Seq<char>),
    Spawn(Seq<char>),
    Stream(Seq<char>),
    EarlyTermination(Option<i32>),
    NoPortReported,
}

impl View for StartupError {
    type V = StartupFailure;

    open spec fn view(&self) -> StartupFailure {
        match self {
            StartupError::ResourceResolution(s) => StartupFailure::ResourceResolution(s@),
            StartupError::ExecutableNotFound(s) => StartupFailure::ExecutableNotFound(s@),
            StartupError::Spawn(s) => StartupFailure::Spawn(s@),
            StartupError::Stream(s) => StartupFailure::Stream(s@),
            StartupError::EarlyTermination(c) => StartupFailure::EarlyTermination(*c),
            StartupError::NoPortReported => StartupFailure::NoPortReported,
        }
    }
}

/// How an exit code is shown: `Some(<decimal>)`, or `None` when there is none.
pub open spec fn exit_code_text(code: Option<i32>) -> Seq<char> {
    match code {
        Some(c) => "Some("@ + int_text(c as int) + ")"@,
        None => "None"@,
    }
}

/// The message reported for a failure.
pub open spec fn failure_message(f: StartupFailure) -> Seq<char> {
    match f {
        StartupFailure::ResourceResolution(e) => "Failed to resolve resource dir: "@ + e,
        StartupFailure::ExecutableNotFound(p) => "Backend binary not found at: "@ + p,
        StartupFailure::Spawn(e) => "Failed to spawn backend: "@ + e,
        StartupFailure::Stream(e) => "Backend stderr: "@ + e,
        StartupFailure::EarlyTermination(c) => "Backend exited early: "@ + exit_code_text(c),
        StartupFailure::NoPortReported => "Backend did not report a port"@,
    }
}

fn prefixed(prefix: &str, detail: &str) -> (r: String)
    ensures
        r@ == prefix@ + detail@,
{
    String::from_str(prefix).concat(detail)
}

/// The text `Some(<code>)` or `None` for an exit code.
pub fn exit_code_string(code: Option<i32>) -> (r: String)
    ensures
        r@ == exit_code_text(code),
{
    match code {
        Some(c) => {
            let digits = decimal_i32(c);
            String::from_str("Some(").concat(digits.as_str()).concat(")")
        },
        None => String::from_str("None"),
    }
}

impl StartupError {
    /// The message reported to the caller for this failure.
    pub fn message(&self) -> (r: String)
        ensures
            r@ == failure_message(self@),
    {
        match self {
            StartupError::ResourceResolution(e) => prefixed(
                "Failed to resolve resource dir: ",
                e.as_str(),
            ),
            StartupError::ExecutableNotFound(p) => prefixed(
                "Backend binary not found at: ",
                p.as_str(),
            ),
            StartupError::Spawn(e) => prefixed("Failed to spawn backend: ", e.as_str()),
            StartupError::Stream(e) => prefixed("Backend stderr: ", e.as_str()),
            StartupError::EarlyTermination(c) => {
                let code = exit_code_string(*c);
                prefixed("Backend exited early: ", code.as_str())
            },
            StartupError::NoPortReported => String::from_str("Backend did not report a port"),
        }
    }

    /// A copy of this failure.
    pub fn duplicate(&self) -> (r: StartupError)
        ensures
            r@ == self@,
    {
        match self {
            StartupError::ResourceResolution(e) => StartupError::ResourceResolution(e.clone()),
            StartupError::ExecutableNotFound(p) => StartupError::ExecutableNotFound(p.clone()),
            StartupError::Spawn(e) => StartupError::Spawn(e.clone()),
            StartupError::Stream(e) => StartupError::Stream(e.clone()),
            StartupError::EarlyTermination(c) => StartupError::EarlyTermination(*c),
            StartupError::NoPortReported => StartupError::NoPortReported,
        }
    }
}

} // verus!
