//! Error taxonomy of the handshake pipeline, and the policy that decides
//! which failures abort the whole procedure and which are worth retrying.

use vstd::prelude::*;

verus! {

/// The failure a single stage of the attempt pipeline can report, one kind
/// per stage: resolving the environment variable (missing or unparsable),
/// validating the raw handle, cloning it, setting its close-on-exec flag,
/// adapting it into a non-blocking stream, and negotiating the session.
#[derive(Clone, Copy, Debug, PartialEq, Eq, Structural)]
pub enum ErrorKind {
    EnvMissing,
    EnvInvalid,
    HandleInvalid,
    CloneFailed,
    FlagSetFailed,
    StreamSetupFailed,
    SessionBuildFailed,
}

/// Whether an error aborts the whole procedure or only the current attempt.
#[derive(Clone, Copy, Debug, PartialEq, Eq, Structural)]
pub enum Disposition {
    Fatal,
    Retryable,
}

/// Only a failure to set the close-on-exec flag is treated as structural
/// rather than transient: an environment unable to set that flag is broken,
/// not racy, so retrying cannot help.
pub open spec fn is_fatal(k: ErrorKind) -> bool {
    k is FlagSetFailed
}

/// Decides, once per error site, whether an error kind is fatal or retryable.
pub fn classify(k: ErrorKind) -> (d: Disposition)
    ensures
        d is Fatal <==> is_fatal(k),
{
    match k {
        ErrorKind::FlagSetFailed => Disposition::Fatal,
        _ => Disposition::Retryable,
    }
}

/// Fixed description of each failure kind, for the error surfaced to the
/// caller and for per-attempt warnings.
pub open spec fn kind_message_spec(k: ErrorKind) -> Seq<char> {
    match k {
        ErrorKind::EnvMissing => "handle environment variable not found"@,
        ErrorKind::EnvInvalid => "handle environment variable is not a valid handle number"@,
        ErrorKind::HandleInvalid => "raw handle is not open"@,
        ErrorKind::CloneFailed => "failed to clone the raw handle"@,
        ErrorKind::FlagSetFailed => "failed to set close-on-exec on the cloned handle"@,
        ErrorKind::StreamSetupFailed => "failed to adapt the cloned handle into a stream"@,
        ErrorKind::SessionBuildFailed => "failed to negotiate the session"@,
    }
}

/// Human-readable description of an error kind.
pub fn kind_message(k: ErrorKind) -> (m: &'static str)
    ensures
        m@ == kind_message_spec(k),
{
    match k {
        ErrorKind::EnvMissing => "handle environment variable not found",
        ErrorKind::EnvInvalid => "handle environment variable is not a valid handle number",
        ErrorKind::HandleInvalid => "raw handle is not open",
        ErrorKind::CloneFailed => "failed to clone the raw handle",
        ErrorKind::FlagSetFailed => "failed to set close-on-exec on the cloned handle",
        ErrorKind::StreamSetupFailed => "failed to adapt the cloned handle into a stream",
        ErrorKind::SessionBuildFailed => "failed to negotiate the session",
    }
}

/// Terminal failure of the whole procedure: either a fatal stage error
/// surfaced immediately, or an exhausted retry budget together with the last
/// retryable error that was recorded.
#[derive(Clone, Copy, Debug, PartialEq, Eq, Structural)]
pub enum ProcedureFailure {
    Fatal { kind: ErrorKind },
    RetriesExhausted { attempts: u32, last: Option<ErrorKind> },
}

} // verus!
