//! Error taxonomy of the pipeline.

use vstd::prelude::*;

verus! {

/// Every failure the pipeline distinguishes.
///
/// `Network` is a transport failure, `RemoteRejected` an in-band error code
/// from the remote API (it carries that code), `Decode` a malformed or
/// unexpectedly shaped response, `Io` a filesystem failure,
/// `PreconditionFailed` a missing prior stage, and `NotADirectory` a path
/// collision with a non-directory entry.
#[derive(Clone, Copy, Debug, PartialEq, Eq, Structural)]
pub enum MsmdError {
    Network,
    RemoteRejected(i64),
    Decode,
    Io,
    PreconditionFailed,
    NotADirectory,
}

impl MsmdError {
    /// A short description for log lines; the shell prints it beside the
    /// entity's name.
    pub fn describe(&self) -> (r: String)
        ensures
            r@ == self.spec_describe(),
    {
        match self {
            MsmdError::Network => String::from_str("network error"),
            MsmdError::RemoteRejected(_) => String::from_str("remote rejected the request"),
            MsmdError::Decode => String::from_str("response did not decode"),
            MsmdError::Io => String::from_str("filesystem error"),
            MsmdError::PreconditionFailed => String::from_str("required prior stage missing"),
            MsmdError::NotADirectory => String::from_str("path exists and is not a directory"),
        }
    }

    /// What `describe` returns for each variant.
    pub open spec fn spec_describe(&self) -> Seq<char> {
        match self {
            MsmdError::Network => "network error"@,
            MsmdError::RemoteRejected(_) => "remote rejected the request"@,
            MsmdError::Decode => "response did not decode"@,
            MsmdError::Io => "filesystem error"@,
            MsmdError::PreconditionFailed => "required prior stage missing"@,
            MsmdError::NotADirectory => "path exists and is not a directory"@,
        }
    }
}

} // verus!
