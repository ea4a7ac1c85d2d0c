//! The daemon's error taxonomy: every recoverable or fatal failure kind the
//! orchestration core can report.

use vstd::prelude::*;

verus! {

/// One kind per failure class of the daemon.
///
/// - `FileError`: workspace, config or persistence I/O failed.
/// - `FatalError`: unrecoverable startup condition; the process must not continue.
/// - `ScreenError`: controlling an instance's process session failed.
/// - `DownloadError`: a network transfer failed.
/// - `UnavailablePort`: no free port in the candidate range, or a requested
///   port cannot be used.
/// - `InstanceAlreadyExists`: a registration named a `server_id` that is
///   already registered.
/// - `HTTPError` / `JSONError`: retrieving or parsing provisioning metadata
///   failed.
/// - `NoStableBuild`: the provisioning backend found no eligible build.
#[derive(Clone, Copy, Debug, PartialEq, Eq, Structural)]
pub enum CloudError {
    FileError,
    FatalError,
    ScreenError,
    DownloadError,
    UnavailablePort,
    InstanceAlreadyExists,
    HTTPError,
    JSONError,
    NoStableBuild,
}

/// Relates an executable `Result` carrying a `String` to its mathematical
/// counterpart carrying the string's character sequence.
pub open spec fn result_str_matches(r: Result<String, CloudError>, s: Result<
    Seq<char>,
    CloudError,
>) -> bool {
    match (r, s) {
        (Ok(a), Ok(b)) => a@ == b,
        (Err(a), Err(b)) => a == b,
        _ => false,
    }
}

} // verus!
