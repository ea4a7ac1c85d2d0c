//! The one place where the library looks at the filesystem: a probe for
//! whether a path currently exists, used to decide whether a server artifact
//! must be provisioned before an instance can launch.

use vstd::prelude::*;

verus! {

/// Relies on `std::path::Path::exists`: reports whether `path` names an
/// entry on the filesystem right now. The answer depends on the state of
/// the disk at the moment of the call, so nothing is promised of it;
/// callers decide what to do with either outcome.
#[verifier::external_body]
pub(crate) fn path_exists(path: &str) -> bool {
    std::path::Path::new(path).exists()
}

} // verus!
