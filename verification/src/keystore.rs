//! The `keystore` interface's `error-code`.

use vstd::prelude::*;

verus! {

/// What a `keystore` method reports to the guest when it does not succeed.
///
/// `Access` covers every denial (no such handle, a revoked or narrowed badge, a missing
/// key) without saying which; `Invalid` covers malformed arguments and failures that are
/// not about authority.
#[derive(Clone, Copy, Debug, PartialEq, Eq, Structural)]
pub enum ErrorCode {
    Access,
    Invalid,
}

} // verus!
