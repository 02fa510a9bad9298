//! HTTP status codes as the gateway sees them: plain `u16` values.

use vstd::prelude::*;

verus! {

/// The reply code of every request that fully succeeded.
pub const STATUS_OK: u16 = 200;

/// The reply code for a missing or malformed inbound `Authorization` header.
pub const STATUS_UNAUTHORIZED: u16 = 401;

/// The reply code for a fault in the gateway's own configuration or resources.
pub const STATUS_INTERNAL_SERVER_ERROR: u16 = 500;

/// The reply code for an upstream that could not be reached or understood.
pub const STATUS_BAD_GATEWAY: u16 = 502;

/// A code that an HTTP reply can carry: three digits, 100 to 999.
pub open spec fn is_valid_status(code: u16) -> bool {
    100 <= code <= 999
}

/// A code in the success range, 200 to 299.
pub open spec fn is_success_status(code: u16) -> bool {
    200 <= code <= 299
}

/// The local code that stands for a rejecting upstream code: the upstream code
/// itself where it is a valid status, the generic server error otherwise.
pub open spec fn mirrored_status(upstream: u16) -> u16 {
    if is_valid_status(upstream) {
        upstream
    } else {
        STATUS_INTERNAL_SERVER_ERROR
    }
}

/// Tells whether `code` can be sent as an HTTP status.
pub fn valid_status(code: u16) -> (valid: bool)
    ensures
        valid == is_valid_status(code),
{
    100 <= code && code <= 999
}

/// Tells whether `code` lies in the success range.
pub fn success_status(code: u16) -> (success: bool)
    ensures
        success == is_success_status(code),
{
    200 <= code && code <= 299
}

/// Maps a rejecting upstream code to the code of the local reply.
pub fn mirror_status(upstream: u16) -> (local: u16)
    ensures
        local == mirrored_status(upstream),
        is_valid_status(local),
{
    if valid_status(upstream) {
        upstream
    } else {
        STATUS_INTERNAL_SERVER_ERROR
    }
}

/// Mirroring a code outside the success range never lands inside it.
pub proof fn lemma_mirrored_status_never_success(upstream: u16)
    requires
        !is_success_status(upstream),
    ensures
        !is_success_status(mirrored_status(upstream)),
        mirrored_status(upstream) != STATUS_OK,
{
}

} // verus!
