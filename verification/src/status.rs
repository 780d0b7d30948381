//! Status codes of the host kernel.

use vstd::prelude::*;

verus! {

/// A status of the host: a signed 32-bit value whose sign bit marks a failure.
pub type NtStatus = i32;

/// The designated success value.
pub const STATUS_SUCCESS: NtStatus = 0;

/// A request carried a missing or unacceptable argument (`0xC000000D`).
pub const STATUS_INVALID_PARAMETER: NtStatus = -1073741811;

/// A thread or process identifier names nothing (`0xC000000B`), the usual
/// answer of the host's thread lookup to an unknown identifier.
pub const STATUS_INVALID_CID: NtStatus = -1073741813;

/// Whether a status belongs to the success or informational classes.
pub open spec fn is_success(status: NtStatus) -> bool {
    status >= 0
}

/// Tells whether `status` reports success, as the host's own test does:
/// every non-negative status counts.
#[verifier::when_used_as_spec(is_success)]
pub fn nt_success(status: NtStatus) -> (ok: bool)
    ensures
        ok == is_success(status),
{
    status >= 0
}

} // verus!
