//! Status-Result Adapter: the single point through which every fallible host
//! call outcome passes. A raw platform status code is an opaque signed 32-bit
//! integer; non-negative codes denote success, negative codes denote a
//! specific failure reason.

use vstd::prelude::*;

verus! {

/// The host's success sentinel status code.
pub const STATUS_SUCCESS: i32 = 0;

/// The host's generic failure sentinel (the unsigned bit pattern 0xC0000001
/// read as a signed 32-bit integer).
pub const STATUS_UNSUCCESSFUL: i32 = -1073741823;

/// The host's "is success" predicate over raw status codes: every
/// non-negative code is a success, every negative code a failure.
pub open spec fn spec_nt_success(status: i32) -> bool {
    status >= 0
}

/// Executable form of the host's "is success" predicate.
pub fn nt_success(status: i32) -> (r: bool)
    ensures
        r == spec_nt_success(status),
{
    status >= 0
}

/// The result type used by the driver. `Ok(())` means success,
/// `Err(status)` carries a raw failure code. `Err(STATUS_SUCCESS)` is a
/// contradiction and is never produced.
pub type NtResult = Result<(), i32>;

/// What the adapter yields for a given raw status code.
pub open spec fn spec_status_result(status: i32) -> NtResult {
    if spec_nt_success(status) {
        Ok(())
    } else {
        Err(status)
    }
}

/// Converts a raw status code into a result: `Ok(())` exactly when the code
/// satisfies the host's "is success" predicate, else `Err` carrying the code
/// unchanged. A success code is never wrapped inside the failure variant.
pub fn status_result(status: i32) -> (r: NtResult)
    ensures
        r == spec_status_result(status),
        r is Ok <==> spec_nt_success(status),
        r is Err ==> r->Err_0 == status && !spec_nt_success(r->Err_0),
{
    if nt_success(status) {
        Ok(())
    } else {
        Err(status)
    }
}

/// The raw status code reported back to the host for a given result.
pub open spec fn spec_result_status(r: NtResult) -> i32 {
    match r {
        Ok(()) => STATUS_SUCCESS,
        Err(e) => e,
    }
}

/// Converts a result back to the raw status code handed to the host:
/// success becomes the host's success sentinel, a failure code is passed
/// through unchanged.
pub fn result_status(r: NtResult) -> (status: i32)
    ensures
        status == spec_result_status(r),
        r is Ok ==> status == STATUS_SUCCESS,
        r is Err ==> status == r->Err_0,
{
    match r {
        Ok(()) => STATUS_SUCCESS,
        Err(e) => e,
    }
}

/// A failure code survives both boundary conversions unchanged, and a
/// success code is reported as the success sentinel: converting a raw code
/// to a result and back never remaps a failure to the success sentinel.
pub proof fn lemma_status_round_trip(status: i32)
    ensures
        spec_nt_success(status) ==> spec_result_status(spec_status_result(status)) == STATUS_SUCCESS,
        !spec_nt_success(status) ==> spec_result_status(spec_status_result(status)) == status,
        !spec_nt_success(status) ==> spec_result_status(spec_status_result(status)) != STATUS_SUCCESS,
{
}

} // verus!
