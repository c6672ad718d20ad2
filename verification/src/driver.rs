//! Driver Handle & Entry Lifecycle: a non-owning handle over the
//! host-allocated driver object, the one-shot load-time control flow the
//! host triggers, and the bounded-delay interval conversion. The host's
//! fields and buffers are modeled as plain values; the host's own call
//! surface (issuing the delay, printing the diagnostic lines) stays outside
//! the library, which computes every decision and every emitted text.

use vstd::prelude::*;

use crate::status::{spec_nt_success, spec_result_status, result_status, NtResult, STATUS_SUCCESS};
use crate::wide::{lossy_text, RawUnicodeString, UnicodeStr, as_unicode_str, ptr_as_unicode_str};

verus! {

/// A non-owning handle to the host-allocated driver object, exposing read
/// access to the host-populated fields the driver consumes: its own
/// identity string. The handle lives only for the one entry invocation and
/// is never retained past it.
pub struct Driver {
    /// The host-populated driver identity string.
    pub driver_name: RawUnicodeString,
}

impl Driver {
    /// The host's fields are well formed: the identity string's buffer
    /// covers its counted length.
    pub open spec fn wf(self) -> bool {
        self.driver_name.wf()
    }

    /// The identity text the entry emits for this driver.
    pub open spec fn name_text(self) -> Seq<char> {
        lossy_text(self.driver_name.units())
    }

    /// Reads the driver's identity string through the wide-string view.
    pub fn name(&self) -> (r: UnicodeStr)
        requires
            self.wf(),
        ensures
            r.units() == self.driver_name.units(),
    {
        as_unicode_str(&self.driver_name)
    }
}

/// The states of the load-time lifecycle: before the host calls the entry
/// point, while the entry body runs, and the terminal state the returned
/// status decides.
#[derive(Clone, Copy, Debug, PartialEq, Eq, Structural)]
pub enum LifecycleState {
    Uninitialized,
    Initializing,
    Ready,
    Failed,
}

/// The terminal lifecycle state for a returned status: a success status
/// ends the load in `Ready`, any other status in `Failed`.
pub fn lifecycle_outcome(status: i32) -> (s: LifecycleState)
    ensures
        spec_nt_success(status) ==> s == LifecycleState::Ready,
        !spec_nt_success(status) ==> s == LifecycleState::Failed,
{
    if crate::status::nt_success(status) {
        LifecycleState::Ready
    } else {
        LifecycleState::Failed
    }
}

/// The entry body: reads the driver's identity through the wide-string
/// view, emits the identity and the registry path to the diagnostic sink,
/// and reports success. The sink is fire-and-forget and never fails the
/// lifecycle, so the body is total: it returns `Ok(())` on every
/// well-formed input.
pub fn driver_entry(driver: &Driver, registry_path: &UnicodeStr, log: &mut Vec<String>) -> (r: NtResult)
    requires
        driver.wf(),
    ensures
        r == Ok::<(), i32>(()),
        final(log)@.len() == old(log)@.len() + 2,
        final(log)@[old(log)@.len() as int]@ == driver.name_text(),
        final(log)@[old(log)@.len() as int + 1]@ == lossy_text(registry_path.units()),
        forall|i: int| 0 <= i < old(log)@.len() ==> final(log)@[i] == old(log)@[i],
    {
    let name = driver.name();
    log.push(name.display_text());
    log.push(registry_path.display_text());
    Ok(())
}

/// The raw entry point's logic, from host-shaped values to the raw status
/// the host loader receives. Wraps the driver object in a handle, wraps the
/// possibly-null registry-path buffer in a wide-string view, runs the entry
/// body, and converts its result back: success becomes the host's success
/// sentinel, a failure code would be passed through unchanged.
pub fn raw_driver_entry(
    driver: &Driver,
    registry_path: Option<&RawUnicodeString>,
    log: &mut Vec<String>,
) -> (status: i32)
    requires
        driver.wf(),
        registry_path matches Some(p) ==> p.wf(),
    ensures
        status == STATUS_SUCCESS,
        spec_nt_success(status),
        final(log)@.len() == old(log)@.len() + 2,
        final(log)@[old(log)@.len() as int]@ == driver.name_text(),
        registry_path matches Some(p) ==> final(log)@[old(log)@.len() as int + 1]@ == lossy_text(
            p.units(),
        ),
        registry_path is None ==> final(log)@[old(log)@.len() as int + 1]@ == lossy_text(
            Seq::<u16>::empty(),
        ),
        forall|i: int| 0 <= i < old(log)@.len() ==> final(log)@[i] == old(log)@[i],
    {
    let path = ptr_as_unicode_str(registry_path);
    proof {
        if registry_path is None {
            assert(path.units() =~= Seq::<u16>::empty());
        }
    }
    let r = driver_entry(driver, &path, log);
    result_status(r)
}

/// Converts a caller-requested bounded-delay duration, given as whole
/// seconds and a sub-second nanosecond part, into the host's native
/// representation: a negative count of 100-nanosecond ticks, negative
/// denoting a relative interval.
pub fn delay_interval_ticks(secs: u64, nanos: u32) -> (t: i64)
    requires
        nanos < 1_000_000_000,
        (secs as int * 1_000_000_000 + nanos as int) / 100 <= i64::MAX as int,
    ensures
        t as int == -((secs as int * 1_000_000_000 + nanos as int) / 100),
        t <= 0,
{
    proof {
        assert(secs as int * 1_000_000_000 + nanos as int <= u128::MAX as int) by (nonlinear_arith)
            requires
                secs <= u64::MAX,
                nanos < 1_000_000_000,
            ;
    }
    let total: u128 = (secs as u128) * 1_000_000_000u128 + (nanos as u128);
    let ticks: u128 = total / 100;
    let t: i64 = ticks as i64;
    -t
}

} // verus!
