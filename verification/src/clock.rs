use vstd::prelude::*;

verus! {

/// Seconds since the Unix epoch by the system clock: `SystemTime::now`,
/// measured from `UNIX_EPOCH` and converted to whole seconds; `None` when the
/// clock reads a time before the epoch. Nothing is stated of the value: it is
/// whatever the clock says.
#[verifier::external_body]
pub(crate) fn unix_time_now() -> (r: Option<u64>) {
    std::time::SystemTime::now().duration_since(std::time::UNIX_EPOCH).ok().map(|d| d.as_secs())
}

} // verus!
