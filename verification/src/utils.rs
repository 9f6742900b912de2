use vstd::prelude::*;

pub mod error;

verus! {

/// Creation time of a transaction: whole milliseconds since the Unix epoch.
pub type UnixTimestamp = i64;

/// Relies on std::time::SystemTime::now and its documented distance from
/// the Unix epoch: the reading, converted to whole milliseconds, with a
/// reading before the epoch falling back to zero. Nothing is assumed of
/// the value: the clock may say anything.
#[verifier::external_body]
fn system_clock_millis() -> u128 {
    std::time::SystemTime::now()
        .duration_since(std::time::SystemTime::UNIX_EPOCH)
        .unwrap_or_else(|_| std::time::Duration::from_millis(0))
        .as_millis()
}

/// The current time in whole milliseconds since the Unix epoch, saturated
/// into the timestamp range: never negative, whatever the clock says.
pub fn unix_epoch_time() -> (t: UnixTimestamp)
    ensures
        0 <= t,
{
    let millis = system_clock_millis();
    if millis > i64::MAX as u128 {
        i64::MAX
    } else {
        millis as i64
    }
}

} // verus!
