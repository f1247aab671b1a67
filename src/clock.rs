use vstd::prelude::*;

verus! {

#[verifier::external_type_specification]
#[verifier::external_body]
pub struct ExSystemTime(std::time::SystemTime);

#[verifier::external_type_specification]
#[verifier::external_body]
pub struct ExSystemTimeError(std::time::SystemTimeError);

/// Relies on `SystemTime::now`: reads the wall clock. Nothing is known of the value.
pub assume_specification[ std::time::SystemTime::now ]() -> std::time::SystemTime;

/// Relies on `SystemTime::duration_since`: the span from `earlier` to `self`,
/// or an error when `earlier` is later. Nothing is known of either outcome.
pub assume_specification[ std::time::SystemTime::duration_since ](
    t: &std::time::SystemTime,
    earlier: std::time::SystemTime,
) -> std::result::Result<core::time::Duration, std::time::SystemTimeError>;

/// Relies on `Duration::as_millis`: the whole milliseconds of the span.
pub assume_specification[ core::time::Duration::as_millis ](d: &core::time::Duration) -> u128;

/// Relies on `SystemTime::UNIX_EPOCH`: the start of Unix time.
#[verifier::external_body]
fn unix_epoch() -> std::time::SystemTime {
    std::time::SystemTime::UNIX_EPOCH
}

/// Milliseconds since the Unix epoch, or `None` when the clock reads earlier
/// than the epoch.
pub fn get_current_time() -> (r: Option<u128>) {
    match std::time::SystemTime::now().duration_since(unix_epoch()) {
        Ok(n) => Some(n.as_millis()),
        Err(_) => None,
    }
}

} // verus!
