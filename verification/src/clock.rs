//! The system clock.

use std::time::{Duration, SystemTime, SystemTimeError};
use vstd::prelude::*;

verus! {

/// A reading of the system clock, carried from the clock to the conversion
/// below and never looked into.
#[verifier::external_type_specification]
#[verifier::external_body]
pub struct ExSystemTime(SystemTime);

/// The error of a clock reading that lies before the epoch.
#[verifier::external_type_specification]
#[verifier::external_body]
pub struct ExSystemTimeError(SystemTimeError);

/// `SystemTime::now` reads the system clock. Nothing is claimed of the reading:
/// it depends on the machine and the time.
pub assume_specification[ SystemTime::now ]() -> SystemTime;

/// `Duration::as_micros` gives the whole microseconds of a duration. The
/// duration is not looked into here, so which number that is is left unsaid.
pub assume_specification[ Duration::as_micros ](duration: &Duration) -> u128;

/// `SystemTime::duration_since` with the Unix epoch as the earlier time. It
/// fails if the reading lies before the epoch. Nothing is claimed of the
/// duration: it depends on the reading.
#[verifier::external_body]
fn duration_since_epoch(reading: SystemTime) -> Result<Duration, SystemTimeError> {
    reading.duration_since(std::time::UNIX_EPOCH)
}

/// The lower 64 bits of a count of microseconds, read as a signed number.
pub open spec fn timestamp_of(micros: u128) -> int {
    let low = micros as int % 0x1_0000_0000_0000_0000;
    if low < 0x8000_0000_0000_0000 {
        low
    } else {
        low - 0x1_0000_0000_0000_0000
    }
}

/// Timestamp of a count of microseconds since the epoch. A count that fits a
/// timestamp is kept; of a larger one only the lower 64 bits remain.
pub fn timestamp_from_micros(micros: u128) -> (r: i64)
    ensures
        r == timestamp_of(micros),
        micros <= i64::MAX ==> r == micros,
{
    assert(micros % 0x1_0000_0000_0000_0000 < 0x8000_0000_0000_0000 ==> micros as i64 == micros
        % 0x1_0000_0000_0000_0000) by (bit_vector);
    assert(micros % 0x1_0000_0000_0000_0000 >= 0x8000_0000_0000_0000 ==> micros as i64 == micros
        % 0x1_0000_0000_0000_0000 - 0x1_0000_0000_0000_0000) by (bit_vector);
    #[verifier::truncate]
    (micros as i64)
}

/// Whether a reading of the system clock gave `r`. `SystemTime::now` gave some
/// reading. If the duration from the epoch to that reading could be had, `r` is
/// the timestamp of its microseconds; if not, which is so for a reading before
/// the epoch, `r` is `None`.
pub closed spec fn clock_gives(r: Option<i64>) -> bool {
    exists|reading: SystemTime, elapsed: Result<Duration, SystemTimeError>|
        {
            &&& #[trigger] call_ensures(SystemTime::now, (), reading)
            &&& #[trigger] call_ensures(duration_since_epoch, (reading,), elapsed)
            &&& match elapsed {
                Ok(duration) => exists|micros: u128|
                    {
                        &&& #[trigger] call_ensures(Duration::as_micros, (&duration,), micros)
                        &&& r == Some(timestamp_of(micros) as i64)
                    },
                Err(_) => r is None,
            }
        }
}

/// A timestamp is had exactly if the duration since the epoch can be had. It is
/// the count of microseconds of that duration as long as the count fits, and
/// agrees with it in the lower 64 bits in any case.
proof fn law_timestamp_comes_from_the_clock(r: Option<i64>)
    requires
        clock_gives(r),
    ensures
        exists|reading: SystemTime, elapsed: Result<Duration, SystemTimeError>|
            {
                &&& #[trigger] call_ensures(SystemTime::now, (), reading)
                &&& #[trigger] call_ensures(duration_since_epoch, (reading,), elapsed)
                &&& r is Some <==> elapsed is Ok
                &&& elapsed matches Ok(duration) ==> exists|micros: u128|
                    {
                        &&& #[trigger] call_ensures(Duration::as_micros, (&duration,), micros)
                        &&& micros < 0x8000_0000_0000_0000 ==> r->0 == micros
                        &&& (micros - r->0) % 0x1_0000_0000_0000_0000 == 0
                    }
            },
{
}

/// Microseconds since the Unix epoch; `None` while the system clock stands
/// before the epoch.
pub fn current_timestamp_micros() -> (r: Option<i64>)
    ensures
        clock_gives(r),
{
    let reading = SystemTime::now();
    let elapsed = duration_since_epoch(reading);
    match elapsed {
        Ok(duration) => Some(timestamp_from_micros(duration.as_micros())),
        Err(_) => None,
    }
}

} // verus!
