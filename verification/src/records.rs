//! Reading stored rows and request fields into the work-day model.

use vstd::prelude::*;
use crate::duration::{Duration, NANOS_PER_SEC, in_range};
use crate::error::Error;
use crate::event::Event;
use crate::local_time::LocalTime;

verus! {

/// Why a span sent by a client is refused.
#[derive(Debug, Clone, Copy, PartialEq, Eq, Structural)]
pub enum SpanError {
    /// The nanoseconds are not in 0..1_000_000_000.
    InvalidNanos,
    /// The span is zero or negative.
    NotPositive,
}

/// A span sent as whole seconds and nanoseconds, which must be positive.
///
/// # Errors
///
/// `InvalidNanos` when `nanos` is outside `0..1_000_000_000`, else `NotPositive`
/// when the span is not longer than zero.
pub fn duration_from_proto(seconds: i64, nanos: i32) -> (r: Result<Duration, SpanError>)
    requires
        0 <= nanos < 1_000_000_000 ==> in_range(seconds * NANOS_PER_SEC) && in_range(seconds * NANOS_PER_SEC + nanos),
    ensures
        !(0 <= nanos < 1_000_000_000) ==> r == Err::<Duration, SpanError>(SpanError::InvalidNanos),
        0 <= nanos < 1_000_000_000 && seconds * NANOS_PER_SEC + nanos <= 0 ==> r == Err::<Duration, SpanError>(SpanError::NotPositive),
        r is Ok <==> 0 <= nanos < 1_000_000_000 && seconds * NANOS_PER_SEC + nanos > 0,
        r matches Ok(d) ==> d@ == seconds * NANOS_PER_SEC + nanos,
{
    if nanos < 0 || nanos >= 1_000_000_000 {
        return Err(SpanError::InvalidNanos);
    }
    let duration = Duration::seconds(seconds).plus(Duration::nanoseconds(nanos as i64));
    if !duration.is_positive() {
        return Err(SpanError::NotPositive);
    }
    Ok(duration)
}

/// The event of a stored row: kind 0 is a check-in, any other a check-out, at the
/// row's time of day.
///
/// # Errors
///
/// `InvalidTime` with the fields read as unsigned numbers when they name no time of day.
pub fn event_from_row(event_kind: i16, hour: i16, minute: i16, second: i16) -> (r: Result<Event, Error>)
    ensures
        ({
            let t = LocalTime { hour: hour as u32, minute: minute as u32, second: second as u32 };
            if t.is_valid() {
                r == Ok::<Event, Error>(if event_kind == 0 { Event::CheckIn(t) } else { Event::CheckOut(t) })
            } else {
                r == Err::<Event, Error>(Error::InvalidTime(hour as u32, minute as u32, second as u32))
            }
        }),
{
    let lt = match LocalTime::new(hour as u32, minute as u32, second as u32) {
        Ok(lt) => lt,
        Err(e) => return Err(e),
    };
    let event = if event_kind == 0 { Event::CheckIn(lt) } else { Event::CheckOut(lt) };
    Ok(event)
}

} // verus!
