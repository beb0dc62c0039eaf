use vstd::prelude::*;
use crate::types::{ConversionError, IsNull, Type};
use crate::wire::{be_bytes_8, be_signed_8, buffer_bytes, read_time, write_time};

verus! {

/// The number of microseconds in a civil day.
pub const MICROS_PER_DAY: i64 = 86_400_000_000;

/// The number of nanoseconds in a civil day.
pub const NANOS_PER_DAY: i64 = 86_400_000_000_000;

/// A time of day, from midnight up to but not including the next midnight.
#[derive(Clone, Copy, Debug, PartialEq, Eq, Structural)]
pub struct Time {
    pub hour: i8,
    pub minute: i8,
    pub second: i8,
    pub subsec_nanosecond: i32,
}

/// The time of day that lies `t` microseconds after midnight.
pub open spec fn time_at_micros(t: int) -> Time {
    Time {
        hour: (t / 3_600_000_000) as i8,
        minute: (t / 60_000_000 % 60) as i8,
        second: (t / 1_000_000 % 60) as i8,
        subsec_nanosecond: (t % 1_000_000 * 1000) as i32,
    }
}

impl Time {
    pub open spec fn wf(&self) -> bool {
        &&& 0 <= self.hour <= 23
        &&& 0 <= self.minute <= 59
        &&& 0 <= self.second <= 59
        &&& 0 <= self.subsec_nanosecond <= 999_999_999
    }

    /// The number of nanoseconds from midnight to this time.
    pub open spec fn nanos_of_day(&self) -> int {
        ((self.hour * 60 + self.minute) * 60 + self.second) * 1_000_000_000
            + self.subsec_nanosecond
    }

    /// The number of whole microseconds from midnight to this time.
    pub open spec fn micros_of_day(&self) -> int {
        self.nanos_of_day() / 1000
    }

    /// The time with the given fields, if each is in its range.
    pub fn new(hour: i8, minute: i8, second: i8, subsec_nanosecond: i32) -> (r: Option<Time>)
        ensures
            r == (if (Time { hour, minute, second, subsec_nanosecond }).wf() {
                Some(Time { hour, minute, second, subsec_nanosecond })
            } else {
                None
            }),
    {
        if hour < 0 || hour > 23 || minute < 0 || minute > 59 || second < 0 || second > 59
            || subsec_nanosecond < 0 || subsec_nanosecond > 999_999_999 {
            None
        } else {
            Some(Time { hour, minute, second, subsec_nanosecond })
        }
    }

    /// The time `t` microseconds after midnight, or `RangeOverflow` where `t`
    /// is negative or reaches the next midnight.
    pub fn from_wire(t: i64) -> (r: Result<Time, ConversionError>)
        ensures
            0 <= t < MICROS_PER_DAY ==> r == Ok::<Time, ConversionError>(time_at_micros(t as int))
                && r.unwrap().wf(),
            !(0 <= t < MICROS_PER_DAY) ==> r == Err::<Time, ConversionError>(
                ConversionError::RangeOverflow,
            ),
    {
        if t < 0 || t >= MICROS_PER_DAY {
            Err(ConversionError::RangeOverflow)
        } else {
            Ok(Time::at_micros(t))
        }
    }

    /// The time `t` microseconds after midnight, for a `t` within the day.
    pub fn at_micros(t: i64) -> (r: Time)
        requires
            0 <= t < MICROS_PER_DAY,
        ensures
            r == time_at_micros(t as int),
            r.wf(),
    {
        let hour: i64 = t / 3_600_000_000;
        let minute: i64 = t / 60_000_000 % 60;
        let second: i64 = t / 1_000_000 % 60;
        let nanos: i64 = t % 1_000_000 * 1000;
        Time {
            hour: hour as i8,
            minute: minute as i8,
            second: second as i8,
            subsec_nanosecond: nanos as i32,
        }
    }

    /// The number of whole microseconds from midnight to this time: what lies
    /// below a microsecond is dropped.
    pub fn to_wire(&self) -> (r: Result<i64, ConversionError>)
        requires
            self.wf(),
        ensures
            r == Ok::<i64, ConversionError>(self.micros_of_day() as i64),
            0 <= self.micros_of_day() < MICROS_PER_DAY,
    {
        let seconds: i64 = (self.hour as i64 * 60 + self.minute as i64) * 60 + self.second as i64;
        let nanos: i64 = seconds * 1_000_000_000 + self.subsec_nanosecond as i64;
        Ok(nanos / 1000)
    }

    /// Whether a column of type `ty` carries times of day.
    pub fn accepts(ty: &Type) -> (r: bool)
        ensures
            r == (*ty == Type::Time),
    {
        match ty {
            Type::Time => true,
            _ => false,
        }
    }

    /// Decodes the eight bytes of a `TIME` value.
    pub fn from_sql(_ty: &Type, raw: &[u8]) -> (r: Result<Time, ConversionError>)
        ensures
            raw@.len() != 8 ==> r == Err::<Time, ConversionError>(
                ConversionError::InvalidRawValue,
            ),
            raw@.len() == 8 ==> {
                let t = be_signed_8(raw@);
                &&& 0 <= t < MICROS_PER_DAY ==> r == Ok::<Time, ConversionError>(time_at_micros(t))
                &&& !(0 <= t < MICROS_PER_DAY) ==> r == Err::<Time, ConversionError>(
                    ConversionError::RangeOverflow,
                )
            },
    {
        match read_time(raw) {
            None => Err(ConversionError::InvalidRawValue),
            Some(t) => Time::from_wire(t),
        }
    }

    /// Appends the eight bytes of this time's `TIME` value to `w`.
    pub fn to_sql(&self, _ty: &Type, w: &mut bytes::BytesMut) -> (r: Result<
        IsNull,
        ConversionError,
    >)
        requires
            self.wf(),
        ensures
            r == Ok::<IsNull, ConversionError>(IsNull::No),
            buffer_bytes(*final(w)) == buffer_bytes(*old(w)) + be_bytes_8(self.micros_of_day()),
    {
        match self.to_wire() {
            Ok(t) => {
                write_time(t, w);
                Ok(IsNull::No)
            },
            Err(e) => Err(e),
        }
    }
}

} // verus!
