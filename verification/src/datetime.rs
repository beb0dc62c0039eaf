use vstd::prelude::*;
use crate::arith::{div_floor, div_trunc, trunc_div};
use crate::date::{add_days, days_between, epoch_date, Date, MAX_SPAN_DAYS};
use crate::time::{time_at_micros, Time, MICROS_PER_DAY, NANOS_PER_DAY};
use crate::types::{ConversionError, IsNull, Type};
use crate::wire::{be_bytes_8, be_signed_8, buffer_bytes, read_timestamp, write_timestamp};

verus! {

/// A date and a time of day, with no time zone.
#[derive(Clone, Copy, Debug, PartialEq, Eq, Structural)]
pub struct DateTime {
    pub date: Date,
    pub time: Time,
}

/// The epoch of `DATE` and `TIMESTAMP` values: midnight of January 1, 2000.
pub open spec fn epoch_date_time() -> DateTime {
    DateTime {
        date: epoch_date(),
        time: Time { hour: 0, minute: 0, second: 0, subsec_nanosecond: 0 },
    }
}

/// The number of microseconds from the epoch to the given time of day on the
/// day that lies `days` days after the epoch, rounded toward the epoch.
pub open spec fn micros_from_days(days: int, time: Time) -> int {
    trunc_div(days * (NANOS_PER_DAY as int) + time.nanos_of_day(), 1000)
}

/// The microsecond count of a time of day on the day `days` days after the
/// epoch, or `PrecisionOverflow` where 64 bits do not hold it.
pub fn wire_from_days(days: i32, time: &Time) -> (r: Result<i64, ConversionError>)
    requires
        time.wf(),
    ensures
        i64::MIN <= micros_from_days(days as int, *time) <= i64::MAX ==> r == Ok::<
            i64,
            ConversionError,
        >(micros_from_days(days as int, *time) as i64),
        !(i64::MIN <= micros_from_days(days as int, *time) <= i64::MAX) ==> r == Err::<
            i64,
            ConversionError,
        >(ConversionError::PrecisionOverflow),
{
    let seconds: i64 = (time.hour as i64 * 60 + time.minute as i64) * 60 + time.second as i64;
    let nanos: i64 = seconds * 1_000_000_000 + time.subsec_nanosecond as i64;
    let total: i128 = days as i128 * 86_400_000_000_000 + nanos as i128;
    let micros: i128 = div_trunc(total, 1000);
    if micros < i64::MIN as i128 || micros > i64::MAX as i128 {
        Err(ConversionError::PrecisionOverflow)
    } else {
        Ok(micros as i64)
    }
}

/// The whole days in a microsecond count, rounded down, and the time of day
/// that is left.
pub fn days_and_time(t: i64) -> (r: (i32, Time))
    ensures
        r.0 == t as int / (MICROS_PER_DAY as int),
        r.1 == time_at_micros(t as int % (MICROS_PER_DAY as int)),
        r.1.wf(),
{
    let (days, rest) = div_floor(t as i128, MICROS_PER_DAY as i128);
    (days as i32, Time::at_micros(rest as i64))
}

/// What decoding the microsecond count `t` gives: the date that lies
/// `t / MICROS_PER_DAY` days after the epoch, rounded down, with the time of
/// day that the remainder names; `RangeOverflow` where the calendar has no
/// such date.
pub open spec fn date_time_decoded(t: int, r: Result<DateTime, ConversionError>) -> bool {
    let days = t / (MICROS_PER_DAY as int);
    let time = time_at_micros(t % (MICROS_PER_DAY as int));
    &&& r is Ok ==> r.unwrap().date.is_at(days) && r.unwrap().time == time && r.unwrap().wf()
    &&& r is Ok ==> -MAX_SPAN_DAYS <= days <= MAX_SPAN_DAYS
    &&& forall|d: Date| #[trigger]
        d.is_at(days) ==> r == Ok::<DateTime, ConversionError>(DateTime { date: d, time })
    &&& r is Err ==> r == Err::<DateTime, ConversionError>(ConversionError::RangeOverflow)
}

impl DateTime {
    pub open spec fn wf(&self) -> bool {
        self.date.wf() && self.time.wf()
    }

    /// The number of nanoseconds from the epoch to this date-time.
    pub open spec fn nanos_since_epoch(&self) -> int {
        self.date.days_since(epoch_date()) * (NANOS_PER_DAY as int) + self.time.nanos_of_day()
    }

    /// The number of microseconds from the epoch to this date-time, rounded
    /// toward the epoch.
    pub open spec fn wire_micros(&self) -> int {
        micros_from_days(self.date.days_since(epoch_date()), self.time)
    }

    /// The date-time `t` microseconds after the epoch, or `RangeOverflow`
    /// where its date is outside the calendar.
    pub fn from_wire(t: i64) -> (r: Result<DateTime, ConversionError>)
        ensures
            date_time_decoded(t as int, r),
    {
        let (days, time) = days_and_time(t);
        let origin = base().date;
        match add_days(&origin, days) {
            None => Err(ConversionError::RangeOverflow),
            Some(date) => Ok(DateTime { date, time }),
        }
    }

    /// The number of microseconds from the epoch to this date-time, rounded
    /// toward the epoch, or `PrecisionOverflow` where 64 bits do not hold it.
    pub fn to_wire(&self) -> (r: Result<i64, ConversionError>)
        requires
            self.wf(),
        ensures
            i64::MIN <= self.wire_micros() <= i64::MAX ==> r == Ok::<i64, ConversionError>(
                self.wire_micros() as i64,
            ),
            !(i64::MIN <= self.wire_micros() <= i64::MAX) ==> r == Err::<i64, ConversionError>(
                ConversionError::PrecisionOverflow,
            ),
            *self == epoch_date_time() ==> r == Ok::<i64, ConversionError>(0),
    {
        let origin = base().date;
        let days: i32 = days_between(&self.date, &origin);
        wire_from_days(days, &self.time)
    }

    /// Whether a column of type `ty` carries date-times without a zone.
    pub fn accepts(ty: &Type) -> (r: bool)
        ensures
            r == (*ty == Type::Timestamp),
    {
        match ty {
            Type::Timestamp => true,
            _ => false,
        }
    }

    /// Decodes the eight bytes of a `TIMESTAMP` value.
    pub fn from_sql(_ty: &Type, raw: &[u8]) -> (r: Result<DateTime, ConversionError>)
        ensures
            raw@.len() != 8 ==> r == Err::<DateTime, ConversionError>(
                ConversionError::InvalidRawValue,
            ),
            raw@.len() == 8 ==> date_time_decoded(be_signed_8(raw@), r),
    {
        match read_timestamp(raw) {
            None => Err(ConversionError::InvalidRawValue),
            Some(t) => DateTime::from_wire(t),
        }
    }

    /// Appends the eight bytes of this date-time's `TIMESTAMP` value to `w`,
    /// or leaves `w` as it is where 64 bits do not hold the value.
    pub fn to_sql(&self, _ty: &Type, w: &mut bytes::BytesMut) -> (r: Result<
        IsNull,
        ConversionError,
    >)
        requires
            self.wf(),
        ensures
            i64::MIN <= self.wire_micros() <= i64::MAX ==> r == Ok::<IsNull, ConversionError>(
                IsNull::No,
            ) && buffer_bytes(*final(w)) == buffer_bytes(*old(w)) + be_bytes_8(self.wire_micros()),
            !(i64::MIN <= self.wire_micros() <= i64::MAX) ==> r == Err::<
                IsNull,
                ConversionError,
            >(ConversionError::PrecisionOverflow) && *final(w) == *old(w),
            *self == epoch_date_time() ==> self.wire_micros() == 0,
    {
        match self.to_wire() {
            Ok(t) => {
                write_timestamp(t, w);
                Ok(IsNull::No)
            },
            Err(e) => Err(e),
        }
    }
}

/// The epoch of `DATE` and `TIMESTAMP` values: midnight of January 1, 2000.
pub fn base() -> (r: DateTime)
    ensures
        r == epoch_date_time(),
        r.wf(),
{
    DateTime {
        date: Date { year: 2000, month: 1, day: 1 },
        time: Time { hour: 0, minute: 0, second: 0, subsec_nanosecond: 0 },
    }
}

} // verus!
