use vstd::prelude::*;
use crate::arith::{div_trunc, trunc_div};
use crate::types::{ConversionError, IsNull, Type};
use crate::wire::{be_bytes_8, be_signed_8, buffer_bytes, read_timestamp, write_timestamp};

verus! {

/// The number of seconds from 1970-01-01 00:00:00 UTC to 2000-01-01 00:00:00 UTC.
pub const Y2K_EPOCH: i64 = 946684800;

/// The earliest second that a timestamp can name: 01:59:59 UTC of January 2, -9999.
pub const MIN_SECOND: i64 = -377705023201;

/// The latest second that a timestamp can name: 22:00:00 UTC of December 30, 9999.
pub const MAX_SECOND: i64 = 253402207200;

/// An instant, counted from 1970-01-01 00:00:00 UTC in seconds and
/// nanoseconds of the same sign.
#[derive(Clone, Copy, Debug, PartialEq, Eq, Structural)]
pub struct Timestamp {
    pub second: i64,
    pub nanosecond: i32,
}

/// Whether a timestamp can lie `n` nanoseconds from 1970-01-01 00:00:00 UTC.
pub open spec fn nanos_in_range(n: int) -> bool {
    MIN_SECOND * 1_000_000_000 <= n <= MAX_SECOND * 1_000_000_000 + 999_999_999
}

/// The timestamp that lies `n` nanoseconds from 1970-01-01 00:00:00 UTC.
pub open spec fn timestamp_at_nanos(n: int) -> Timestamp {
    let second = trunc_div(n, 1_000_000_000);
    Timestamp { second: second as i64, nanosecond: (n - second * 1_000_000_000) as i32 }
}

/// The number of nanoseconds from 1970-01-01 00:00:00 UTC to the instant
/// that lies `t` microseconds after the epoch of `TIMESTAMPTZ` values.
pub open spec fn wire_to_nanos(t: int) -> int {
    t * 1000 + Y2K_EPOCH * 1_000_000_000
}

impl Timestamp {
    pub open spec fn wf(&self) -> bool {
        &&& MIN_SECOND <= self.second <= MAX_SECOND
        &&& -999_999_999 <= self.nanosecond <= 999_999_999
        &&& self.second > 0 ==> self.nanosecond >= 0
        &&& self.second < 0 ==> self.nanosecond <= 0
        &&& self.second == MIN_SECOND ==> self.nanosecond == 0
    }

    /// The number of nanoseconds from 1970-01-01 00:00:00 UTC to this instant.
    pub open spec fn total_nanos(&self) -> int {
        self.second * 1_000_000_000 + self.nanosecond
    }

    /// The number of microseconds from the epoch of `TIMESTAMPTZ` values to
    /// this instant, rounded toward that epoch.
    pub open spec fn wire_micros(&self) -> int {
        trunc_div(self.total_nanos() - Y2K_EPOCH * 1_000_000_000, 1000)
    }

    /// The instant `second` seconds and `nanosecond` nanoseconds from
    /// 1970-01-01 00:00:00 UTC, the two brought to one sign, if both are in
    /// range and the instant is not before the earliest one.
    pub fn new(second: i64, nanosecond: i32) -> (r: Option<Timestamp>)
        ensures
            r is Some <==> {
                &&& MIN_SECOND <= second <= MAX_SECOND
                &&& -999_999_999 <= nanosecond <= 999_999_999
                &&& MIN_SECOND * 1_000_000_000 <= second * 1_000_000_000 + nanosecond
            },
            r is Some ==> r.unwrap() == timestamp_at_nanos(second * 1_000_000_000 + nanosecond)
                && r.unwrap().wf(),
    {
        if second < MIN_SECOND || second > MAX_SECOND || nanosecond < -999_999_999 || nanosecond
            > 999_999_999 {
            return None;
        }
        let total: i128 = second as i128 * 1_000_000_000 + nanosecond as i128;
        if total < MIN_SECOND as i128 * 1_000_000_000 {
            return None;
        }
        Some(Timestamp::at_nanos(total))
    }

    /// The timestamp that lies `n` nanoseconds from 1970-01-01 00:00:00 UTC.
    fn at_nanos(n: i128) -> (r: Timestamp)
        requires
            nanos_in_range(n as int),
        ensures
            r == timestamp_at_nanos(n as int),
            r.wf(),
            r.total_nanos() == n,
    {
        let second: i128 = div_trunc(n, 1_000_000_000);
        let nanosecond: i128 = n - second * 1_000_000_000;
        Timestamp { second: second as i64, nanosecond: nanosecond as i32 }
    }

    /// The instant `t` microseconds after the epoch, or `RangeOverflow` where
    /// no timestamp can name it.
    pub fn from_wire(t: i64) -> (r: Result<Timestamp, ConversionError>)
        ensures
            nanos_in_range(wire_to_nanos(t as int)) ==> r == Ok::<Timestamp, ConversionError>(
                timestamp_at_nanos(wire_to_nanos(t as int)),
            ) && r.unwrap().wf(),
            !nanos_in_range(wire_to_nanos(t as int)) ==> r == Err::<Timestamp, ConversionError>(
                ConversionError::RangeOverflow,
            ),
    {
        let n: i128 = t as i128 * 1000 + base_ts().second as i128 * 1_000_000_000;
        if n < MIN_SECOND as i128 * 1_000_000_000 || n > MAX_SECOND as i128 * 1_000_000_000
            + 999_999_999 {
            Err(ConversionError::RangeOverflow)
        } else {
            Ok(Timestamp::at_nanos(n))
        }
    }

    /// The number of microseconds from the epoch to this instant, rounded
    /// toward the epoch.
    pub fn to_wire(&self) -> (r: Result<i64, ConversionError>)
        requires
            self.wf(),
        ensures
            r == Ok::<i64, ConversionError>(self.wire_micros() as i64),
            i64::MIN <= self.wire_micros() <= i64::MAX,
    {
        let origin = base_ts();
        let span: i128 = (self.second as i128 - origin.second as i128) * 1_000_000_000 + (
        self.nanosecond as i128 - origin.nanosecond as i128);
        let micros: i128 = div_trunc(span, 1000);
        Ok(micros as i64)
    }

    /// Whether a column of type `ty` carries instants.
    pub fn accepts(ty: &Type) -> (r: bool)
        ensures
            r == (*ty == Type::Timestamptz),
    {
        match ty {
            Type::Timestamptz => true,
            _ => false,
        }
    }

    /// Decodes the eight bytes of a `TIMESTAMPTZ` value.
    pub fn from_sql(_ty: &Type, raw: &[u8]) -> (r: Result<Timestamp, ConversionError>)
        ensures
            raw@.len() != 8 ==> r == Err::<Timestamp, ConversionError>(
                ConversionError::InvalidRawValue,
            ),
            raw@.len() == 8 ==> {
                let n = wire_to_nanos(be_signed_8(raw@));
                &&& nanos_in_range(n) ==> r == Ok::<Timestamp, ConversionError>(
                    timestamp_at_nanos(n),
                )
                &&& !nanos_in_range(n) ==> r == Err::<Timestamp, ConversionError>(
                    ConversionError::RangeOverflow,
                )
            },
    {
        match read_timestamp(raw) {
            None => Err(ConversionError::InvalidRawValue),
            Some(t) => Timestamp::from_wire(t),
        }
    }

    /// Appends the eight bytes of this instant's `TIMESTAMPTZ` value to `w`.
    pub fn to_sql(&self, _ty: &Type, w: &mut bytes::BytesMut) -> (r: Result<
        IsNull,
        ConversionError,
    >)
        requires
            self.wf(),
        ensures
            r == Ok::<IsNull, ConversionError>(IsNull::No),
            buffer_bytes(*final(w)) == buffer_bytes(*old(w)) + be_bytes_8(self.wire_micros()),
    {
        match self.to_wire() {
            Ok(t) => {
                write_timestamp(t, w);
                Ok(IsNull::No)
            },
            Err(e) => Err(e),
        }
    }
}

/// The epoch of `TIMESTAMPTZ` values: 2000-01-01 00:00:00 UTC.
pub fn base_ts() -> (r: Timestamp)
    ensures
        r == (Timestamp { second: Y2K_EPOCH, nanosecond: 0 }),
        r.second == 946684800,
        r.wf(),
{
    Timestamp { second: Y2K_EPOCH, nanosecond: 0 }
}

} // verus!
