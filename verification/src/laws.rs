//! What holds of encoding and decoding together.

use vstd::prelude::*;
use crate::date::{date_decoded, epoch_date, Date, MAX_SPAN_DAYS};
use crate::datetime::{date_time_decoded, DateTime};
use crate::time::{time_at_micros, Time, MICROS_PER_DAY, NANOS_PER_DAY};
use crate::timestamp::{nanos_in_range, timestamp_at_nanos, wire_to_nanos, Timestamp, Y2K_EPOCH};
use crate::types::ConversionError;
use crate::wire::{be_4_round_trip, be_8_round_trip, be_bytes_4, be_bytes_8, be_signed_4, be_signed_8};

verus! {

/// Decoding the day count of a valid date gives that date back.
pub proof fn date_round_trip(v: Date, r: Result<Date, ConversionError>)
    requires
        v.wf(),
        date_decoded(v.days_since(epoch_date()), r),
    ensures
        r == Ok::<Date, ConversionError>(v),
{
    assert(v.is_at(v.days_since(epoch_date())));
}

/// The microsecond count of a valid time of day is that of a time of day,
/// and decoding it gives the time back where the time holds nothing below a
/// microsecond.
pub proof fn time_round_trip(v: Time)
    requires
        v.wf(),
        v.subsec_nanosecond % 1000 == 0,
    ensures
        0 <= v.micros_of_day() < MICROS_PER_DAY,
        time_at_micros(v.micros_of_day()) == v,
{
}

/// Decoding the microsecond count of a valid date-time that holds nothing
/// below a microsecond gives that date-time back.
pub proof fn date_time_round_trip(v: DateTime, r: Result<DateTime, ConversionError>)
    requires
        v.wf(),
        v.time.subsec_nanosecond % 1000 == 0,
        date_time_decoded(v.wire_micros(), r),
    ensures
        r == Ok::<DateTime, ConversionError>(v),
{
    let days = v.date.days_since(epoch_date());
    let micros = v.time.micros_of_day();
    time_round_trip(v.time);
    assert(v.time.nanos_of_day() == micros * 1000);
    assert(v.nanos_since_epoch() == (days * (MICROS_PER_DAY as int) + micros) * 1000)
        by (nonlinear_arith)
        requires
            v.nanos_since_epoch() == days * (NANOS_PER_DAY as int) + v.time.nanos_of_day(),
            v.time.nanos_of_day() == micros * 1000,
            NANOS_PER_DAY == MICROS_PER_DAY * 1000,
    ;
    let w = days * (MICROS_PER_DAY as int) + micros;
    assert(v.wire_micros() == w);
    vstd::arithmetic::div_mod::lemma_fundamental_div_mod_converse(
        w,
        MICROS_PER_DAY as int,
        days,
        micros,
    );
    assert(v.date.is_at(days));
}

/// Decoding the microsecond count of a valid instant that holds nothing
/// below a microsecond gives that instant back.
pub proof fn timestamp_round_trip(v: Timestamp)
    requires
        v.wf(),
        v.nanosecond % 1000 == 0,
    ensures
        nanos_in_range(wire_to_nanos(v.wire_micros())),
        timestamp_at_nanos(wire_to_nanos(v.wire_micros())) == v,
{
}

/// The four bytes of a valid date's day count decode to that date.
pub proof fn date_bytes_round_trip(v: Date, r: Result<Date, ConversionError>)
    requires
        v.wf(),
        i32::MIN <= v.days_since(epoch_date()) <= i32::MAX,
        date_decoded(be_signed_4(be_bytes_4(v.days_since(epoch_date()))), r),
    ensures
        r == Ok::<Date, ConversionError>(v),
{
    be_4_round_trip(v.days_since(epoch_date()));
    date_round_trip(v, r);
}

/// The eight bytes of the microsecond count of a valid time of day that
/// holds nothing below a microsecond spell a count that decodes to that time.
pub proof fn time_bytes_round_trip(v: Time)
    requires
        v.wf(),
        v.subsec_nanosecond % 1000 == 0,
    ensures
        0 <= be_signed_8(be_bytes_8(v.micros_of_day())) < MICROS_PER_DAY,
        time_at_micros(be_signed_8(be_bytes_8(v.micros_of_day()))) == v,
{
    time_round_trip(v);
    be_8_round_trip(v.micros_of_day());
}

/// The eight bytes of the microsecond count of a valid date-time that holds
/// nothing below a microsecond decode to that date-time, where 64 bits hold
/// the count.
pub proof fn date_time_bytes_round_trip(v: DateTime, r: Result<DateTime, ConversionError>)
    requires
        v.wf(),
        v.time.subsec_nanosecond % 1000 == 0,
        i64::MIN <= v.wire_micros() <= i64::MAX,
        date_time_decoded(be_signed_8(be_bytes_8(v.wire_micros())), r),
    ensures
        r == Ok::<DateTime, ConversionError>(v),
{
    be_8_round_trip(v.wire_micros());
    date_time_round_trip(v, r);
}

/// The eight bytes of the microsecond count of a valid instant that holds
/// nothing below a microsecond spell a count that decodes to that instant.
pub proof fn timestamp_bytes_round_trip(v: Timestamp)
    requires
        v.wf(),
        v.nanosecond % 1000 == 0,
    ensures
        timestamp_at_nanos(wire_to_nanos(be_signed_8(be_bytes_8(v.wire_micros())))) == v,
        nanos_in_range(wire_to_nanos(be_signed_8(be_bytes_8(v.wire_micros())))),
{
    timestamp_round_trip(v);
    be_8_round_trip(v.wire_micros());
}

/// The microsecond count of a date-time is its distance from the epoch with
/// what lies below a microsecond dropped: it is never further from zero than
/// the date-time is from the epoch, and less than a microsecond nearer.
pub proof fn date_time_truncates_toward_epoch(v: DateTime)
    requires
        v.wf(),
    ensures
        v.nanos_since_epoch() >= 0 ==> v.wire_micros() * 1000 <= v.nanos_since_epoch()
            < v.wire_micros() * 1000 + 1000,
        v.nanos_since_epoch() <= 0 ==> v.wire_micros() * 1000 - 1000 < v.nanos_since_epoch()
            <= v.wire_micros() * 1000,
{
}

/// The microsecond count of an instant is its distance from the epoch with
/// what lies below a microsecond dropped.
pub proof fn timestamp_truncates_toward_epoch(v: Timestamp)
    requires
        v.wf(),
    ensures
        ({
            let n = v.total_nanos() - Y2K_EPOCH * 1_000_000_000;
            &&& n >= 0 ==> v.wire_micros() * 1000 <= n < v.wire_micros() * 1000 + 1000
            &&& n <= 0 ==> v.wire_micros() * 1000 - 1000 < n <= v.wire_micros() * 1000
        }),
{
}

/// Two times of day that differ only below the microsecond have one
/// microsecond count.
pub proof fn time_truncation(a: Time, b: Time)
    requires
        a.wf(),
        b.wf(),
        a.hour == b.hour,
        a.minute == b.minute,
        a.second == b.second,
        a.subsec_nanosecond / 1000 == b.subsec_nanosecond / 1000,
    ensures
        a.micros_of_day() == b.micros_of_day(),
{
}

/// Two date-times on or after the epoch that differ only below the
/// microsecond have one microsecond count.
pub proof fn date_time_truncation(a: DateTime, b: DateTime)
    requires
        a.wf(),
        b.wf(),
        a.date == b.date,
        a.date.days_since(epoch_date()) >= 0,
        a.time.hour == b.time.hour,
        a.time.minute == b.time.minute,
        a.time.second == b.time.second,
        a.time.subsec_nanosecond / 1000 == b.time.subsec_nanosecond / 1000,
    ensures
        a.wire_micros() == b.wire_micros(),
{
    time_truncation(a.time, b.time);
    let days = a.date.days_since(epoch_date());
    assert(days * (NANOS_PER_DAY as int) == (days * (MICROS_PER_DAY as int)) * 1000)
        by (nonlinear_arith)
        requires
            NANOS_PER_DAY == MICROS_PER_DAY * 1000,
    ;
    assert(days * (MICROS_PER_DAY as int) >= 0) by (nonlinear_arith)
        requires
            days >= 0,
            MICROS_PER_DAY > 0,
    ;
}

/// A day count beyond the longest span of days is rejected, and with it the
/// largest and the smallest 32-bit count.
pub proof fn date_beyond_span_rejected(n: int, r: Result<Date, ConversionError>)
    requires
        date_decoded(n, r),
        n < -MAX_SPAN_DAYS || n > MAX_SPAN_DAYS,
    ensures
        r == Err::<Date, ConversionError>(ConversionError::RangeOverflow),
        -MAX_SPAN_DAYS > i32::MIN,
        MAX_SPAN_DAYS < i32::MAX,
{
}

/// A microsecond count whose days are beyond the longest span of days is
/// rejected, and with it the largest and the smallest 64-bit count.
pub proof fn date_time_beyond_span_rejected(t: int, r: Result<DateTime, ConversionError>)
    requires
        date_time_decoded(t, r),
        t < -MAX_SPAN_DAYS * MICROS_PER_DAY || t >= (MAX_SPAN_DAYS + 1) * MICROS_PER_DAY,
    ensures
        r == Err::<DateTime, ConversionError>(ConversionError::RangeOverflow),
        -MAX_SPAN_DAYS * MICROS_PER_DAY > i64::MIN,
        (MAX_SPAN_DAYS + 1) * MICROS_PER_DAY < i64::MAX,
{
}

/// A microsecond count that leads out of the range of instants is rejected,
/// and with it the largest and the smallest 64-bit count.
pub proof fn timestamp_beyond_range_rejected(t: int)
    requires
        t < -400_000_000_000_000_000 || t > 300_000_000_000_000_000,
    ensures
        !nanos_in_range(wire_to_nanos(t)),
        -400_000_000_000_000_000 > i64::MIN,
        300_000_000_000_000_000 < i64::MAX,
{
}

/// The epoch of instants, and midnight, have the count zero.
pub proof fn epochs_are_zero()
    ensures
        (Timestamp { second: Y2K_EPOCH, nanosecond: 0 }).wire_micros() == 0,
        (Time { hour: 0, minute: 0, second: 0, subsec_nanosecond: 0 }).micros_of_day() == 0,
{
}

} // verus!
