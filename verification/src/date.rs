use vstd::prelude::*;
use crate::datetime::base;
use crate::types::{ConversionError, IsNull, Type};
use crate::wire::{be_bytes_4, be_signed_4, buffer_bytes, read_date, write_date};

verus! {

/// A day of the proleptic Gregorian calendar.
#[derive(Clone, Copy, Debug, PartialEq, Eq, Structural)]
pub struct Date {
    pub year: i16,
    pub month: i8,
    pub day: i8,
}

pub open spec fn is_leap_year(year: int) -> bool {
    year % 4 == 0 && (year % 100 != 0 || year % 400 == 0)
}

pub open spec fn days_in_month(year: int, month: int) -> int {
    if month == 2 {
        if is_leap_year(year) {
            29
        } else {
            28
        }
    } else if month == 4 || month == 6 || month == 9 || month == 11 {
        30
    } else {
        31
    }
}

/// The number of days from the second date to the first, negative where the
/// first is the earlier one, as `jiff::civil::Date::since` counts them.
pub uninterp spec fn civil_days_since(
    year: int,
    month: int,
    day: int,
    from_year: int,
    from_month: int,
    from_day: int,
) -> int;

/// The longest span of days that calendar arithmetic takes, either way.
pub const MAX_SPAN_DAYS: i32 = 7_304_484;

/// The date of the epoch, January 1, 2000.
pub open spec fn epoch_date() -> Date {
    Date { year: 2000, month: 1, day: 1 }
}

/// What decoding the day count `n` gives: the one valid date that lies `n`
/// days after the epoch, or `RangeOverflow` where the calendar has none.
pub open spec fn date_decoded(n: int, r: Result<Date, ConversionError>) -> bool {
    &&& r is Ok ==> r.unwrap().is_at(n) && -MAX_SPAN_DAYS <= n <= MAX_SPAN_DAYS
    &&& forall|d: Date| #[trigger] d.is_at(n) ==> r == Ok::<Date, ConversionError>(d)
    &&& r is Err ==> r == Err::<Date, ConversionError>(ConversionError::RangeOverflow)
}

impl Date {
    /// A date that the calendar has, in the years -9999 to 9999.
    pub open spec fn wf(&self) -> bool {
        &&& -9999 <= self.year <= 9999
        &&& 1 <= self.month <= 12
        &&& 1 <= self.day <= days_in_month(self.year as int, self.month as int)
    }

    /// The number of days from `origin` to this date.
    pub open spec fn days_since(&self, origin: Date) -> int {
        civil_days_since(
            self.year as int,
            self.month as int,
            self.day as int,
            origin.year as int,
            origin.month as int,
            origin.day as int,
        )
    }

    /// This date is valid and lies `n` days after the epoch.
    pub open spec fn is_at(&self, n: int) -> bool {
        self.wf() && self.days_since(epoch_date()) == n
    }

    /// The date with the given fields, if the calendar has it.
    pub fn new(year: i16, month: i8, day: i8) -> (r: Option<Date>)
        ensures
            r == (if (Date { year, month, day }).wf() {
                Some(Date { year, month, day })
            } else {
                None
            }),
    {
        if year < -9999 || year > 9999 || month < 1 || month > 12 || day < 1 {
            return None;
        }
        // The remainders below are taken of a year shifted to be positive.
        let y: i32 = year as i32 + 10000;
        let leap: bool = y % 4 == 0 && (y % 100 != 0 || y % 400 == 0);
        let last: i8 = if month == 2 {
            if leap {
                29
            } else {
                28
            }
        } else if month == 4 || month == 6 || month == 9 || month == 11 {
            30
        } else {
            31
        };
        if day > last {
            None
        } else {
            Some(Date { year, month, day })
        }
    }

    /// The date that lies `n` days after the epoch, or `RangeOverflow` where
    /// the calendar has no such date.
    pub fn from_wire(n: i32) -> (r: Result<Date, ConversionError>)
        ensures
            date_decoded(n as int, r),
    {
        let origin = base().date;
        match add_days(&origin, n) {
            Some(d) => Ok(d),
            None => Err(ConversionError::RangeOverflow),
        }
    }

    /// The number of days from the epoch to this date.
    pub fn to_wire(&self) -> (r: Result<i32, ConversionError>)
        requires
            self.wf(),
        ensures
            r == Ok::<i32, ConversionError>(self.days_since(epoch_date()) as i32),
            i32::MIN <= self.days_since(epoch_date()) <= i32::MAX,
            *self == epoch_date() ==> r == Ok::<i32, ConversionError>(0),
    {
        let origin = base().date;
        Ok(days_between(self, &origin))
    }

    /// Whether a column of type `ty` carries dates.
    pub fn accepts(ty: &Type) -> (r: bool)
        ensures
            r == (*ty == Type::Date),
    {
        match ty {
            Type::Date => true,
            _ => false,
        }
    }

    /// Decodes the four bytes of a `DATE` value.
    pub fn from_sql(_ty: &Type, raw: &[u8]) -> (r: Result<Date, ConversionError>)
        ensures
            raw@.len() != 4 ==> r == Err::<Date, ConversionError>(
                ConversionError::InvalidRawValue,
            ),
            raw@.len() == 4 ==> date_decoded(be_signed_4(raw@), r),
    {
        match read_date(raw) {
            None => Err(ConversionError::InvalidRawValue),
            Some(n) => Date::from_wire(n),
        }
    }

    /// Appends the four bytes of this date's `DATE` value to `w`.
    pub fn to_sql(&self, _ty: &Type, w: &mut bytes::BytesMut) -> (r: Result<
        IsNull,
        ConversionError,
    >)
        requires
            self.wf(),
        ensures
            r == Ok::<IsNull, ConversionError>(IsNull::No),
            i32::MIN <= self.days_since(epoch_date()) <= i32::MAX,
            *self == epoch_date() ==> self.days_since(epoch_date()) == 0,
            buffer_bytes(*final(w)) == buffer_bytes(*old(w)) + be_bytes_4(
                self.days_since(epoch_date()),
            ),
    {
        match self.to_wire() {
            Ok(n) => {
                write_date(n, w);
                Ok(IsNull::No)
            },
            Err(e) => Err(e),
        }
    }
}

/// Calls `jiff::civil::Date::since` with its default configuration, through
/// the `-` of two dates: the span holds whole days only, is never refused
/// between two valid dates, and is zero from a date to itself.
#[verifier::external_body]
pub(crate) fn days_between(d: &Date, origin: &Date) -> (n: i32)
    requires
        d.wf(),
        origin.wf(),
    ensures
        n == civil_days_since(
            d.year as int,
            d.month as int,
            d.day as int,
            origin.year as int,
            origin.month as int,
            origin.day as int,
        ),
        *d == *origin ==> n == 0,
{
    let a = jiff::civil::Date::constant(d.year, d.month, d.day);
    let b = jiff::civil::Date::constant(origin.year, origin.month, origin.day);
    (a - b).get_days()
}

/// Calls `jiff::Span::try_days` and `jiff::civil::Date::checked_add`: the
/// result is the one valid date that lies `n` days after `origin`, and there
/// is none where the sum is outside the calendar or `n` is beyond
/// `MAX_SPAN_DAYS`, which is further than any two valid dates lie apart.
#[verifier::external_body]
pub(crate) fn add_days(origin: &Date, n: i32) -> (r: Option<Date>)
    requires
        origin.wf(),
    ensures
        r is Some ==> r.unwrap().wf() && r.unwrap().days_since(*origin) == n,
        r is Some ==> -MAX_SPAN_DAYS <= n <= MAX_SPAN_DAYS,
        forall|d: Date| d.wf() && #[trigger] d.days_since(*origin) == n ==> r == Some(d),
{
    let start = jiff::civil::Date::constant(origin.year, origin.month, origin.day);
    let span = jiff::Span::new().try_days(n).ok()?;
    let sum = start.checked_add(span).ok()?;
    Some(Date { year: sum.year(), month: sum.month(), day: sum.day() })
}

} // verus!
