use vstd::prelude::*;

verus! {

/// The column types that the codec serves.
#[derive(Clone, Copy, Debug, PartialEq, Eq, Structural)]
pub enum Type {
    Date,
    Time,
    Timestamp,
    Timestamptz,
}

/// Whether an encoded parameter is SQL `NULL`.
#[derive(Clone, Copy, Debug, PartialEq, Eq, Structural)]
pub enum IsNull {
    Yes,
    No,
}

/// Why a conversion failed.
#[derive(Clone, Copy, Debug, PartialEq, Eq, Structural)]
pub enum ConversionError {
    /// The wire integer names a value outside the range of the value type.
    RangeOverflow,
    /// The value lies further from the epoch than the wire integer can count.
    PrecisionOverflow,
    /// The bytes are not a wire integer of the expected width.
    InvalidRawValue,
}

impl ConversionError {
    /// The text of `message`.
    pub open spec fn message_text(&self) -> Seq<char> {
        match self {
            ConversionError::RangeOverflow => "wire value is not in the required range of the value type"@,
            ConversionError::PrecisionOverflow => "value is not in the required range of the wire integer"@,
            ConversionError::InvalidRawValue => "invalid message length"@,
        }
    }

    /// Whether the error reports a value out of range, not malformed bytes.
    pub fn is_overflow(&self) -> (r: bool)
        ensures
            r == (*self != ConversionError::InvalidRawValue),
    {
        match self {
            ConversionError::InvalidRawValue => false,
            _ => true,
        }
    }

    /// A sentence that says what went wrong.
    pub fn message(&self) -> (s: String)
        ensures
            s@ == self.message_text(),
    {
        match self {
            ConversionError::RangeOverflow => "wire value is not in the required range of the value type".to_owned(),
            ConversionError::PrecisionOverflow => "value is not in the required range of the wire integer".to_owned(),
            ConversionError::InvalidRawValue => "invalid message length".to_owned(),
        }
    }
}

} // verus!
