use vstd::prelude::*;

verus! {

/// Why a C string handed over by the terminal could not be read.
#[derive(Debug)]
pub enum DecodeLpstrError {
    /// The terminal passed a null pointer.
    NullPointer,
    /// The decoder reported malformed input; windows-1251 decoding never
    /// does, so the readings of this library do not produce it.
    DecodeError,
}

/// Why a date or time number handed over by the terminal could not be read.
#[derive(Debug)]
pub enum DateTimeError {
    /// The date number is not a positive 32-bit value.
    InvalidDate,
    /// The time number is not a positive 32-bit value.
    InvalidTime,
    /// The digits do not form a valid date or time.
    ParseError(chrono::ParseError),
}

impl From<chrono::ParseError> for DateTimeError {
    fn from(err: chrono::ParseError) -> (converted: Self) {
        Self::ParseError(err)
    }
}

impl vstd::std_specs::convert::FromSpecImpl<chrono::ParseError> for DateTimeError {
    open spec fn obeys_from_spec() -> bool {
        true
    }

    open spec fn from_spec(err: chrono::ParseError) -> DateTimeError {
        DateTimeError::ParseError(err)
    }
}

} // verus!
