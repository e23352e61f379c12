//! Declarations of the chrono types that the library carries through.

use vstd::prelude::*;

verus! {

/// `chrono::NaiveDate`, carried as an opaque value.
#[verifier::external_type_specification]
#[verifier::external_body]
pub struct ExNaiveDate(chrono::NaiveDate);

/// `chrono::NaiveTime`, carried as an opaque value.
#[verifier::external_type_specification]
#[verifier::external_body]
pub struct ExNaiveTime(chrono::NaiveTime);

/// `chrono::ParseError`, carried as an opaque value.
#[verifier::external_type_specification]
#[verifier::external_body]
pub struct ExParseError(chrono::ParseError);

/// `NaiveDate::clone` (derived; `NaiveDate` is `Copy`): the copy equals the
/// original. It is the clone that the derived `Clone` of the order and
/// trade payloads, which hold a `NaiveDate`, calls.
pub assume_specification[ <chrono::NaiveDate as Clone>::clone ](date: &chrono::NaiveDate) -> (copy: chrono::NaiveDate)
    ensures
        copy == *date,
;

/// `NaiveTime::clone` (derived; `NaiveTime` is `Copy`): the copy equals the
/// original. It is the clone that the derived `Clone` of the order and
/// trade payloads, which hold a `NaiveTime`, calls.
pub assume_specification[ <chrono::NaiveTime as Clone>::clone ](time: &chrono::NaiveTime) -> (copy: chrono::NaiveTime)
    ensures
        copy == *time,
;

} // verus!
