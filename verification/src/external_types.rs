//! Types of other crates that the records of the database carry without looking inside.

use vstd::prelude::*;

verus! {

/// A date and time without a time zone, as `chrono` stores it.
#[verifier::external_type_specification]
#[verifier::external_body]
pub struct ExNaiveDateTime(chrono::NaiveDateTime);

/// A fixed-point decimal number, as `rust_decimal` stores it.
#[verifier::external_type_specification]
#[verifier::external_body]
pub struct ExDecimal(rust_decimal::Decimal);

/// `Clone::clone` of chrono's `NaiveDateTime`, which derives `Copy` and `Clone`: the clone
/// is the same value.
pub assume_specification[ <chrono::NaiveDateTime as Clone>::clone ](
    date: &chrono::NaiveDateTime,
) -> (copy: chrono::NaiveDateTime)
    ensures
        copy == *date,
;

/// `Clone::clone` of rust_decimal's `Decimal`, which derives `Copy` and `Clone`: the clone is
/// the same value.
pub assume_specification[ <rust_decimal::Decimal as Clone>::clone ](
    number: &rust_decimal::Decimal,
) -> (copy: rust_decimal::Decimal)
    ensures
        copy == *number,
;

} // verus!
