//! Declarations of std types that the library carries through without looking inside.

use vstd::prelude::*;

verus! {

/// `std::io::Error`, carried through as the error of writes to output targets.
#[verifier::external_type_specification]
#[verifier::external_body]
pub struct ExIoError(std::io::Error);

} // verus!

verus! {

/// `Clone::clone` for `std::time::Duration`: a `Copy` type, so the clone is the same value.
pub assume_specification[ <std::time::Duration as Clone>::clone ](d: &std::time::Duration) -> (r: std::time::Duration)
    ensures
        r == *d,
;

} // verus!

verus! {

/// `std::io::Stdout`, an output target of formatters.
#[verifier::external_type_specification]
#[verifier::external_body]
pub struct ExStdout(std::io::Stdout);

/// `std::io::Stderr`, an output target of formatters.
#[verifier::external_type_specification]
#[verifier::external_body]
pub struct ExStderr(std::io::Stderr);

} // verus!
