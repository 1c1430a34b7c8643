//! Why a hexadecimal floating literal cannot be read.
//!
//! The literals are read by the `hexponent` crate, and its error says what is wrong with
//! one. The wording of the error is asked of the crate itself.

use hexponent::{ParseError, ParseErrorKind};
use vstd::prelude::*;

verus! {

/// The kinds of error of `hexponent`, as the crate declares them.
#[verifier::external_type_specification]
pub struct ExParseErrorKind(ParseErrorKind);

/// The error of `hexponent`, with its two public fields.
#[verifier::external_type_specification]
pub struct ExParseError(ParseError);

/// `Clone` of `hexponent::ParseError`, which the crate derives for a type that is `Copy`.
/// Trusted: the clone is the error itself.
pub assume_specification[ <ParseError as Clone>::clone ](error: &ParseError) -> (r: ParseError)
    ensures
        r == *error,
;

/// What `hexponent` says of an error of a kind.
pub open spec fn hex_float_text(kind: ParseErrorKind) -> Seq<char> {
    match kind {
        ParseErrorKind::MissingPrefix => "literal must have hex prefix"@,
        ParseErrorKind::MissingDigits => "literal must have digits"@,
        ParseErrorKind::MissingExponent => "exponent not present"@,
        ParseErrorKind::ExponentOverflow => "exponent too large to fit in integer"@,
        ParseErrorKind::MissingEnd => "extra bytes were found at the end of float literal"@,
    }
}

/// `Display` of `hexponent::ParseError`. Trusted: the text depends on the kind of the error
/// alone and is the one that `hex_float_text` gives.
#[verifier::external_body]
pub(crate) fn hex_float_message(error: &ParseError) -> (s: String)
    ensures
        s@ == hex_float_text(error.kind),
{
    error.to_string()
}

} // verus!
