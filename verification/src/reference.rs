//! Image references, parsed by the outside client's parser.

use vstd::prelude::*;
use oci_client::ParseError as OutsideParseError;
use crate::errors::{NativeBindingError, ParseErrorKind};

verus! {

#[verifier::external_type_specification]
#[verifier::external_body]
pub struct ExReference(oci_client::Reference);

/// Why the outside parser (`Reference::from_str`) rejects `s` as an image
/// reference, or `None` when it accepts it.
pub uninterp spec fn reference_rejection(s: Seq<char>) -> Option<ParseErrorKind>;

/// Calls `Reference::from_str` and tells the variants of its error apart. The
/// contract claims that the outcome is `reference_rejection(s)`, and, as the
/// parser's first check shows, that the empty string is rejected as an empty
/// name.
#[verifier::external_body]
fn reference_from_str(s: &str) -> (r: Result<oci_client::Reference, ParseErrorKind>)
    ensures
        match r {
            Ok(_) => reference_rejection(s@) is None,
            Err(k) => reference_rejection(s@) == Some(k),
        },
        s@.len() == 0 ==> r matches Err(ParseErrorKind::NameEmpty),
{
    <oci_client::Reference as std::str::FromStr>::from_str(s).map_err(|e| match e {
        OutsideParseError::DigestInvalidFormat => ParseErrorKind::DigestInvalidFormat,
        OutsideParseError::DigestInvalidLength => ParseErrorKind::DigestInvalidLength,
        OutsideParseError::DigestUnsupported => ParseErrorKind::DigestUnsupported,
        OutsideParseError::NameContainsUppercase => ParseErrorKind::NameContainsUppercase,
        OutsideParseError::NameEmpty => ParseErrorKind::NameEmpty,
        OutsideParseError::NameTooLong => ParseErrorKind::NameTooLong,
        OutsideParseError::ReferenceInvalidFormat => ParseErrorKind::ReferenceInvalidFormat,
        OutsideParseError::TagInvalidFormat => ParseErrorKind::TagInvalidFormat,
    })
}

/// Parses `value` as an image reference; a rejection becomes the bindings'
/// parse error for its reason.
pub fn parse_reference(value: &str) -> (r: Result<oci_client::Reference, NativeBindingError>)
    ensures
        match r {
            Ok(_) => reference_rejection(value@) is None,
            Err(e) => e matches NativeBindingError::Parse(k) && reference_rejection(value@) == Some(
                k,
            ),
        },
        value@.len() == 0 ==> r matches Err(NativeBindingError::Parse(ParseErrorKind::NameEmpty)),
{
    match reference_from_str(value) {
        Ok(reference) => Ok(reference),
        Err(k) => Err(NativeBindingError::Parse(k)),
    }
}

} // verus!
