//! Typed header values.

use vstd::prelude::*;

pub mod accept_encoding;
pub mod accept_language;
pub mod common;
pub mod etag;

verus! {

/// A header value that does not follow the header's grammar.
#[derive(Debug, Clone, Copy, PartialEq, Eq)]
pub struct InvalidHeaderValue;

/// The only element of a list: an error if the list is empty or holds more
/// than one.
pub fn single<T: Copy>(values: &[T]) -> (only: Result<T, InvalidHeaderValue>)
    ensures
        values@.len() == 1 ==> only == Ok::<T, InvalidHeaderValue>(values@[0]),
        values@.len() != 1 ==> only is Err,
{
    if values.len() == 1 {
        Ok(values[0])
    } else {
        Err(InvalidHeaderValue)
    }
}

/// A header with a type of its own.
pub trait Header: Sized {
    /// Whether `decoded` is what the values of the header stand for.
    spec fn decodes(values: Seq<Seq<u8>>, decoded: Result<Self, InvalidHeaderValue>) -> bool;

    /// The name of the header.
    spec fn header_name() -> Seq<char>;

    fn name() -> (name: &'static str)
        ensures
            name@ == Self::header_name(),
    ;

    /// Reads the header from its values.
    fn decode(values: &[&[u8]]) -> (decoded: Result<Self, InvalidHeaderValue>)
        ensures
            Self::decodes(values_of(values@), decoded),
    ;
}

/// The views of the values of a header.
pub open spec fn values_of(values: Seq<&[u8]>) -> Seq<Seq<u8>> {
    Seq::new(values.len(), |i: int| values[i]@)
}

/// Reads a header from its values, if it has any.
pub fn typed_try_get<H: Header>(values: &[&[u8]]) -> (header: Result<
    Option<H>,
    InvalidHeaderValue,
>)
    ensures
        values@.len() == 0 ==> header == Ok::<Option<H>, InvalidHeaderValue>(None),
        values@.len() > 0 ==> match header {
            Ok(Some(h)) => H::decodes(values_of(values@), Ok(h)),
            Ok(None) => false,
            Err(e) => H::decodes(values_of(values@), Err(e)),
        },
{
    if values.len() == 0 {
        Ok(None)
    } else {
        match H::decode(values) {
            Ok(header) => Ok(Some(header)),
            Err(err) => Err(err),
        }
    }
}

/// Reads a header from its values; a header that is missing or cannot be
/// read is none.
pub fn typed_get<H: Header>(values: &[&[u8]]) -> (header: Option<H>)
    ensures
        values@.len() == 0 ==> header is None,
        values@.len() > 0 ==> match header {
            Some(h) => H::decodes(values_of(values@), Ok(h)),
            None => exists|e: InvalidHeaderValue| H::decodes(values_of(values@), Err(e)),
        },
{
    match typed_try_get::<H>(values) {
        Ok(header) => header,
        Err(_) => None,
    }
}

} // verus!
