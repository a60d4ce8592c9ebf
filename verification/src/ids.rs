//! How the ids of rooms and players are made: the calls into the crates that
//! give random and time-ordered values, and that encode them as text.
//!
//! The functions marked `external_body` here are believed, not proved; each
//! says which outside function it stands for.

use base64::Engine;
use rand::Rng;
use vstd::prelude::*;

verus! {

/// Number of bytes in a room's raw id.
pub const ROOM_ID_BYTES: usize = 16;

/// Number of characters in a player's id.
pub const PLAYER_ID_CHARS: usize = 16;

/// The text that the URL-safe base64 alphabet without padding gives for a
/// sequence of bytes.
pub uninterp spec fn base64_url(bytes: Seq<u8>) -> Seq<char>;

/// The bytes that a text stands for in URL-safe base64 without padding, if
/// it stands for any.
pub uninterp spec fn base64_url_decoded(text: Seq<char>) -> Option<Seq<u8>>;

/// A character of the URL-safe base64 alphabet.
pub open spec fn is_url_safe(c: char) -> bool {
    ||| 'A' <= c <= 'Z'
    ||| 'a' <= c <= 'z'
    ||| '0' <= c <= '9'
    ||| c == '-'
    ||| c == '_'
}

/// An ASCII letter or digit.
pub open spec fn is_alphanumeric(c: char) -> bool {
    ||| 'A' <= c <= 'Z'
    ||| 'a' <= c <= 'z'
    ||| '0' <= c <= '9'
}

/// How many characters base64 without padding takes for so many bytes.
pub open spec fn base64_len(bytes: nat) -> nat {
    bytes / 3 * 4 + if bytes % 3 == 0 {
        0nat
    } else {
        bytes % 3 + 1
    }
}

/// `base64::Engine::encode` on `URL_SAFE_NO_PAD`. Believed: the result is the
/// encoding of the bytes, four characters for every three bytes and two or
/// three for a rest of one or two, each from the URL-safe alphabet. The
/// outside function panics if that length does not fit in `usize`.
#[verifier::external_body]
pub(crate) fn encode_base64_url(bytes: &[u8]) -> (text: String)
    requires
        bytes@.len() <= usize::MAX / 2,
    ensures
        text@ == base64_url(bytes@),
        text@.len() == base64_len(bytes@.len()),
        forall|i: int| 0 <= i < text@.len() ==> is_url_safe(#[trigger] text@[i]),
{
    base64::engine::general_purpose::URL_SAFE_NO_PAD.encode(bytes)
}

/// `base64::Engine::decode` on `URL_SAFE_NO_PAD`. Believed: the result is a
/// function of the text alone; `None` stands for the outside error.
#[verifier::external_body]
pub(crate) fn decode_base64_url(text: &str) -> (bytes: Option<Vec<u8>>)
    ensures
        bytes is Some <==> base64_url_decoded(text@) is Some,
        bytes matches Some(raw) ==> base64_url_decoded(text@) == Some(raw@),
{
    match base64::engine::general_purpose::URL_SAFE_NO_PAD.decode(text) {
        Ok(bytes) => Some(bytes),
        Err(_) => None,
    }
}

/// `uuid::Uuid::now_v7`, as its sixteen bytes. Nothing is claimed of them:
/// they hold the time and random bits.
#[verifier::external_body]
pub(crate) fn time_ordered_bytes() -> (bytes: [u8; 16]) {
    *uuid::Uuid::now_v7().as_bytes()
}

/// `rand::Rng::sample_iter` with `rand::distributions::Alphanumeric` on the
/// thread's generator. Believed: it gives as many characters as asked for,
/// each an ASCII letter or digit.
#[verifier::external_body]
pub(crate) fn random_alphanumeric(len: usize) -> (text: String)
    ensures
        text@.len() == len,
        forall|i: int| 0 <= i < text@.len() ==> is_alphanumeric(#[trigger] text@[i]),
{
    rand::thread_rng().sample_iter(&rand::distributions::Alphanumeric).take(len).map(
        char::from,
    ).collect()
}

/// The id that stands for sixteen raw bytes: their URL-safe base64 text, 22
/// characters long.
pub fn room_id_of(bytes: &[u8; 16]) -> (id: String)
    ensures
        id@ == base64_url(bytes@),
        id@.len() == 22,
        forall|i: int| 0 <= i < id@.len() ==> is_url_safe(#[trigger] id@[i]),
{
    encode_base64_url(bytes.as_slice())
}

/// The sixteen raw bytes that a room id stands for; `None` if the text is no
/// URL-safe base64 or stands for another number of bytes.
pub fn decode_room_id(id: &str) -> (bytes: Option<Vec<u8>>)
    ensures
        bytes is Some <==> (base64_url_decoded(id@) matches Some(raw) && raw.len()
            == ROOM_ID_BYTES),
        bytes matches Some(raw) ==> base64_url_decoded(id@) == Some(raw@),
{
    match decode_base64_url(id) {
        Some(raw) => {
            if raw.len() == ROOM_ID_BYTES {
                Some(raw)
            } else {
                None
            }
        },
        None => None,
    }
}

} // verus!
