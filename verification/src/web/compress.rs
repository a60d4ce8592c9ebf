//! Whether a response is compressed, and with which coding.

use vstd::prelude::*;
use vstd::string::{StringExecFns, StringSliceAdditionalSpecFns};
use vstd::utf8::encode_utf8;

use crate::web::headers::accept_encoding::{coding_name, word_at, AcceptEncoding, Coding};
use crate::web::headers::common::{QValue, QVALUE_MAX};

verus! {

/// What the choice of a compression reads of a response.
#[derive(Debug, Clone, PartialEq, Eq)]
pub struct ResponseFacts {
    /// The size of the body, where it is known before the body is read.
    pub preset_size: Option<usize>,
    /// The two parts of the content type, as in `text/html`.
    pub content_type: Option<(String, String)>,
}

/// The text is the word, capitals and small letters taken as the same.
pub open spec fn is_word(text: Seq<u8>, word: Seq<char>) -> bool {
    word_at(text, 0, word) == Some(text.len() as int)
}

/// Says of a response whether it is worth compressing.
pub trait CompressionPredicate {
    /// Whether the response is worth compressing.
    spec fn admits(&self, response: &ResponseFacts) -> bool;

    fn should_compress(&self, response: &ResponseFacts) -> (yes: bool)
        ensures
            yes == self.admits(response),
    ;
}

/// The predicate that holds where `left` and `right` hold.
pub fn and<L: CompressionPredicate, R: CompressionPredicate>(left: L, right: R) -> (both: And<L, R>)
    ensures
        both.0 == left,
        both.1 == right,
{
    And(left, right)
}

/// Holds where both predicates hold.
#[derive(Debug, Clone, Copy, PartialEq, Eq)]
pub struct And<L, R>(pub L, pub R);

impl<L: CompressionPredicate, R: CompressionPredicate> CompressionPredicate for And<L, R> {
    open spec fn admits(&self, response: &ResponseFacts) -> bool {
        self.0.admits(response) && self.1.admits(response)
    }

    fn should_compress(&self, response: &ResponseFacts) -> (yes: bool) {
        self.0.should_compress(response) && self.1.should_compress(response)
    }
}

/// Holds for a body of at least so many bytes, and for a body of unknown
/// size.
#[derive(Debug, Clone, Copy, PartialEq, Eq)]
pub struct SizeAbove(pub usize);

impl CompressionPredicate for SizeAbove {
    open spec fn admits(&self, response: &ResponseFacts) -> bool {
        match response.preset_size {
            Some(size) => size >= self.0,
            None => true,
        }
    }

    fn should_compress(&self, response: &ResponseFacts) -> (yes: bool) {
        match response.preset_size {
            Some(size) => size >= self.0,
            None => true,
        }
    }
}

/// Holds for every content type but `image/svg+xml`, and for a response
/// without content type.
#[derive(Debug, Clone, Copy, PartialEq, Eq)]
pub struct NotForCompressedContentTypes;

impl CompressionPredicate for NotForCompressedContentTypes {
    open spec fn admits(&self, response: &ResponseFacts) -> bool {
        match response.content_type {
            Some((top, sub)) => !is_word(encode_utf8(top@), "image"@) || !is_word(
                encode_utf8(sub@),
                "svg+xml"@,
            ),
            None => true,
        }
    }

    fn should_compress(&self, response: &ResponseFacts) -> (yes: bool) {
        proof {
            reveal_strlit("image");
            reveal_strlit("svg+xml");
        }
        match &response.content_type {
            Some((top, sub)) => {
                let top = top.as_str().as_bytes();
                let sub = sub.as_str().as_bytes();
                Coding::slice_starts_with(top, 0, "image") != Some(top.len())
                    || Coding::slice_starts_with(sub, 0, "svg+xml") != Some(sub.len())
            },
            None => true,
        }
    }
}

/// The smallest body that is compressed by default.
pub const DEFAULT_MIN_SIZE: usize = 256;

/// What is compressed by default: bodies of at least [`DEFAULT_MIN_SIZE`]
/// bytes that are no `image/svg+xml`.
#[derive(Debug, Clone, Copy, PartialEq, Eq)]
pub struct DefaultPredicate(pub And<SizeAbove, NotForCompressedContentTypes>);

impl CompressionPredicate for DefaultPredicate {
    open spec fn admits(&self, response: &ResponseFacts) -> bool {
        self.0.admits(response)
    }

    fn should_compress(&self, response: &ResponseFacts) -> (yes: bool) {
        self.0.should_compress(response)
    }
}

impl Default for DefaultPredicate {
    fn default() -> (predicate: Self)
        ensures
            predicate == DefaultPredicate(
                And(SizeAbove(DEFAULT_MIN_SIZE), NotForCompressedContentTypes),
            ),
    {
        DefaultPredicate(And(SizeAbove(DEFAULT_MIN_SIZE), NotForCompressedContentTypes))
    }
}

/// The codings that the server can answer with, the one it likes best
/// first.
pub open spec fn supported() -> Seq<Coding> {
    seq![Coding::Zstandard, Coding::Brotli, Coding::Gzip, Coding::Deflate]
}

/// The names of the codings that the server can answer with, as a list for
/// a header.
pub open spec fn supported_names() -> Seq<char> {
    coding_name(Coding::Zstandard) + ", "@ + coding_name(Coding::Brotli) + ", "@ + coding_name(
        Coding::Gzip,
    ) + ", "@ + coding_name(Coding::Deflate)
}

/// What is to be done with a response.
#[derive(Debug, Clone, PartialEq, Eq)]
pub enum CompressionPlan {
    /// The response goes out as it is.
    Leave,
    /// The body is encoded with this coding, which `Content-Encoding`
    /// names.
    Encode(Coding),
    /// The answer is "not acceptable", with the codings on offer in its
    /// `Accept-Encoding`.
    NotAcceptable(String),
}

/// The coding that a plan answers with.
pub open spec fn coding_of(plan: CompressionPlan) -> Option<Coding> {
    match plan {
        CompressionPlan::Leave => Some(Coding::Identity),
        CompressionPlan::Encode(coding) => Some(coding),
        CompressionPlan::NotAcceptable(_) => None,
    }
}

/// What a request says that has no `Accept-Encoding`.
pub open spec fn accepted(accept: Option<AcceptEncoding>) -> AcceptEncoding {
    match accept {
        Some(said) => said,
        None => AcceptEncoding { identity: Some(QValue(QVALUE_MAX)), ..AcceptEncoding::nothing() },
    }
}

/// Plans the compression of a response. A response that is encoded already
/// is left alone. Else the client's `Accept-Encoding` chooses among the
/// codings on offer: the first with the highest weight; `identity`, which
/// leaves the response as it is, where the client takes none of them but
/// takes that; and where it takes nothing, the answer is "not acceptable".
pub fn compress(already_encoded: bool, accept: Option<AcceptEncoding>) -> (plan: CompressionPlan)
    ensures
        already_encoded ==> plan == CompressionPlan::Leave,
        !already_encoded ==> accepted(accept).chooses(supported(), coding_of(plan)),
        plan matches CompressionPlan::Encode(coding) ==> coding != Coding::Identity,
        plan matches CompressionPlan::NotAcceptable(names) ==> names@ == supported_names(),
{
    if already_encoded {
        return CompressionPlan::Leave;
    }
    let said = match accept {
        Some(said) => said,
        None => AcceptEncoding::default(),
    };
    let offer = [Coding::Zstandard, Coding::Brotli, Coding::Gzip, Coding::Deflate];
    match said.match_one_of(offer.as_slice()) {
        Some(Coding::Identity) => CompressionPlan::Leave,
        Some(coding) => CompressionPlan::Encode(coding),
        None => {
            let mut names = String::from_str(Coding::Zstandard.as_str());
            names.append(", ");
            names.append(Coding::Brotli.as_str());
            names.append(", ");
            names.append(Coding::Gzip.as_str());
            names.append(", ");
            names.append(Coding::Deflate.as_str());
            CompressionPlan::NotAcceptable(names)
        },
    }
}

} // verus!
