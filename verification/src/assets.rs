//! A catalog of static files, each with the tag and the content type that
//! it is served with.
//!
//! The hash of a file and the guess of its media type are the work of
//! outside crates; the functions marked `external_body` here call them and
//! are believed, not proved.

use sha1::Digest;
use vstd::prelude::*;
use vstd::string::{StringExecFns, StringSliceAdditionalSpecFns};
use vstd::utf8::encode_utf8;

use crate::text::{same_bytes, same_text};

verus! {

/// The SHA-1 hash of the bytes: twenty bytes.
pub uninterp spec fn sha1_of(content: Seq<u8>) -> Seq<u8>;

/// The media type that is guessed for a path from its extension, as
/// `type/subtype`; `application/octet-stream` where there is no guess.
pub uninterp spec fn guessed_media_type(path: Seq<char>) -> Seq<char>;

/// The lowercase hexadecimal digit of a number below sixteen.
pub open spec fn hex_digit(n: int) -> char {
    if n < 10 {
        (48 + n) as u8 as char
    } else {
        (87 + n) as u8 as char
    }
}

/// The lowercase hexadecimal text of the bytes: two digits for each.
pub open spec fn hex_text(bytes: Seq<u8>) -> Seq<char> {
    Seq::new(
        2 * bytes.len(),
        |i: int|
            hex_digit(
                if i % 2 == 0 {
                    bytes[i / 2] as int / 16
                } else {
                    bytes[i / 2] as int % 16
                },
            ),
    )
}

/// `sha1::Digest::digest` of `sha1::Sha1`. Believed: the result is the
/// SHA-1 hash of the bytes.
#[verifier::external_body]
pub(crate) fn sha1_digest(content: &[u8]) -> (hash: [u8; 20])
    ensures
        hash@ == sha1_of(content@),
{
    sha1::Sha1::digest(content).into()
}

/// `hex::encode`. Believed, as its documentation says: each byte is
/// written with two hexadecimal digits in lower case.
#[verifier::external_body]
pub(crate) fn hex_encode(bytes: &[u8]) -> (text: String)
    ensures
        text@ == hex_text(bytes@),
{
    hex::encode(bytes)
}

/// `mime_guess::from_path` and, of the guess, `first_or_octet_stream`, by
/// its essence. Believed: the result is the media type that the crate's
/// table has for the extension of the path.
#[verifier::external_body]
pub(crate) fn guess_media_type(path: &str) -> (essence: String)
    ensures
        essence@ == guessed_media_type(path@),
{
    mime_guess::from_path(path).first_or_octet_stream().essence_str().to_owned()
}

/// The bytes start with the bytes of the text.
pub open spec fn starts_with(bytes: Seq<u8>, prefix: Seq<char>) -> bool {
    let p = encode_utf8(prefix);
    p.len() <= bytes.len() && bytes.subrange(0, p.len() as int) == p
}

/// A media type whose content is text in UTF-8: any `text` type,
/// JavaScript and JSON.
pub open spec fn is_textual(essence: Seq<char>) -> bool {
    ||| starts_with(encode_utf8(essence), "text/"@)
    ||| essence == "application/javascript"@
    ||| essence == "application/json"@
}

/// The content type that a file of the media type is served with: the
/// media type, with the character set where the content is text.
pub open spec fn content_type_of(essence: Seq<char>) -> Seq<char> {
    if is_textual(essence) {
        essence + ";charset=UTF-8"@
    } else {
        essence
    }
}

/// Whether the text starts with the prefix.
pub fn text_starts_with(text: &str, prefix: &str) -> (yes: bool)
    ensures
        yes == starts_with(text.spec_bytes(), prefix@),
{
    let bytes = text.as_bytes();
    let p = prefix.as_bytes();
    if p.len() > bytes.len() {
        return false;
    }
    same_bytes(vstd::slice::slice_subrange(bytes, 0, p.len()), p)
}

/// A static file as it is served.
#[derive(Debug, Clone, PartialEq, Eq)]
pub struct Asset {
    /// The tag of the file: the SHA-1 hash of its content, in hexadecimal.
    pub sha1: String,
    pub content_type: String,
    pub content: Vec<u8>,
}

/// The mathematical value of an [`Asset`].
pub struct AssetView {
    pub sha1: Seq<char>,
    pub content_type: Seq<char>,
    pub content: Seq<u8>,
}

impl View for Asset {
    type V = AssetView;

    open spec fn view(&self) -> AssetView {
        AssetView { sha1: self.sha1@, content_type: self.content_type@, content: self.content@ }
    }
}

impl DeepView for Asset {
    type V = AssetView;

    open spec fn deep_view(&self) -> AssetView {
        self@
    }
}

/// The asset that a file at `path` with this content makes.
pub open spec fn asset_of(path: Seq<char>, content: Seq<u8>) -> AssetView {
    AssetView {
        sha1: hex_text(sha1_of(content)),
        content_type: content_type_of(guessed_media_type(path)),
        content,
    }
}

/// The asset under `path`: that of the last entry with the path.
pub open spec fn found(entries: Seq<(Seq<char>, AssetView)>, path: Seq<char>) -> Option<AssetView>
    decreases entries.len(),
{
    if entries.len() == 0 {
        None
    } else if entries.last().0 == path {
        Some(entries.last().1)
    } else {
        found(entries.drop_last(), path)
    }
}

/// The entries that the files make, each under its path.
pub open spec fn entries_of(files: Seq<(Seq<char>, Seq<u8>)>) -> Seq<(Seq<char>, AssetView)> {
    Seq::new(files.len(), |i: int| (files[i].0, asset_of(files[i].0, files[i].1)))
}

/// What a request for an asset is answered with.
#[derive(Debug, Clone, PartialEq, Eq)]
pub enum AssetReply {
    /// 304: the client holds the file already.
    NotModified,
    /// 200, with the file; its `Content-Type` and `ETag` are those of the
    /// asset.
    Content(Asset),
}

/// The mathematical value of an [`AssetReply`].
pub enum AssetReplyView {
    NotModified,
    Content(AssetView),
}

impl View for AssetReply {
    type V = AssetReplyView;

    open spec fn view(&self) -> AssetReplyView {
        match self {
            AssetReply::NotModified => AssetReplyView::NotModified,
            AssetReply::Content(asset) => AssetReplyView::Content(asset@),
        }
    }
}

impl DeepView for AssetReply {
    type V = AssetReplyView;

    open spec fn deep_view(&self) -> AssetReplyView {
        self@
    }
}

/// The answer with an asset to a request with this `If-None-Match`.
pub open spec fn reply_of(asset: AssetView, if_none_match: Option<Seq<char>>) -> AssetReplyView {
    if if_none_match == Some(asset.sha1) {
        AssetReplyView::NotModified
    } else {
        AssetReplyView::Content(asset)
    }
}

/// The answer to a request for `tail`: the asset under that path, else the
/// one under `index.html`, else nothing.
pub open spec fn reply_for(
    entries: Seq<(Seq<char>, AssetView)>,
    tail: Seq<char>,
    if_none_match: Option<Seq<char>>,
) -> Option<AssetReplyView> {
    match found(entries, tail) {
        Some(asset) => Some(reply_of(asset, if_none_match)),
        None => match found(entries, "index.html"@) {
            Some(asset) => Some(reply_of(asset, if_none_match)),
            None => None,
        },
    }
}

/// A copy of the bytes.
fn copy_content(bytes: &Vec<u8>) -> (copy: Vec<u8>)
    ensures
        copy@ == bytes@,
{
    let mut copy: Vec<u8> = Vec::new();
    let mut i: usize = 0;
    while i < bytes.len()
        invariant
            i <= bytes.len(),
            copy@ == bytes@.take(i as int),
        decreases bytes.len() - i,
    {
        copy.push(bytes[i]);
        i += 1;
    }
    copy
}

/// The static files of the server, each under its path.
#[derive(Debug, Clone, PartialEq, Eq)]
pub struct AssetCatalog {
    assets: Vec<(String, Asset)>,
}

impl View for AssetCatalog {
    type V = Seq<(Seq<char>, AssetView)>;

    closed spec fn view(&self) -> Seq<(Seq<char>, AssetView)> {
        self.assets.deep_view()
    }
}

impl AssetCatalog {
    /// The catalog of the files, given by path and content.
    pub fn new(files: Vec<(String, Vec<u8>)>) -> (catalog: Self)
        ensures
            catalog@ == entries_of(files.deep_view()),
    {
        let mut assets: Vec<(String, Asset)> = Vec::new();
        let mut i: usize = 0;
        while i < files.len()
            invariant
                i <= files.len(),
                assets.len() == i,
                forall|k: int|
                    0 <= k < i ==> assets[k].deep_view() == (
                        files[k].0@,
                        asset_of(files[k].0@, files[k].1@),
                    ),
            decreases files.len() - i,
        {
            let asset = Self::process_file(files[i].0.as_str(), copy_content(&files[i].1));
            assets.push((files[i].0.clone(), asset));
            i += 1;
        }
        let catalog = Self { assets };
        assert(catalog@ =~= entries_of(files.deep_view())) by {
            assert forall|k: int| 0 <= k < files.len() implies catalog@[k] == entries_of(
                files.deep_view(),
            )[k] by {
                assert(files[k].1.deep_view() =~= files[k].1@);
            }
        }
        catalog
    }

    /// The asset that a file makes: its tag is the hash of the content, in
    /// hexadecimal; its content type is guessed from the path.
    pub fn process_file(path: &str, content: Vec<u8>) -> (asset: Asset)
        ensures
            asset@ == asset_of(path@, content@),
    {
        let essence = guess_media_type(path);
        let textual = text_starts_with(essence.as_str(), "text/") || same_text(
            essence.as_str(),
            "application/javascript",
        ) || same_text(essence.as_str(), "application/json");
        let content_type = if textual {
            let mut with_charset = essence;
            with_charset.append(";charset=UTF-8");
            with_charset
        } else {
            essence
        };
        let hash = sha1_digest(content.as_slice());
        Asset { sha1: hex_encode(hash.as_slice()), content_type, content }
    }

    /// The asset under `path`.
    pub fn get(&self, path: &str) -> (asset: Option<&Asset>)
        ensures
            match found(self@, path@) {
                Some(a) => asset is Some && asset->0@ == a,
                None => asset is None,
            },
    {
        let mut i: usize = self.assets.len();
        assert(self@.take(i as int) =~= self@);
        while i > 0
            invariant
                i <= self.assets.len(),
                found(self@, path@) == found(self@.take(i as int), path@),
            decreases i,
        {
            if same_text(self.assets[i - 1].0.as_str(), path) {
                return Some(&self.assets[i - 1].1);
            }
            assert(self@.take(i as int).drop_last() =~= self@.take(i - 1));
            i -= 1;
        }
        None
    }
}

/// The answer with an asset: "not modified" to a client whose
/// `If-None-Match` is the asset's tag, else the asset.
pub fn asset_reply(asset: &Asset, if_none_match: Option<&str>) -> (reply: AssetReply)
    ensures
        reply@ == reply_of(
            asset@,
            match if_none_match {
                Some(tag) => Some(tag@),
                None => None,
            },
        ),
{
    let held = match if_none_match {
        Some(tag) => same_text(tag, asset.sha1.as_str()),
        None => false,
    };
    if held {
        AssetReply::NotModified
    } else {
        AssetReply::Content(
            Asset {
                sha1: asset.sha1.clone(),
                content_type: asset.content_type.clone(),
                content: copy_content(&asset.content),
            },
        )
    }
}

/// The answer to a request for the path `tail`: the asset under it, else
/// the one under `index.html`; `None` where neither is there.
pub fn asset_from_tail_path(tail: &str, assets: &AssetCatalog, if_none_match: Option<&str>)
    -> (reply: Option<AssetReply>)
    ensures
        reply.deep_view() == reply_for(
            assets@,
            tail@,
            match if_none_match {
                Some(tag) => Some(tag@),
                None => None,
            },
        ),
{
    if let Some(asset) = assets.get(tail) {
        Some(asset_reply(asset, if_none_match))
    } else if let Some(asset) = assets.get("index.html") {
        Some(asset_reply(asset, if_none_match))
    } else {
        None
    }
}

} // verus!
