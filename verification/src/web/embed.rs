//! Static assets: their tags, their addresses, and the answer to a request
//! for one.
//!
//! An asset is known here by the SHA-256 hash of its content. The address
//! of an asset carries the hash as its version, so that an asset asked for
//! by such an address can be cached for good.

use vstd::prelude::*;
use vstd::string::StringExecFns;
use vstd::utf8::encode_utf8;

use crate::ids::{base64_url, decode_base64_url, base64_url_decoded, encode_base64_url};
use crate::text::same_bytes;
use crate::web::headers::etag::{copy_bytes, ETag, EntityTagView, IfNoneMatch};
use crate::web::i18n::{HelperError, HelperParam};

verus! {

/// How long a client may keep an asset that it asked for by its version.
pub open spec fn cache_forever() -> Seq<char> {
    "public, max-age=604800, immutable"@
}

/// The text of an asset's hash.
pub open spec fn hash_text(hash: Seq<u8>) -> Seq<char> {
    base64_url(hash)
}

/// The value of the `ETag` header of an asset: the text of its hash in
/// double quotes.
pub open spec fn etag_header_of(hash: Seq<u8>) -> Seq<char> {
    seq!['"'] + hash_text(hash) + seq!['"']
}

/// The address of an asset: its path after a slash, and the text of its
/// hash as the version.
pub open spec fn asset_url_of(path: Seq<char>, hash: Seq<u8>) -> Seq<char> {
    "/"@ + path + "?v="@ + hash_text(hash)
}

/// The value of the `ETag` header of an asset.
pub fn gen_etag_header(hash: &[u8; 32]) -> (value: String)
    ensures
        value@ == etag_header_of(hash@),
{
    let text = encode_base64_url(hash.as_slice());
    let mut value = String::from_str("\"");
    value.append(text.as_str());
    value.append("\"");
    proof {
        reveal_strlit("\"");
    }
    value
}

/// The entity tag of an asset: strong, the text of its hash.
pub fn gen_etag(hash: &[u8; 32]) -> (etag: ETag)
    ensures
        etag.0@ == (EntityTagView { weak: false, entity_tag: encode_utf8(hash_text(hash@)) }),
{
    let text = encode_base64_url(hash.as_slice());
    ETag::new_strong(copy_bytes(text.as_str().as_bytes()))
}

/// The address of the asset under `file_path`, if there is one: `hash` is
/// the hash of its content.
pub fn get_asset_url(file_path: &str, hash: Option<&[u8; 32]>) -> (url: Option<String>)
    ensures
        match hash {
            Some(hash) => url is Some && url->0@ == asset_url_of(file_path@, hash@),
            None => url is None,
        },
{
    match hash {
        Some(hash) => {
            let mut res = String::from_str("/");
            res.append(file_path);
            res.append("?v=");
            res.append(encode_base64_url(hash.as_slice()).as_str());
            Some(res)
        },
        None => None,
    }
}

/// The headers of the answer with an asset: its tag, if it was asked for
/// by its version how long it may be kept, and its content type.
pub fn set_headers(hash: &[u8; 32], mimetype: &str, cache_busting: bool) -> (headers: Vec<
    (String, String),
>)
    ensures
        headers.deep_view() == (if cache_busting {
            seq![
                ("etag"@, etag_header_of(hash@)),
                ("cache-control"@, cache_forever()),
                ("content-type"@, mimetype@),
            ]
        } else {
            seq![("etag"@, etag_header_of(hash@)), ("content-type"@, mimetype@)]
        }),
{
    let mut headers: Vec<(String, String)> = Vec::new();
    headers.push(("etag".to_owned(), gen_etag_header(hash)));
    if cache_busting {
        headers.push(
            ("cache-control".to_owned(), "public, max-age=604800, immutable".to_owned()),
        );
    }
    headers.push(("content-type".to_owned(), mimetype.to_owned()));
    headers
}

/// The answer to a request for an asset.
#[derive(Debug, Clone, Copy, PartialEq, Eq)]
pub enum Served {
    /// 404, "Asset not found".
    AssetNotFound,
    /// 404, "Version not found".
    VersionNotFound,
    /// 400, "Invalid version query parameter".
    InvalidVersion,
    /// 304, without body, with the asset's headers.
    NotModified { cache_busting: bool },
    /// 200, with the asset as body and its headers.
    Content { cache_busting: bool },
}

/// The answer to a request for an asset: `hash` is the hash of the asset at
/// the request's path, `version` the request's `v`, `patterns` its
/// `If-None-Match`.
pub open spec fn served(
    hash: Option<Seq<u8>>,
    version: Option<Seq<char>>,
    patterns: Option<Seq<crate::web::headers::etag::EntityPatternView>>,
) -> Served {
    match hash {
        None => Served::AssetNotFound,
        Some(hash) => {
            let cache_busting = version is Some;
            if version is Some && base64_url_decoded(version->0) is None {
                Served::InvalidVersion
            } else if version is Some && base64_url_decoded(version->0) != Some(hash) {
                Served::VersionNotFound
            } else if patterns is Some && IfNoneMatch::any_matches(
                patterns->0,
                EntityTagView { weak: false, entity_tag: encode_utf8(hash_text(hash)) },
            ) {
                Served::NotModified { cache_busting }
            } else {
                Served::Content { cache_busting }
            }
        },
    }
}

/// The assets of the server.
#[derive(Debug, Clone, Copy, PartialEq, Eq)]
pub struct AssetCatalog;

impl AssetCatalog {
    pub fn new() -> Self {
        AssetCatalog
    }

    /// Answers a request for an asset. Without an asset at the path there
    /// is nothing to find. A version has to be the text of the hash of the
    /// asset. A client that holds the asset already, as its
    /// `If-None-Match` says, is told that nothing has changed.
    pub fn serve(
        &self,
        hash: Option<&[u8; 32]>,
        version: Option<&str>,
        if_none_match: Option<&IfNoneMatch>,
    ) -> (answer: Served)
        ensures
            answer == served(
                match hash {
                    Some(hash) => Some(hash@),
                    None => None,
                },
                match version {
                    Some(v) => Some(v@),
                    None => None,
                },
                match if_none_match {
                    Some(header) => Some(header.0.deep_view()),
                    None => None,
                },
            ),
    {
        let hash = match hash {
            Some(hash) => hash,
            None => {
                return Served::AssetNotFound;
            },
        };
        let cache_busting = match version {
            Some(v) => match decode_base64_url(v) {
                Some(bytes) => {
                    if same_bytes(hash.as_slice(), bytes.as_slice()) {
                        true
                    } else {
                        return Served::VersionNotFound;
                    }
                },
                None => {
                    return Served::InvalidVersion;
                },
            },
            None => false,
        };
        if let Some(header) = if_none_match {
            if !header.precondition_passes(&gen_etag(hash)) {
                return Served::NotModified { cache_busting };
            }
        }
        Served::Content { cache_busting }
    }
}

impl Default for AssetCatalog {
    fn default() -> Self {
        AssetCatalog
    }
}

/// The template helper that gives the address of an asset.
#[derive(Debug, Clone, Copy, PartialEq, Eq)]
pub struct EmbedTemplateContext;

impl EmbedTemplateContext {
    pub fn new() -> Self {
        EmbedTemplateContext
    }

    /// The address that the helper gives for its argument: `hash` is the
    /// hash of the asset under the path that the argument names, if there
    /// is one.
    pub fn call_inner(&self, param: HelperParam, hash: Option<&[u8; 32]>) -> (url: Result<
        String,
        HelperError,
    >)
        ensures
            match param {
                HelperParam::Missing => url == Err::<String, HelperError>(
                    HelperError::ParamNotFound,
                ),
                HelperParam::Other => url == Err::<String, HelperError>(
                    HelperError::InvalidParamType,
                ),
                HelperParam::Text(path) => match hash {
                    Some(hash) => url is Ok && url->Ok_0@ == asset_url_of(path@, hash@),
                    None => url == Err::<String, HelperError>(HelperError::UnknownAsset(path)),
                },
            },
    {
        match param {
            HelperParam::Missing => Err(HelperError::ParamNotFound),
            HelperParam::Other => Err(HelperError::InvalidParamType),
            HelperParam::Text(path) => match get_asset_url(path.as_str(), hash) {
                Some(url) => Ok(url),
                None => Err(HelperError::UnknownAsset(path)),
            },
        }
    }
}

} // verus!
