use game_of_estimates::ports::{DatabaseUrl, DbError};
use game_of_estimates::web::compress::{
    and, compress, And, CompressionPlan, CompressionPredicate, DefaultPredicate,
    NotForCompressedContentTypes, ResponseFacts, SizeAbove,
};
use game_of_estimates::web::embed::{
    gen_etag, gen_etag_header, get_asset_url, set_headers, AssetCatalog, EmbedTemplateContext,
    Served,
};
use game_of_estimates::web::headers::accept_encoding::{AcceptEncoding, Coding};
use game_of_estimates::web::headers::common::QValue;
use game_of_estimates::web::headers::etag::{ETag, IfNoneMatch};
use game_of_estimates::web::headers::Header;
use game_of_estimates::web::lobby::{requested_deck, room_url};
use game_of_estimates::web::handlebars::{Template, TemplateRenderRejection};
use game_of_estimates::web::i18n::{HelperError, HelperParam};
use game_of_estimates::web::see_other::SeeOther;

const HASH: [u8; 32] = [
    0, 1, 2, 3, 4, 5, 6, 7, 8, 9, 10, 11, 12, 13, 14, 15, 16, 17, 18, 19, 20, 21, 22, 23, 24, 25,
    26, 27, 28, 29, 30, 31,
];
const HASH_TEXT: &str = "AAECAwQFBgcICQoLDA0ODxAREhMUFRYXGBkaGxwdHh8";

fn facts(preset_size: Option<usize>, content_type: Option<(&str, &str)>) -> ResponseFacts {
    ResponseFacts {
        preset_size,
        content_type: content_type.map(|(top, sub)| (top.to_string(), sub.to_string())),
    }
}

#[test]
fn see_other_answers_with_303_and_location() {
    let answer = SeeOther::new("/room/R".to_string());
    assert_eq!(answer.location, "/room/R");
    assert_eq!(
        answer.respond_to(),
        (303, ("location".to_string(), "/room/R".to_string()))
    );
}

#[test]
fn store_failure_keeps_its_words() {
    assert_eq!(DbError("pool timed out".to_string()).to_string(), "pool timed out");
    assert_eq!(DatabaseUrl("postgres://x".to_string()).0, "postgres://x");
}

#[test]
fn size_above() {
    assert!(SizeAbove(256).should_compress(&facts(Some(256), None)));
    assert!(!SizeAbove(256).should_compress(&facts(Some(255), None)));
    assert!(SizeAbove(256).should_compress(&facts(None, None)));
}

#[test]
fn svg_is_not_compressed() {
    let p = NotForCompressedContentTypes;
    assert!(!p.should_compress(&facts(None, Some(("image", "svg+xml")))));
    assert!(!p.should_compress(&facts(None, Some(("Image", "SVG+XML")))));
    assert!(p.should_compress(&facts(None, Some(("image", "png")))));
    assert!(p.should_compress(&facts(None, Some(("text", "svg+xml")))));
    assert!(p.should_compress(&facts(None, Some(("image", "svg+xmlx")))));
    assert!(p.should_compress(&facts(None, None)));
}

#[test]
fn default_predicate_wants_both() {
    let p = DefaultPredicate::default();
    assert_eq!(
        p,
        DefaultPredicate(And(SizeAbove(256), NotForCompressedContentTypes))
    );
    assert!(p.should_compress(&facts(Some(1000), Some(("text", "html")))));
    assert!(!p.should_compress(&facts(Some(100), Some(("text", "html")))));
    assert!(!p.should_compress(&facts(Some(1000), Some(("image", "svg+xml")))));
    let both = and(SizeAbove(10), SizeAbove(20));
    assert!(!both.should_compress(&facts(Some(15), None)));
    assert!(both.should_compress(&facts(Some(20), None)));
}

#[test]
fn compression_follows_accept_encoding() {
    let gzip = AcceptEncoding::from_str("gzip").unwrap();
    assert_eq!(compress(false, Some(gzip)), CompressionPlan::Encode(Coding::Gzip));
    assert_eq!(compress(true, Some(gzip)), CompressionPlan::Leave);

    let any = AcceptEncoding::from_str("*").unwrap();
    assert_eq!(
        compress(false, Some(any)),
        CompressionPlan::Encode(Coding::Zstandard)
    );
    let weighted = AcceptEncoding::from_str("gzip;q=0.5, br;q=0.8, deflate;q=0.8").unwrap();
    assert_eq!(
        compress(false, Some(weighted)),
        CompressionPlan::Encode(Coding::Brotli)
    );
}

#[test]
fn without_a_coding_the_response_is_left_or_refused() {
    assert_eq!(compress(false, None), CompressionPlan::Leave);
    assert_eq!(
        compress(false, Some(AcceptEncoding::empty())),
        CompressionPlan::Leave
    );
    let nothing = AcceptEncoding {
        asterisk: Some(QValue(0)),
        ..AcceptEncoding::empty()
    };
    assert_eq!(
        compress(false, Some(nothing)),
        CompressionPlan::NotAcceptable("zstd, br, gzip, deflate".to_string())
    );
    let no_identity = AcceptEncoding::from_str("identity;q=0, snappy").unwrap();
    assert_eq!(
        compress(false, Some(no_identity)),
        CompressionPlan::NotAcceptable("zstd, br, gzip, deflate".to_string())
    );
}

#[test]
fn asset_tag_and_address_carry_the_hash() {
    assert_eq!(gen_etag_header(&HASH), format!("\"{}\"", HASH_TEXT));
    assert_eq!(gen_etag(&HASH), ETag::new_strong(HASH_TEXT.as_bytes().to_vec()));
    assert_eq!(
        get_asset_url("assets/room.js", Some(&HASH)),
        Some(format!("/assets/room.js?v={}", HASH_TEXT))
    );
    assert_eq!(get_asset_url("assets/room.js", None), None);
}

#[test]
fn asset_headers() {
    let pair = |a: &str, b: &str| (a.to_string(), b.to_string());
    let etag = format!("\"{}\"", HASH_TEXT);
    assert_eq!(
        set_headers(&HASH, "text/css", false),
        vec![pair("etag", &etag), pair("content-type", "text/css")]
    );
    assert_eq!(
        set_headers(&HASH, "text/css", true),
        vec![
            pair("etag", &etag),
            pair("cache-control", "public, max-age=604800, immutable"),
            pair("content-type", "text/css")
        ]
    );
}

#[test]
fn serving_an_asset() {
    let catalog = AssetCatalog::new();
    assert_eq!(catalog.serve(None, None, None), Served::AssetNotFound);
    assert_eq!(
        catalog.serve(None, Some(HASH_TEXT), None),
        Served::AssetNotFound
    );
    assert_eq!(
        catalog.serve(Some(&HASH), None, None),
        Served::Content {
            cache_busting: false
        }
    );
    assert_eq!(
        catalog.serve(Some(&HASH), Some(HASH_TEXT), None),
        Served::Content {
            cache_busting: true
        }
    );
    assert_eq!(
        catalog.serve(Some(&HASH), Some("AAEC"), None),
        Served::VersionNotFound
    );
    assert_eq!(
        catalog.serve(Some(&HASH), Some("not base64!"), None),
        Served::InvalidVersion
    );
}

#[test]
fn serving_an_asset_that_the_client_holds() {
    let catalog = AssetCatalog::default();
    let held = format!("\"{}\"", HASH_TEXT);
    let same = IfNoneMatch::decode(&[held.as_bytes()]).unwrap();
    let other = IfNoneMatch::decode(&[&b"\"other\""[..]]).unwrap();
    assert_eq!(
        catalog.serve(Some(&HASH), None, Some(&same)),
        Served::NotModified {
            cache_busting: false
        }
    );
    assert_eq!(
        catalog.serve(Some(&HASH), Some(HASH_TEXT), Some(&same)),
        Served::NotModified {
            cache_busting: true
        }
    );
    assert_eq!(
        catalog.serve(Some(&HASH), None, Some(&other)),
        Served::Content {
            cache_busting: false
        }
    );
    assert_eq!(
        catalog.serve(Some(&HASH), Some("AAEC"), Some(&same)),
        Served::VersionNotFound
    );
}

#[test]
fn asset_helper() {
    let helper = EmbedTemplateContext::new();
    assert_eq!(
        helper.call_inner(HelperParam::Text("a.js".to_string()), Some(&HASH)),
        Ok(format!("/a.js?v={}", HASH_TEXT))
    );
    assert_eq!(
        helper.call_inner(HelperParam::Text("a.js".to_string()), None),
        Err(HelperError::UnknownAsset("a.js".to_string()))
    );
    assert_eq!(
        helper.call_inner(HelperParam::Missing, Some(&HASH)),
        Err(HelperError::ParamNotFound)
    );
    assert_eq!(
        helper.call_inner(HelperParam::Other, None),
        Err(HelperError::InvalidParamType)
    );
}

#[test]
fn form_names_a_deck_or_brings_its_own() {
    assert_eq!(
        requested_deck("fibonacci", None),
        Some("fibonacci".to_string())
    );
    assert_eq!(
        requested_deck("fibonacci", Some("1,2,3")),
        Some("fibonacci".to_string())
    );
    assert_eq!(
        requested_deck("custom", Some("S,M,L")),
        Some("custom:S,M,L".to_string())
    );
    assert_eq!(requested_deck("custom", Some("")), Some("custom:".to_string()));
    assert_eq!(requested_deck("custom", None), None);
    assert_eq!(requested_deck("Custom", None), Some("Custom".to_string()));
    assert_eq!(room_url("AAEC"), "/room/AAEC");
}

#[test]
fn template_that_fails_to_render() {
    let rejection = TemplateRenderRejection {
        name: "lobby.html".to_string(),
        err: "unclosed tag".to_string(),
    };
    assert_eq!(
        rejection.into_response(),
        (
            500,
            "Template 'lobby.html' failed to render: unclosed tag".to_string()
        )
    );
    let page = Template::html("room.html".to_string());
    assert_eq!(page.name, "room.html");
    assert_eq!(page.content_type, "text/html; charset=utf-8");
}
