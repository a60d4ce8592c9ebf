use game_of_estimates::web::headers::accept_encoding::{
    qagg, AcceptEncoding, Coding, CodingDirective,
};
use game_of_estimates::web::headers::{typed_get, typed_try_get, Header, InvalidHeaderValue};
use game_of_estimates::web::headers::common::QValue;

use game_of_estimates::web::headers::accept_encoding::Coding::{
    Deflate, Gzip, Identity, Zstandard,
};

/// The quality value nearest to a fraction between 0 and 1.
fn q(value: f32) -> QValue {
    assert!((0.0..=1.0).contains(&value));
    QValue::from_thousandths((value * 1000.0).round() as u16).unwrap()
}

#[test]
fn test_two() {
    let acceptable = AcceptEncoding::from_str("deflate, gzip");
    let expect = AcceptEncoding {
        identity: None,
        gzip: Some(QValue::default()),
        deflate: Some(QValue::default()),
        zstd: None,
        brotli: None,
        asterisk: None,
    };
    assert_eq!(Ok(expect), acceptable);
}

#[test]
fn test_empty() {
    let acceptable = AcceptEncoding::from_str("");

    assert_eq!(Ok(AcceptEncoding::empty()), acceptable);
}

#[test]
fn test_asterisk() {
    let acceptable = AcceptEncoding::from_str("*");

    let expect = AcceptEncoding {
        identity: None,
        gzip: None,
        deflate: None,
        zstd: None,
        brotli: None,
        asterisk: Some(QValue::default()),
    };

    assert_eq!(Ok(expect), acceptable);
}

#[test]
fn test_with_weight() {
    let acceptable = AcceptEncoding::from_str("deflate;q=0.5, gzip;q=1.0");

    let expect = AcceptEncoding {
        identity: None,
        gzip: Some(QValue::max()),
        deflate: Some(q(0.5)),
        zstd: None,
        brotli: None,
        asterisk: None,
    };

    assert_eq!(Ok(expect), acceptable);
}

#[test]
fn test_with_weight_2() {
    let acceptable = AcceptEncoding::from_str("gzip;q=1.0, identity; q=0.5, *;q=0");

    let expect = AcceptEncoding {
        identity: Some(q(0.5)),
        gzip: Some(QValue::max()),
        deflate: None,
        zstd: None,
        brotli: None,
        asterisk: Some(QValue::unacceptable()),
    };

    assert_eq!(Ok(expect), acceptable);
}

#[test]
fn test_aggregate_unacceptable() {
    let acceptable = AcceptEncoding::from_str("gzip;q=0.1, gzip;q=0, gzip");

    let expect = AcceptEncoding {
        identity: None,
        gzip: Some(QValue::unacceptable()),
        deflate: None,
        zstd: None,
        brotli: None,
        asterisk: None,
    };

    assert_eq!(Ok(expect), acceptable);
}

#[test]
fn test_aggregate() {
    let acceptable =
        AcceptEncoding::from_str("gzip;q=0.1, gzip;q=0.5, gzip;q=0.9, gzip;q=0.01");

    let expect = AcceptEncoding {
        identity: None,
        gzip: Some(q(0.9)),
        deflate: None,
        zstd: None,
        brotli: None,
        asterisk: None,
    };

    assert_eq!(Ok(expect), acceptable);
}

#[test]
fn test_unknown() {
    let acceptable = AcceptEncoding::from_str("snappy");

    let expect = AcceptEncoding {
        identity: None,
        gzip: None,
        deflate: None,
        zstd: None,
        brotli: None,
        asterisk: None,
    };

    assert_eq!(Ok(expect), acceptable);
}

#[test]
fn test_non_provided() {
    let accept = AcceptEncoding {
        identity: None,
        gzip: Some(q(0.1)),
        deflate: Some(q(0.1)),
        zstd: None,
        brotli: None,
        asterisk: None,
    };

    let actual = accept.match_one_of(&[]);

    assert_eq!(Some(Identity), actual);
}

#[test]
fn test_non_accepted() {
    let accept = AcceptEncoding::empty();

    let actual = accept.match_one_of(&[Gzip, Deflate]);

    assert_eq!(Some(Identity), actual);
}

#[test]
fn test_only_one() {
    let accept = AcceptEncoding {
        identity: None,
        gzip: Some(q(0.1)),
        deflate: None,
        zstd: None,
        brotli: None,
        asterisk: None,
    };

    let actual = accept.match_one_of(&[Gzip]);

    assert_eq!(Some(Gzip), actual);
}

#[test]
fn test_only_one_forbidden() {
    let accept = AcceptEncoding {
        identity: None,
        gzip: Some(QValue::unacceptable()),
        deflate: None,
        zstd: None,
        brotli: None,
        asterisk: None,
    };

    let actual = accept.match_one_of(&[Gzip]);

    assert_eq!(Some(Identity), actual);
}

#[test]
fn test_all_forbidden() {
    let accept = AcceptEncoding {
        identity: None,
        gzip: None,
        deflate: None,
        zstd: None,
        brotli: None,
        asterisk: Some(QValue::unacceptable()),
    };

    let actual = accept.match_one_of(&[Gzip]);

    assert_eq!(None, actual);
}

#[test]
fn test_unknown_forbidden() {
    let accept = AcceptEncoding {
        identity: None,
        gzip: Some(q(0.1)),
        deflate: None,
        zstd: None,
        brotli: None,
        asterisk: Some(QValue::unacceptable()),
    };

    let actual = accept.match_one_of(&[Deflate]);

    assert_eq!(None, actual);
}

#[test]
fn test_accept_only_known() {
    let accept = AcceptEncoding {
        identity: None,
        gzip: Some(q(0.1)),
        deflate: None,
        zstd: None,
        brotli: None,
        asterisk: Some(QValue::unacceptable()),
    };

    let actual = accept.match_one_of(&[Gzip]);

    assert_eq!(Some(Gzip), actual);
}

#[test]
fn test_prefer_provided() {
    let accept = AcceptEncoding {
        identity: None,
        gzip: Some(QValue::default()),
        deflate: Some(QValue::default()),
        zstd: None,
        brotli: None,
        asterisk: None,
    };

    let actual = accept.match_one_of(&[Gzip, Deflate]);

    assert_eq!(Some(Gzip), actual);
}

#[test]
fn test_consider_weight() {
    let accept = AcceptEncoding {
        identity: None,
        gzip: Some(QValue::default()),
        deflate: Some(q(0.5)),
        zstd: None,
        brotli: None,
        asterisk: Some(QValue::unacceptable()),
    };

    let actual = accept.match_one_of(&[Zstandard, Deflate, Gzip]);

    assert_eq!(Some(Gzip), actual);
}

#[test]
fn test_use_any() {
    let accept = AcceptEncoding {
        identity: None,
        gzip: None,
        deflate: None,
        zstd: None,
        brotli: None,
        asterisk: Some(QValue::default()),
    };

    let actual = accept.match_one_of(&[Gzip, Deflate]);

    assert_eq!(Some(Gzip), actual);
}

#[test]
fn test_use_any_but_not_this() {
    let accept = AcceptEncoding {
        identity: None,
        gzip: Some(QValue::unacceptable()),
        deflate: None,
        zstd: None,
        brotli: None,
        asterisk: Some(QValue::default()),
    };

    let actual = accept.match_one_of(&[Gzip]);

    assert_eq!(Some(Identity), actual);
}

#[test]
fn test_identity_fallback_1() {
    let accept = AcceptEncoding {
        identity: None,
        gzip: Some(q(0.2)),
        deflate: None,
        zstd: None,
        brotli: None,
        asterisk: None,
    };

    let actual = accept.match_one_of(&[Zstandard]);

    assert_eq!(Some(Identity), actual);
}

#[test]
fn test_identity_fallback_2() {
    let accept = AcceptEncoding {
        identity: Some(q(0.1)),
        gzip: Some(q(0.2)),
        deflate: None,
        zstd: None,
        brotli: None,
        asterisk: Some(QValue::unacceptable()),
    };

    let actual = accept.match_one_of(&[Zstandard]);

    assert_eq!(Some(Identity), actual);
}

#[test]
fn test_no_identity_fallback_1() {
    let accept = AcceptEncoding {
        identity: Some(QValue::unacceptable()),
        gzip: Some(q(0.2)),
        deflate: None,
        zstd: None,
        brotli: None,
        asterisk: None,
    };

    let actual = accept.match_one_of(&[Zstandard]);

    assert_eq!(None, actual);
}

#[test]
fn test_no_identity_fallback_2() {
    let accept = AcceptEncoding {
        identity: None,
        gzip: Some(q(0.2)),
        deflate: None,
        zstd: None,
        brotli: None,
        asterisk: Some(QValue::unacceptable()),
    };

    let actual = accept.match_one_of(&[Zstandard]);

    assert_eq!(None, actual);
}

#[test]
fn coding_names() {
    assert_eq!(Coding::Identity.as_str(), "identity");
    assert_eq!(Gzip.as_str(), "gzip");
    assert_eq!(Deflate.as_str(), "deflate");
    assert_eq!(Coding::Brotli.as_str(), "br");
    assert_eq!(Zstandard.as_str(), "zstd");
}

#[test]
fn coding_parse_ignores_case_and_knows_x_gzip() {
    assert_eq!(Coding::parse(b"GZip, br", 0), Some((4, Gzip)));
    assert_eq!(Coding::parse(b"x-gzip", 0), Some((6, Gzip)));
    assert_eq!(Coding::parse(b"a br", 2), Some((4, Coding::Brotli)));
    assert_eq!(Coding::parse(b"snappy", 0), None);
    assert_eq!(Coding::parse(b"gzi", 0), None);
}

#[test]
fn slice_starts_with_is_a_prefix_test() {
    assert_eq!(Coding::slice_starts_with(b"Deflate;q=1", 0, "deflate"), Some(7));
    assert_eq!(Coding::slice_starts_with(b"deflat", 0, "deflate"), None);
    assert_eq!(Coding::slice_starts_with(b"xdeflate", 1, "deflate"), Some(8));
}

#[test]
fn directive_from_str_takes_the_whole_text() {
    assert_eq!(CodingDirective::from_str("*"), Ok(CodingDirective::Asterisk));
    assert_eq!(
        CodingDirective::from_str("br"),
        Ok(CodingDirective::Coding(Coding::Brotli))
    );
    assert_eq!(CodingDirective::from_str("snappy"), Ok(CodingDirective::Unknown));
    assert_eq!(CodingDirective::from_str("brotli"), Err(()));
    assert_eq!(CodingDirective::from_str(""), Err(()));
    assert_eq!(CodingDirective::Asterisk.as_str(), "*");
    assert_eq!(CodingDirective::Unknown.as_str(), "<unknown>");
    assert_eq!(CodingDirective::Coding(Gzip).as_str(), "gzip");
}

#[test]
fn qagg_keeps_the_higher_weight_and_zero_wins() {
    assert_eq!(qagg(None, QValue(300)), QValue(300));
    assert_eq!(qagg(Some(QValue(500)), QValue(300)), QValue(500));
    assert_eq!(qagg(Some(QValue(200)), QValue(300)), QValue(300));
    assert_eq!(qagg(Some(QValue(0)), QValue(300)), QValue(0));
    assert_eq!(qagg(Some(QValue(200)), QValue(0)), QValue(0));
}

#[test]
fn header_with_text_after_the_list_is_refused() {
    assert_eq!(AcceptEncoding::from_str("gzip;"), Err(()));
    assert_eq!(AcceptEncoding::from_str("gzip deflate"), Err(()));
    assert_eq!(AcceptEncoding::from_str("brotli"), Err(()));
    assert_eq!(AcceptEncoding::from_str("gzip;q=2"), Err(()));
}

#[test]
fn list_may_start_with_a_comma() {
    let expect = AcceptEncoding {
        gzip: Some(QValue::max()),
        ..AcceptEncoding::empty()
    };
    assert_eq!(AcceptEncoding::from_str(", gzip"), Ok(expect));
}

#[test]
fn weight_takes_blanks_around_the_semicolon_and_a_capital_q() {
    let expect = AcceptEncoding {
        zstd: Some(QValue(250)),
        brotli: Some(QValue(1)),
        ..AcceptEncoding::empty()
    };
    assert_eq!(
        AcceptEncoding::from_str("zstd \t; Q=0.25 ,br;q=0.001"),
        Ok(expect)
    );
}

#[test]
fn missing_header_takes_content_as_it_is() {
    let said = AcceptEncoding::decode(&[]).unwrap();
    assert_eq!(said, AcceptEncoding::default());
    assert_eq!(said.identity, Some(QValue(1000)));
    assert_eq!(said.match_one_of(&[Gzip]), Some(Identity));
    assert_eq!(
        AcceptEncoding::decode(&[&b"gzip;"[..]]),
        Err(InvalidHeaderValue)
    );
    assert_eq!(
        AcceptEncoding::decode(&[&b"gzip"[..], &b"br;"[..]])
            .unwrap()
            .gzip,
        Some(QValue::max())
    );
    assert_eq!(AcceptEncoding::name(), "Accept-Encoding");
}

#[test]
fn first_of_equal_weights_is_chosen() {
    let accept = AcceptEncoding {
        gzip: Some(q(0.5)),
        deflate: Some(q(0.5)),
        zstd: Some(q(0.3)),
        ..AcceptEncoding::empty()
    };
    assert_eq!(accept.match_one_of(&[Zstandard, Deflate, Gzip]), Some(Deflate));
    assert_eq!(accept.find_qvalue(Zstandard), QValue(300));
    assert_eq!(accept.find_qvalue(Coding::Brotli), QValue(0));
    assert!(accept.is_identity_acceptable());
}

#[test]
fn typed_header_is_none_without_values() {
    assert_eq!(typed_try_get::<AcceptEncoding>(&[]), Ok(None));
    assert_eq!(typed_get::<AcceptEncoding>(&[]), None);
    assert_eq!(
        typed_try_get::<AcceptEncoding>(&[&b"br"[..]]),
        Ok(Some(AcceptEncoding {
            brotli: Some(QValue::max()),
            ..AcceptEncoding::empty()
        }))
    );
    assert_eq!(
        typed_try_get::<AcceptEncoding>(&[&b"br;"[..]]),
        Err(InvalidHeaderValue)
    );
    assert_eq!(typed_get::<AcceptEncoding>(&[&b"br;"[..]]), None);
    assert_eq!(
        AcceptEncoding::from_bytes(b"identity;q=0"),
        Ok(AcceptEncoding {
            identity: Some(QValue(0)),
            ..AcceptEncoding::empty()
        })
    );
}
