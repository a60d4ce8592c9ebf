use game_of_estimates::web::headers::accept_language::{
    AcceptLanguage, AcceptLanguageRejection, Language,
};
use game_of_estimates::web::i18n::{
    AcceptLanguageHelper, ContextLang, HelperError, HelperParam, I18nHelper, Translation,
};

fn languages(header: &str) -> Result<Vec<String>, ()> {
    AcceptLanguage::from_str(header).map(|h| h.languages().to_vec())
}

fn list(tags: &[&str]) -> Result<Vec<String>, ()> {
    Ok(tags.iter().map(|t| t.to_string()).collect())
}

#[test]
fn languages_come_in_the_order_of_their_bytes() {
    assert_eq!(languages("en"), list(&["en"]));
    assert_eq!(languages("fr, de ,en"), list(&["de", "en", "fr"]));
    assert_eq!(languages("en-US,en,de-CH"), list(&["de-CH", "en", "en-US"]));
    assert_eq!(languages("b,a,B,A,ab,"), list(&["", "A", "B", "a", "ab", "b"]));
    assert_eq!(languages("de,de"), list(&["de", "de"]));
}

#[test]
fn blanks_around_a_language_are_dropped() {
    assert_eq!(languages(" \ten\t , \t de"), list(&["de", "en"]));
    assert_eq!(languages(""), list(&[""]));
    assert_eq!(languages("  "), list(&[""]));
    assert_eq!(languages("e n"), list(&["e n"]));
}

#[test]
fn what_follows_the_first_semicolon_has_to_be_a_weight() {
    assert_eq!(languages("en;q=0.5"), Err(()));
    assert_eq!(languages("en;"), Err(()));
    assert_eq!(languages("de, en;x"), Err(()));
    assert_eq!(languages("en;;q=0.5"), list(&["en"]));
    assert_eq!(languages("fr; ;Q=1, de"), list(&["de", "fr"]));
    assert_eq!(languages("en ;;q=0.5"), list(&["en "]));
}

#[test]
fn languages_may_be_any_text() {
    assert_eq!(languages("zü, ä"), list(&["zü", "ä"]));
    assert_eq!(languages("日本語,a"), list(&["a", "日本語"]));
}

#[test]
fn language_and_rejection() {
    assert_eq!(Language("de").as_str(), "de");
    assert_eq!(AcceptLanguageRejection, AcceptLanguageRejection);
}

fn helper() -> AcceptLanguageHelper {
    AcceptLanguageHelper::new(vec!["de", "en", "fr"])
}

#[test]
fn first_language_on_offer_is_chosen() {
    assert_eq!(
        helper().get_language(AcceptLanguage::from_str("fr,de").ok()),
        "de"
    );
    assert_eq!(
        helper().get_language(AcceptLanguage::from_str("it,fr").ok()),
        "fr"
    );
    assert_eq!(
        helper().get_language(Some(AcceptLanguage {
            languages: vec!["fr".to_string(), "de".to_string()]
        })),
        "fr"
    );
}

#[test]
fn english_is_the_fallback() {
    assert_eq!(helper().get_language(None), "en");
    assert_eq!(
        helper().get_language(AcceptLanguage::from_str("it, es").ok()),
        "en"
    );
    assert_eq!(
        helper().get_language(AcceptLanguage::from_str("DE").ok()),
        "en"
    );
    assert_eq!(
        AcceptLanguageHelper::new(vec![]).get_language(AcceptLanguage::from_str("de").ok()),
        "en"
    );
}

fn german() -> Translation {
    Translation::new(
        "de".to_string(),
        vec![
            ("hello".to_string(), "Hallo".to_string()),
            ("bye".to_string(), "Tschüss".to_string()),
            ("hello".to_string(), "Servus".to_string()),
        ],
    )
}

#[test]
fn translation_holds_its_texts() {
    let de = german();
    assert_eq!(de.language(), "de");
    assert_eq!(de.strings().len(), 3);
    assert_eq!(de.get("hello"), Some(&"Hallo".to_string()));
    assert_eq!(de.get("bye"), Some(&"Tschüss".to_string()));
    assert_eq!(de.get("Hello"), None);
}

fn text(s: &str) -> HelperParam {
    HelperParam::Text(s.to_string())
}

fn lang(s: &str) -> ContextLang {
    ContextLang::Text(s.to_string())
}

#[test]
fn text_helper_gives_the_text_of_the_language() {
    let english = Translation::new(
        "en".to_string(),
        vec![("hello".to_string(), "Hello".to_string())],
    );
    let helper = I18nHelper::new(vec![("de", german()), ("en", english)]);
    assert_eq!(
        helper.call_inner(text("hello"), lang("de")),
        Ok("Hallo".to_string())
    );
    assert_eq!(
        helper.call_inner(text("hello"), lang("en")),
        Ok("Hello".to_string())
    );
    assert_eq!(
        helper.call_inner(text("bye"), lang("en")),
        Err(HelperError::UnknownText("bye".to_string()))
    );
    assert_eq!(
        helper.call_inner(text("bye"), lang("fr")),
        Err(HelperError::UnknownLanguage("fr".to_string()))
    );
}

#[test]
fn text_helper_names_what_is_missing() {
    let helper = I18nHelper::new(vec![("de", german())]);
    assert_eq!(
        helper.call_inner(HelperParam::Missing, lang("de")),
        Err(HelperError::ParamNotFound)
    );
    assert_eq!(
        helper.call_inner(HelperParam::Other, ContextLang::NoObject),
        Err(HelperError::InvalidParamType)
    );
    assert_eq!(
        helper.call_inner(text("hello"), ContextLang::NoObject),
        Err(HelperError::ContextNoObject)
    );
    assert_eq!(
        helper.call_inner(text("hello"), ContextLang::Missing),
        Err(HelperError::LangRequired)
    );
}

#[test]
fn header_that_has_to_be_there() {
    assert_eq!(
        AcceptLanguage::from_request_parts(Some(Some("fr,de"))).map(|h| h.languages),
        Ok(vec!["de".to_string(), "fr".to_string()])
    );
    assert_eq!(
        AcceptLanguage::from_request_parts(None),
        Err(AcceptLanguageRejection)
    );
    assert_eq!(
        AcceptLanguage::from_request_parts(Some(None)),
        Err(AcceptLanguageRejection)
    );
    assert_eq!(
        AcceptLanguage::from_request_parts(Some(Some("en;q=1"))),
        Err(AcceptLanguageRejection)
    );
    assert_eq!(
        AcceptLanguageRejection.into_response(),
        (400, "Failed to parse accept-language header")
    );
}

#[test]
fn header_that_may_be_missing() {
    assert_eq!(AcceptLanguage::optional_from_request_parts(None), Ok(None));
    assert_eq!(
        AcceptLanguage::optional_from_request_parts(Some(None)),
        Err(AcceptLanguageRejection)
    );
    assert_eq!(
        AcceptLanguage::optional_from_request_parts(Some(Some("en;"))),
        Err(AcceptLanguageRejection)
    );
    assert_eq!(
        AcceptLanguage::optional_from_request_parts(Some(Some("en"))),
        Ok(Some(AcceptLanguage {
            languages: vec!["en".to_string()]
        }))
    );
}

#[test]
fn language_of_a_request() {
    assert_eq!(helper().language_of(Some(Some("fr, it"))), Language("fr"));
    assert_eq!(helper().language_of(Some(Some("it"))), Language("en"));
    assert_eq!(helper().language_of(Some(Some("de;q=1"))), Language("en"));
    assert_eq!(helper().language_of(Some(None)), Language("en"));
    assert_eq!(helper().language_of(None), Language("en"));
}
