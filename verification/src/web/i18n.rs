//! Translations: which language a client gets, and the text for a key in
//! that language.

use vstd::prelude::*;
use vstd::utf8::encode_utf8;

use crate::text::same_text;
use crate::web::headers::accept_language::{readable, AcceptLanguage, Language};

verus! {

/// The language of a client that asks for none that is on offer.
pub open spec fn fallback_language() -> Seq<char> {
    "en"@
}

/// The texts of one language, each under its key.
#[derive(Debug, Clone, PartialEq, Eq)]
pub struct Translation {
    language: String,
    strings: Vec<(String, String)>,
}

/// The text under `key`: that of the first entry with the key.
pub open spec fn lookup(strings: Seq<(Seq<char>, Seq<char>)>, key: Seq<char>) -> Option<
    Seq<char>,
>
    decreases strings.len(),
{
    if strings.len() == 0 {
        None
    } else if strings[0].0 == key {
        Some(strings[0].1)
    } else {
        lookup(strings.drop_first(), key)
    }
}

impl Translation {
    pub closed spec fn spec_language(&self) -> Seq<char> {
        self.language@
    }

    pub closed spec fn spec_strings(&self) -> Seq<(Seq<char>, Seq<char>)> {
        self.strings.deep_view()
    }

    pub fn new(language: String, strings: Vec<(String, String)>) -> (translation: Self)
        ensures
            translation.spec_language() == language@,
            translation.spec_strings() == strings.deep_view(),
    {
        Self { language, strings }
    }

    pub fn language(&self) -> (language: &str)
        ensures
            language@ == self.spec_language(),
    {
        self.language.as_str()
    }

    pub fn strings(&self) -> (strings: &Vec<(String, String)>)
        ensures
            strings.deep_view() == self.spec_strings(),
    {
        &self.strings
    }

    /// The text under `key`.
    pub fn get(&self, key: &str) -> (text: Option<&String>)
        ensures
            match lookup(self.spec_strings(), key@) {
                Some(found) => text is Some && text->0@ == found,
                None => text is None,
            },
    {
        let mut i: usize = 0;
        assert(self.spec_strings().skip(0) =~= self.spec_strings());
        while i < self.strings.len()
            invariant
                i <= self.strings.len(),
                lookup(self.spec_strings(), key@) == lookup(
                    self.spec_strings().skip(i as int),
                    key@,
                ),
            decreases self.strings.len() - i,
        {
            if same_text(self.strings[i].0.as_str(), key) {
                return Some(&self.strings[i].1);
            }
            assert(self.spec_strings().skip(i as int).drop_first() =~= self.spec_strings().skip(
                i + 1,
            ));
            i += 1;
        }
        None
    }
}

/// The tags of a list of languages.
pub open spec fn tags_of(languages: Seq<&'static str>) -> Seq<Seq<char>> {
    Seq::new(languages.len(), |i: int| languages[i]@)
}

/// The first of the languages asked for that is on offer, from `from` on.
pub open spec fn first_offered(asked: Seq<Seq<char>>, offered: Seq<Seq<char>>, from: int)
    -> Option<Seq<char>>
    decreases asked.len() - from,
{
    if 0 <= from < asked.len() {
        if offered.contains(asked[from]) {
            Some(asked[from])
        } else {
            first_offered(asked, offered, from + 1)
        }
    } else {
        None
    }
}

/// The language for a client: the first it asks for that is on offer,
/// else [`fallback_language`].
pub open spec fn negotiated(asked: Option<Seq<Seq<char>>>, offered: Seq<Seq<char>>) -> Seq<char> {
    match asked {
        Some(asked) => match first_offered(asked, offered, 0) {
            Some(tag) => tag,
            None => fallback_language(),
        },
        None => fallback_language(),
    }
}

/// Chooses the language for a request.
#[derive(Debug, Clone, PartialEq, Eq)]
pub struct AcceptLanguageHelper {
    translations: Vec<&'static str>,
}

impl AcceptLanguageHelper {
    /// The tags of the languages on offer.
    pub closed spec fn offered(&self) -> Seq<Seq<char>> {
        tags_of(self.translations@)
    }

    pub fn new(translations: Vec<&'static str>) -> (helper: Self)
        ensures
            helper.offered() == tags_of(translations@),
    {
        Self { translations }
    }

    /// The language on offer with this tag, if there is one.
    fn find(&self, tag: &str) -> (found: Option<&'static str>)
        ensures
            found is Some <==> self.offered().contains(tag@),
            found matches Some(t) ==> t@ == tag@,
    {
        let mut i: usize = 0;
        while i < self.translations.len()
            invariant
                i <= self.translations.len(),
                forall|k: int| 0 <= k < i ==> self.offered()[k] != tag@,
            decreases self.translations.len() - i,
        {
            if same_text(self.translations[i], tag) {
                assert(self.offered()[i as int] == tag@);
                return Some(self.translations[i]);
            }
            i += 1;
        }
        None
    }

    /// The language for a client that asks for `languages`: the first of
    /// them that is on offer, else English.
    pub fn get_language(&self, languages: Option<AcceptLanguage>) -> (tag: &'static str)
        ensures
            tag@ == negotiated(
                match languages {
                    Some(asked) => Some(asked.languages.deep_view()),
                    None => None,
                },
                self.offered(),
            ),
    {
        if let Some(asked) = languages {
            let mut i: usize = 0;
            while i < asked.languages.len()
                invariant
                    i <= asked.languages.len(),
                    languages == Some(asked),
                    first_offered(asked.languages.deep_view(), self.offered(), 0) == first_offered(
                        asked.languages.deep_view(),
                        self.offered(),
                        i as int,
                    ),
                decreases asked.languages.len() - i,
            {
                if let Some(tag) = self.find(asked.languages[i].as_str()) {
                    return tag;
                }
                i += 1;
            }
        }
        "en"
    }
}

impl AcceptLanguageHelper {
    /// `tag` is the language for a request with this `Accept-Language`:
    /// the one negotiated for the languages that the header holds, or the
    /// fallback where there is no header or none that can be read.
    pub open spec fn chooses(&self, header: Option<Option<&str>>, tag: Seq<char>) -> bool {
        match header {
            Some(Some(value)) if readable(encode_utf8(value@)) => exists|asked: AcceptLanguage|
                #[trigger] AcceptLanguage::reads(value, asked) && tag == negotiated(
                    Some(asked.languages.deep_view()),
                    self.offered(),
                ),
            _ => tag == fallback_language(),
        }
    }

    /// The language for a request. `header` is its `Accept-Language`:
    /// `None` for a request without the header, and `Some(None)` for a header
    /// that is no text.
    pub fn language_of(&self, header: Option<Option<&str>>) -> (language: Language)
        ensures
            self.chooses(header, language.0@),
    {
        let accepted = match header {
            Some(Some(value)) => match AcceptLanguage::from_str(value) {
                Ok(asked) => Some(asked),
                Err(_) => None,
            },
            _ => None,
        };
        Language(self.get_language(accepted))
    }
}

/// What a template hands to a helper as its first argument.
#[derive(Debug, Clone, PartialEq, Eq)]
pub enum HelperParam {
    Missing,
    Text(String),
    /// A value that is no text.
    Other,
}

/// What the data of a template holds under `lang`.
#[derive(Debug, Clone, PartialEq, Eq)]
pub enum ContextLang {
    Text(String),
    /// The data is an object without a text under `lang`.
    Missing,
    /// The data is no object.
    NoObject,
}

/// Why a helper gives no text.
#[derive(Debug, Clone, PartialEq, Eq)]
pub enum HelperError {
    /// The helper was called without argument.
    ParamNotFound,
    /// The helper's argument is no text.
    InvalidParamType,
    /// The template's data has no language.
    LangRequired,
    /// The template's data is no object.
    ContextNoObject,
    /// There is no translation for the language.
    UnknownLanguage(String),
    /// The language has no text under the key.
    UnknownText(String),
    /// There is no asset under the path.
    UnknownAsset(String),
}

/// The view of a list of translations, each under its language's tag.
pub open spec fn catalog_of(translations: Seq<(&'static str, Translation)>) -> Seq<
    (Seq<char>, Seq<(Seq<char>, Seq<char>)>),
> {
    Seq::new(
        translations.len(),
        |i: int| (translations[i].0@, translations[i].1.spec_strings()),
    )
}

/// The texts of the language `lang`: those of the first entry with the tag.
pub open spec fn texts_of(
    catalog: Seq<(Seq<char>, Seq<(Seq<char>, Seq<char>)>)>,
    lang: Seq<char>,
    from: int,
) -> Option<Seq<(Seq<char>, Seq<char>)>>
    decreases catalog.len() - from,
{
    if 0 <= from < catalog.len() {
        if catalog[from].0 == lang {
            Some(catalog[from].1)
        } else {
            texts_of(catalog, lang, from + 1)
        }
    } else {
        None
    }
}

/// The template helper that gives the text for a key in the language of the
/// template's data.
#[derive(Debug, Clone, PartialEq, Eq)]
pub struct I18nHelper {
    translations: Vec<(&'static str, Translation)>,
}

impl I18nHelper {
    pub closed spec fn catalog(&self) -> Seq<(Seq<char>, Seq<(Seq<char>, Seq<char>)>)> {
        catalog_of(self.translations@)
    }

    pub fn new(translations: Vec<(&'static str, Translation)>) -> (helper: Self)
        ensures
            helper.catalog() == catalog_of(translations@),
    {
        Self { translations }
    }

    /// The translation of the language `lang`.
    fn translation(&self, lang: &str) -> (found: Option<&Translation>)
        ensures
            match texts_of(self.catalog(), lang@, 0) {
                Some(texts) => found is Some && found->0.spec_strings() == texts,
                None => found is None,
            },
    {
        let mut i: usize = 0;
        while i < self.translations.len()
            invariant
                i <= self.translations.len(),
                texts_of(self.catalog(), lang@, 0) == texts_of(self.catalog(), lang@, i as int),
            decreases self.translations.len() - i,
        {
            if same_text(self.translations[i].0, lang) {
                return Some(&self.translations[i].1);
            }
            i += 1;
        }
        None
    }

    /// The text that the helper gives: the one under the key `param` in the
    /// language `lang`. Each thing that is missing has its own error, asked
    /// for in this order: the argument, its kind, the data's kind, the
    /// language, the translation, the text.
    pub fn call_inner(&self, param: HelperParam, lang: ContextLang) -> (text: Result<
        String,
        HelperError,
    >)
        ensures
            match (param, lang) {
                (HelperParam::Missing, _) => text == Err::<String, HelperError>(
                    HelperError::ParamNotFound,
                ),
                (HelperParam::Other, _) => text == Err::<String, HelperError>(
                    HelperError::InvalidParamType,
                ),
                (HelperParam::Text(_), ContextLang::NoObject) => text == Err::<
                    String,
                    HelperError,
                >(HelperError::ContextNoObject),
                (HelperParam::Text(_), ContextLang::Missing) => text == Err::<String, HelperError>(
                    HelperError::LangRequired,
                ),
                (HelperParam::Text(key), ContextLang::Text(lang)) => match texts_of(
                    self.catalog(),
                    lang@,
                    0,
                ) {
                    None => text == Err::<String, HelperError>(HelperError::UnknownLanguage(lang)),
                    Some(texts) => match lookup(texts, key@) {
                        None => text == Err::<String, HelperError>(HelperError::UnknownText(key)),
                        Some(found) => text is Ok && text->Ok_0@ == found,
                    },
                },
            },
    {
        let key = match param {
            HelperParam::Missing => {
                return Err(HelperError::ParamNotFound);
            },
            HelperParam::Other => {
                return Err(HelperError::InvalidParamType);
            },
            HelperParam::Text(key) => key,
        };
        let lang = match lang {
            ContextLang::NoObject => {
                return Err(HelperError::ContextNoObject);
            },
            ContextLang::Missing => {
                return Err(HelperError::LangRequired);
            },
            ContextLang::Text(lang) => lang,
        };
        let translation = match self.translation(lang.as_str()) {
            Some(translation) => translation,
            None => {
                return Err(HelperError::UnknownLanguage(lang));
            },
        };
        match translation.get(key.as_str()) {
            Some(text) => Ok(text.clone()),
            None => Err(HelperError::UnknownText(key)),
        }
    }
}

} // verus!
