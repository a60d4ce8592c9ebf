//! The `Accept-Language` header: the languages a client asks for.

use vstd::prelude::*;
use vstd::slice::slice_subrange;
use vstd::string::StringSliceAdditionalSpecFns;
use vstd::utf8::{encode_utf8, valid_utf8};

use crate::web::headers::common::{ows, ows_end, weight_at, QValue, HTAB, SEMICOLON, SP};
use crate::web::headers::etag::content_end;

verus! {

pub const ITEM_COMMA: u8 = 44;

/// The language that was chosen for a request.
#[derive(Debug, Clone, Copy, PartialEq, Eq)]
pub struct Language(pub &'static str);

impl Language {
    pub fn as_str(&self) -> (tag: &'static str)
        ensures
            tag@ == self.0@,
    {
        self.0
    }
}

/// The answer to a request whose `Accept-Language` cannot be read.
#[derive(Debug, Clone, Copy, PartialEq, Eq)]
pub struct AcceptLanguageRejection;

/// The status of the answer to a request whose `Accept-Language` cannot be
/// read: 400.
pub const BAD_REQUEST: u16 = 400;

impl AcceptLanguageRejection {
    /// The status and the text of the answer.
    pub fn into_response(self) -> (answer: (u16, &'static str))
        ensures
            answer.0 == BAD_REQUEST,
            answer.1@ == "Failed to parse accept-language header"@,
    {
        (BAD_REQUEST, "Failed to parse accept-language header")
    }
}

/// The position of the first byte `lit` at or after `from` and before
/// `stop`, or `stop`.
pub open spec fn find_byte(s: Seq<u8>, from: int, stop: int, lit: u8) -> int
    decreases stop - from,
{
    if 0 <= from < stop <= s.len() && s[from] != lit {
        find_byte(s, from + 1, stop, lit)
    } else {
        from
    }
}

/// Where the item that starts at `from` ends: at the next comma or at the
/// end of the header.
pub open spec fn item_stop(s: Seq<u8>, from: int) -> int {
    find_byte(s, from, s.len() as int, ITEM_COMMA)
}

/// Where the text of the item at `from` starts, after its leading blanks.
pub open spec fn text_start(s: Seq<u8>, from: int) -> int {
    if ows_end(s, from) < item_stop(s, from) {
        ows_end(s, from)
    } else {
        item_stop(s, from)
    }
}

/// Where the text of the item at `from` ends, before its trailing blanks.
pub open spec fn text_stop(s: Seq<u8>, from: int) -> int {
    if content_end(s, item_stop(s, from)) < text_start(s, from) {
        text_start(s, from)
    } else {
        content_end(s, item_stop(s, from))
    }
}

/// Where the language of the item at `from` ends: at the first `;` of its
/// text, or at the end of its text.
pub open spec fn lang_stop(s: Seq<u8>, from: int) -> int {
    find_byte(s, text_start(s, from), text_stop(s, from), SEMICOLON)
}

/// The language of the item at `from`.
pub open spec fn lang_at(s: Seq<u8>, from: int) -> Seq<u8> {
    s.subrange(text_start(s, from), lang_stop(s, from))
}

/// Whether the item at `from` has no `;`, or a weight after its first `;`.
pub open spec fn weight_ok(s: Seq<u8>, from: int) -> bool {
    lang_stop(s, from) == text_stop(s, from) || weight_at(s, lang_stop(s, from) + 1) is Some
}

/// The languages of the items from `from` on, in the header's order;
/// `None` if an item has a `;` and no weight after it.
pub open spec fn langs_from(s: Seq<u8>, from: int) -> Option<Seq<Seq<u8>>>
    decreases s.len() - from,
{
    let end = item_stop(s, from);
    if 0 <= from <= end <= s.len() && weight_ok(s, from) {
        if end < s.len() {
            match langs_from(s, end + 1) {
                Some(more) => Some(seq![lang_at(s, from)] + more),
                None => None,
            }
        } else {
            Some(seq![lang_at(s, from)])
        }
    } else {
        None
    }
}

/// A header value that can be read: every item with a `;` has a weight
/// after it, and every language is UTF-8 text.
pub open spec fn readable(s: Seq<u8>) -> bool {
    match langs_from(s, 0) {
        Some(langs) => forall|i: int| 0 <= i < langs.len() ==> valid_utf8(#[trigger] langs[i]),
        None => false,
    }
}

/// The order of texts by their bytes: the first byte that differs decides,
/// and a text comes before those that go on after its end.
pub open spec fn lex_le(a: Seq<u8>, b: Seq<u8>) -> bool
    decreases a.len(),
{
    if a.len() == 0 {
        true
    } else if b.len() == 0 {
        false
    } else if a[0] != b[0] {
        a[0] < b[0]
    } else {
        lex_le(a.drop_first(), b.drop_first())
    }
}

/// Each text comes before or with those after it.
pub open spec fn sorted(texts: Seq<Seq<u8>>) -> bool {
    forall|i: int, j: int| 0 <= i < j < texts.len() ==> lex_le(texts[i], texts[j])
}

pub proof fn lemma_lex_le_total(a: Seq<u8>, b: Seq<u8>)
    ensures
        lex_le(a, b) || lex_le(b, a),
    decreases a.len(),
{
    if a.len() > 0 && b.len() > 0 && a[0] == b[0] {
        lemma_lex_le_total(a.drop_first(), b.drop_first());
    }
}

pub proof fn lemma_lex_le_transitive(a: Seq<u8>, b: Seq<u8>, c: Seq<u8>)
    requires
        lex_le(a, b),
        lex_le(b, c),
    ensures
        lex_le(a, c),
    decreases a.len(),
{
    if a.len() > 0 && b.len() > 0 && c.len() > 0 && a[0] == b[0] && b[0] == c[0] {
        lemma_lex_le_transitive(a.drop_first(), b.drop_first(), c.drop_first());
    }
}

/// The bytes of each text.
pub open spec fn bytes_of(texts: Seq<String>) -> Seq<Seq<u8>> {
    Seq::new(texts.len(), |i: int| encode_utf8(texts[i]@))
}

/// The parts of `s` that the ranges stand for.
pub open spec fn parts(s: Seq<u8>, ranges: Seq<(usize, usize)>) -> Seq<Seq<u8>> {
    Seq::new(ranges.len(), |i: int| s.subrange(ranges[i].0 as int, ranges[i].1 as int))
}

/// Every range lies in `s`.
pub open spec fn in_bounds(s: Seq<u8>, ranges: Seq<(usize, usize)>) -> bool {
    forall|i: int|
        0 <= i < ranges.len() ==> (#[trigger] ranges[i]).0 <= ranges[i].1 <= s.len()
}

/// `core::str::from_utf8`. Believed, as its documentation says: bytes that
/// are valid UTF-8 are given back as the text that they are, and any others
/// are refused.
#[verifier::external_body]
pub(crate) fn utf8_text(bytes: &[u8]) -> (text: Option<&str>)
    ensures
        text is Some <==> valid_utf8(bytes@),
        text matches Some(t) ==> t.spec_bytes() == bytes@,
{
    core::str::from_utf8(bytes).ok()
}

/// Finds the first byte `lit` in a part of `s`.
fn find(s: &[u8], from: usize, stop: usize, lit: u8) -> (at: usize)
    requires
        from <= stop <= s@.len(),
    ensures
        at == find_byte(s@, from as int, stop as int, lit),
        from <= at <= stop,
{
    let mut at = from;
    while at < stop && s[at] != lit
        invariant
            from <= at <= stop <= s@.len(),
            find_byte(s@, from as int, stop as int, lit) == find_byte(
                s@,
                at as int,
                stop as int,
                lit,
            ),
        decreases stop - at,
    {
        at += 1;
    }
    at
}

/// Finds the end of the content before `end`.
fn content_stop(s: &[u8], end: usize) -> (at: usize)
    requires
        end <= s@.len(),
    ensures
        at == content_end(s@, end as int),
        at <= end,
{
    let mut at = end;
    while at > 0 && (s[at - 1] == SP || s[at - 1] == HTAB)
        invariant
            at <= end <= s@.len(),
            content_end(s@, end as int) == content_end(s@, at as int),
        decreases at,
    {
        at -= 1;
    }
    at
}

/// Compares two parts of `s` by their bytes.
fn part_le(s: &[u8], a: (usize, usize), b: (usize, usize)) -> (le: bool)
    requires
        a.0 <= a.1 <= s@.len(),
        b.0 <= b.1 <= s@.len(),
    ensures
        le == lex_le(s@.subrange(a.0 as int, a.1 as int), s@.subrange(b.0 as int, b.1 as int)),
{
    let ghost left = s@.subrange(a.0 as int, a.1 as int);
    let ghost right = s@.subrange(b.0 as int, b.1 as int);
    let mut i: usize = 0;
    assert(left.skip(0) =~= left);
    assert(right.skip(0) =~= right);
    loop
        invariant
            a.0 <= a.1 <= s@.len(),
            b.0 <= b.1 <= s@.len(),
            left == s@.subrange(a.0 as int, a.1 as int),
            right == s@.subrange(b.0 as int, b.1 as int),
            i <= left.len(),
            i <= right.len(),
            lex_le(left, right) == lex_le(left.skip(i as int), right.skip(i as int)),
        decreases left.len() - i,
    {
        if i == a.1 - a.0 {
            return true;
        }
        if i == b.1 - b.0 {
            return false;
        }
        if s[a.0 + i] != s[b.0 + i] {
            return s[a.0 + i] < s[b.0 + i];
        }
        assert(left.skip(i as int).drop_first() =~= left.skip(i + 1));
        assert(right.skip(i as int).drop_first() =~= right.skip(i + 1));
        i += 1;
    }
}

/// Puts one more part in its place among parts that are in order.
fn insert_sorted(s: &[u8], ordered: &mut Vec<(usize, usize)>, part: (usize, usize))
    requires
        part.0 <= part.1 <= s@.len(),
        in_bounds(s@, old(ordered)@),
        sorted(parts(s@, old(ordered)@)),
    ensures
        in_bounds(s@, final(ordered)@),
        sorted(parts(s@, final(ordered)@)),
        parts(s@, final(ordered)@).to_multiset() == parts(s@, old(ordered)@).to_multiset().insert(
            s@.subrange(part.0 as int, part.1 as int),
        ),
{
    let ghost text = s@.subrange(part.0 as int, part.1 as int);
    let ghost before = parts(s@, ordered@);
    let mut at: usize = 0;
    while at < ordered.len() && part_le(s, ordered[at], part)
        invariant
            at <= ordered@.len(),
            ordered@ == old(ordered)@,
            in_bounds(s@, ordered@),
            part.0 <= part.1 <= s@.len(),
            text == s@.subrange(part.0 as int, part.1 as int),
            forall|k: int| 0 <= k < at ==> lex_le(parts(s@, ordered@)[k], text),
        decreases ordered@.len() - at,
    {
        at += 1;
    }
    ordered.insert(at, part);
    proof {
        let after = parts(s@, ordered@);
        assert(after =~= before.insert(at as int, text));
        assert forall|i: int, j: int| 0 <= i < j < after.len() implies lex_le(
            after[i],
            after[j],
        ) by {
            if j == at {
            } else if i == at {
                lemma_lex_le_total(before[at as int], text);
                if j - 1 > at {
                    lemma_lex_le_transitive(text, before[at as int], before[j - 1]);
                }
            }
        }
        assert(after.remove(at as int) =~= before);
        vstd::seq_lib::to_multiset_remove(after, at as int);
        after.to_multiset_ensures();
        assert(after.contains(text));
    }
}

/// The languages of an `Accept-Language` header, in the order of their
/// bytes.
#[derive(Debug, Clone, PartialEq, Eq)]
pub struct AcceptLanguage {
    pub languages: Vec<String>,
}

impl AcceptLanguage {
    pub fn languages(&self) -> (languages: &[String])
        ensures
            languages@ == self.languages@,
    {
        self.languages.as_slice()
    }

    /// The header of a request that has to have one. `header` is `None`
    /// for a request without the header, and `Some(None)` for a header
    /// that is no text.
    pub fn from_request_parts(header: Option<Option<&str>>) -> (read: Result<
        Self,
        AcceptLanguageRejection,
    >)
        ensures
            read is Ok <==> (header matches Some(Some(value)) && readable(value.spec_bytes())),
            read matches Ok(h) ==> header matches Some(Some(value)) && Self::reads(value, h),
    {
        match header {
            Some(Some(value)) => match Self::from_str(value) {
                Ok(header) => Ok(header),
                Err(_) => Err(AcceptLanguageRejection),
            },
            _ => Err(AcceptLanguageRejection),
        }
    }

    /// The header of a request that may have one. `header` is `None` for a
    /// request without the header, and `Some(None)` for a header that is
    /// no text.
    pub fn optional_from_request_parts(header: Option<Option<&str>>) -> (read: Result<
        Option<Self>,
        AcceptLanguageRejection,
    >)
        ensures
            match header {
                None => read == Ok::<Option<Self>, AcceptLanguageRejection>(None),
                Some(None) => read is Err,
                Some(Some(value)) => if readable(value.spec_bytes()) {
                    read matches Ok(Some(h)) && Self::reads(value, h)
                } else {
                    read is Err
                },
            },
    {
        match header {
            None => Ok(None),
            Some(None) => Err(AcceptLanguageRejection),
            Some(Some(value)) => match Self::from_str(value) {
                Ok(res) => Ok(Some(res)),
                Err(_) => Err(AcceptLanguageRejection),
            },
        }
    }

    /// `header` holds the languages of the value, in the order of their
    /// bytes.
    pub open spec fn reads(value: &str, header: Self) -> bool {
        &&& sorted(bytes_of(header.languages@))
        &&& bytes_of(header.languages@).to_multiset() == langs_from(
            value.spec_bytes(),
            0,
        )->0.to_multiset()
    }

    /// The languages that the header names, by ranges of its bytes, in the
    /// header's order; `None` if an item has a `;` and no weight after it.
    fn scan(bytes: &[u8]) -> (found: Option<Vec<(usize, usize)>>)
        ensures
            found is Some <==> langs_from(bytes@, 0) is Some,
            found matches Some(ranges) ==> in_bounds(bytes@, ranges@) && parts(bytes@, ranges@)
                == langs_from(bytes@, 0)->0,
    {
        let mut ranges: Vec<(usize, usize)> = Vec::new();
        let mut from: usize = 0;
        loop
            invariant
                from <= bytes@.len(),
                in_bounds(bytes@, ranges@),
                langs_from(bytes@, 0) == match langs_from(bytes@, from as int) {
                    Some(more) => Some(parts(bytes@, ranges@) + more),
                    None => None,
                },
            decreases bytes@.len() - from,
        {
            let end = find(bytes, from, bytes.len(), ITEM_COMMA);
            let blank_end = ows(bytes, from);
            let start = if blank_end < end {
                blank_end
            } else {
                end
            };
            let content = content_stop(bytes, end);
            let stop = if content < start {
                start
            } else {
                content
            };
            let semi = find(bytes, start, stop, SEMICOLON);
            if semi < stop {
                if QValue::parse_weight(bytes, semi + 1).is_none() {
                    return None;
                }
            }
            ranges.push((start, semi));
            if end < bytes.len() {
                from = end + 1;
            } else {
                return Some(ranges);
            }
        }
    }

    /// Reads a header value: a list of languages, parted by commas and with
    /// optional blanks around each; a language may have a weight after a
    /// `;`. The languages come in the order of their bytes.
    ///
    /// The value is refused if an item has a `;` and no weight after it, or
    /// if a language is no UTF-8 text.
    pub fn from_str(s: &str) -> (header: Result<Self, ()>)
        ensures
            header is Ok <==> readable(s.spec_bytes()),
            header matches Ok(h) ==> Self::reads(s, h),
    {
        let bytes = s.as_bytes();
        let ranges = match Self::scan(bytes) {
            Some(ranges) => ranges,
            None => {
                return Err(());
            },
        };
        let ghost langs = parts(bytes@, ranges@);
        let mut ordered: Vec<(usize, usize)> = Vec::new();
        let mut i: usize = 0;
        assert(ranges@.take(0) =~= Seq::empty());
        while i < ranges.len()
            invariant
                i <= ranges@.len(),
                in_bounds(bytes@, ranges@),
                in_bounds(bytes@, ordered@),
                sorted(parts(bytes@, ordered@)),
                parts(bytes@, ordered@).to_multiset() == parts(
                    bytes@,
                    ranges@.take(i as int),
                ).to_multiset(),
            decreases ranges@.len() - i,
        {
            proof {
                let head = parts(bytes@, ranges@.take(i as int));
                let text = bytes@.subrange(ranges@[i as int].0 as int, ranges@[i as int].1 as int);
                assert(parts(bytes@, ranges@.take(i + 1)) =~= head.push(text));
                vstd::seq_lib::to_multiset_build(head, text);
            }
            insert_sorted(bytes, &mut ordered, ranges[i]);
            i += 1;
        }
        assert(ranges@.take(i as int) =~= ranges@);
        let mut languages: Vec<String> = Vec::new();
        let mut k: usize = 0;
        while k < ordered.len()
            invariant
                k <= ordered@.len(),
                in_bounds(bytes@, ordered@),
                bytes@ == s.spec_bytes(),
                langs_from(bytes@, 0) == Some(langs),
                parts(bytes@, ordered@).to_multiset() == langs.to_multiset(),
                bytes_of(languages@) == parts(bytes@, ordered@).take(k as int),
                forall|j: int| 0 <= j < k ==> valid_utf8(#[trigger] parts(bytes@, ordered@)[j]),
            decreases ordered@.len() - k,
        {
            let part = ordered[k];
            let raw = slice_subrange(bytes, part.0, part.1);
            assert(raw@ == parts(bytes@, ordered@)[k as int]);
            match utf8_text(raw) {
                Some(text) => {
                    let ghost before = bytes_of(languages@);
                    languages.push(text.to_owned());
                    assert(bytes_of(languages@) =~= before.push(raw@));
                },
                None => {
                    proof {
                        let all = parts(bytes@, ordered@);
                        assert(all.to_multiset().count(raw@) > 0) by {
                            all.to_multiset_ensures();
                        }
                        langs.to_multiset_ensures();
                        let at = choose|at: int| 0 <= at < langs.len() && langs[at] == raw@;
                        let found = langs_from(s.spec_bytes(), 0);
                        assert(found->0[at] == langs[at]);
                    }
                    return Err(());
                },
            }
            k += 1;
        }
        proof {
            let all = parts(bytes@, ordered@);
            assert(all.take(k as int) =~= all);
            assert forall|i: int| 0 <= i < langs.len() implies valid_utf8(#[trigger] langs[i]) by {
                langs.to_multiset_ensures();
                all.to_multiset_ensures();
                assert(langs.to_multiset().count(langs[i]) > 0);
                let j = choose|j: int| 0 <= j < all.len() && all[j] == langs[i];
            }
        }
        Ok(AcceptLanguage { languages })
    }
}

} // verus!
