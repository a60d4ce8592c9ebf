//! Entity tags: the `ETag` of a response and the `If-None-Match` of a
//! request.

use vstd::prelude::*;
use vstd::slice::slice_subrange;

use crate::text::same_bytes;
use crate::web::headers::common::{is_ows, ows, ows_end, HTAB, SP};
use crate::web::headers::{values_of, Header, InvalidHeaderValue};

verus! {

pub const QUOTE: u8 = 34;

pub const STAR: u8 = 42;

pub const LIST_COMMA: u8 = 44;

pub const SLASH: u8 = 47;

pub const UPPER_W: u8 = 87;

/// An entity tag: an opaque run of bytes, and whether it is weak.
#[derive(Debug, Clone, PartialEq, Eq)]
pub struct EntityTag {
    pub weak: bool,
    pub entity_tag: Vec<u8>,
}

/// The mathematical value of an [`EntityTag`].
pub struct EntityTagView {
    pub weak: bool,
    pub entity_tag: Seq<u8>,
}

impl View for EntityTag {
    type V = EntityTagView;

    open spec fn view(&self) -> EntityTagView {
        EntityTagView { weak: self.weak, entity_tag: self.entity_tag@ }
    }
}

impl DeepView for EntityTag {
    type V = EntityTagView;

    open spec fn deep_view(&self) -> EntityTagView {
        self@
    }
}

impl EntityTagView {
    /// The tag as it stands in a header: the bytes in double quotes, with
    /// `W/` before them if the tag is weak.
    pub open spec fn written(self) -> Seq<u8> {
        (if self.weak {
            seq![UPPER_W, SLASH, QUOTE]
        } else {
            seq![QUOTE]
        }) + self.entity_tag + seq![QUOTE]
    }

    /// The tag that stands in a header value: the value ends with a double
    /// quote and starts with another one, or with `W/` and another one;
    /// what is between the two is the tag.
    pub open spec fn read(input: Seq<u8>) -> Option<EntityTagView> {
        if input.len() < 2 || input.last() != QUOTE {
            None
        } else if input[0] == QUOTE {
            Some(EntityTagView { weak: false, entity_tag: input.subrange(1, input.len() - 1) })
        } else if input.len() >= 4 && input[0] == UPPER_W && input[1] == SLASH && input[2]
            == QUOTE {
            Some(EntityTagView { weak: true, entity_tag: input.subrange(3, input.len() - 1) })
        } else {
            None
        }
    }

    /// The weak comparison: the bytes are the same.
    pub open spec fn matches_weak(self, other: EntityTagView) -> bool {
        self.entity_tag == other.entity_tag
    }

    /// The strong comparison: neither is weak and the bytes are the same.
    pub open spec fn matches_strong(self, other: EntityTagView) -> bool {
        !self.weak && !other.weak && self.entity_tag == other.entity_tag
    }
}

impl EntityTag {
    /// Reads a tag from a header value.
    pub fn parse(input: &[u8]) -> (tag: Result<Self, InvalidHeaderValue>)
        ensures
            match EntityTagView::read(input@) {
                Some(read) => tag is Ok && tag->Ok_0@ == read,
                None => tag is Err,
            },
    {
        let len = input.len();
        if len < 2 || input[len - 1] != QUOTE {
            return Err(InvalidHeaderValue);
        }
        if input[0] == QUOTE {
            Ok(EntityTag { weak: false, entity_tag: copy_bytes(slice_subrange(input, 1, len - 1)) })
        } else if len >= 4 && input[0] == UPPER_W && input[1] == SLASH && input[2] == QUOTE {
            Ok(EntityTag { weak: true, entity_tag: copy_bytes(slice_subrange(input, 3, len - 1)) })
        } else {
            Err(InvalidHeaderValue)
        }
    }

    /// Writes the tag as it stands in a header.
    pub fn write(&self) -> (written: Vec<u8>)
        ensures
            written@ == self@.written(),
    {
        let mut res: Vec<u8> = Vec::new();
        if self.weak {
            res.push(UPPER_W);
            res.push(SLASH);
        }
        res.push(QUOTE);
        let ghost head = res@;
        let mut i: usize = 0;
        while i < self.entity_tag.len()
            invariant
                i <= self.entity_tag@.len(),
                res@ == head + self.entity_tag@.take(i as int),
            decreases self.entity_tag@.len() - i,
        {
            res.push(self.entity_tag[i]);
            i += 1;
        }
        res.push(QUOTE);
        res
    }

    pub fn matches_weak(&self, etag: &EntityTag) -> (same: bool)
        ensures
            same == self@.matches_weak(etag@),
    {
        same_bytes(self.entity_tag.as_slice(), etag.entity_tag.as_slice())
    }

    pub fn matches_strong(&self, etag: &EntityTag) -> (same: bool)
        ensures
            same == self@.matches_strong(etag@),
    {
        !self.weak && !etag.weak && same_bytes(
            self.entity_tag.as_slice(),
            etag.entity_tag.as_slice(),
        )
    }
}

/// A copy of the bytes.
pub fn copy_bytes(bytes: &[u8]) -> (copy: Vec<u8>)
    ensures
        copy@ == bytes@,
{
    let mut copy: Vec<u8> = Vec::new();
    let mut i: usize = 0;
    while i < bytes.len()
        invariant
            i <= bytes@.len(),
            copy@ == bytes@.take(i as int),
        decreases bytes@.len() - i,
    {
        copy.push(bytes[i]);
        i += 1;
    }
    copy
}

/// The entity tag of a response.
#[derive(Debug, Clone, PartialEq, Eq)]
pub struct ETag(pub EntityTag);

impl ETag {
    pub fn new_strong(etag: Vec<u8>) -> (tag: Self)
        ensures
            tag.0@ == (EntityTagView { weak: false, entity_tag: etag@ }),
    {
        ETag(EntityTag { weak: false, entity_tag: etag })
    }

    pub fn new_weak(etag: Vec<u8>) -> (tag: Self)
        ensures
            tag.0@ == (EntityTagView { weak: true, entity_tag: etag@ }),
    {
        ETag(EntityTag { weak: true, entity_tag: etag })
    }

}

impl Header for ETag {
    /// There has to be one value, and it has to be a tag.
    open spec fn decodes(values: Seq<Seq<u8>>, decoded: Result<Self, InvalidHeaderValue>) -> bool {
        match (if values.len() == 1 {
            EntityTagView::read(values[0])
        } else {
            None
        }) {
            Some(read) => decoded is Ok && decoded->Ok_0.0@ == read,
            None => decoded is Err,
        }
    }

    open spec fn header_name() -> Seq<char> {
        "ETag"@
    }

    fn name() -> (name: &'static str) {
        "ETag"
    }

    fn decode(values: &[&[u8]]) -> (decoded: Result<Self, InvalidHeaderValue>) {
        if values.len() != 1 {
            return Err(InvalidHeaderValue);
        }
        match EntityTag::parse(values[0]) {
            Ok(tag) => Ok(ETag(tag)),
            Err(err) => Err(err),
        }
    }
}

/// One item of an `If-None-Match`: `*` for any tag, or a tag.
#[derive(Debug, Clone, PartialEq, Eq)]
pub enum EntityPattern {
    Any,
    EntityTag(EntityTag),
}

/// The mathematical value of an [`EntityPattern`].
pub enum EntityPatternView {
    Any,
    EntityTag(EntityTagView),
}

impl View for EntityPattern {
    type V = EntityPatternView;

    open spec fn view(&self) -> EntityPatternView {
        match self {
            EntityPattern::Any => EntityPatternView::Any,
            EntityPattern::EntityTag(tag) => EntityPatternView::EntityTag(tag@),
        }
    }
}

impl DeepView for EntityPattern {
    type V = EntityPatternView;

    open spec fn deep_view(&self) -> EntityPatternView {
        self@
    }
}

impl EntityPatternView {
    /// The pattern that stands in an item of the header.
    pub open spec fn read(input: Seq<u8>) -> Option<EntityPatternView> {
        if input == seq![STAR] {
            Some(EntityPatternView::Any)
        } else {
            match EntityTagView::read(input) {
                Some(tag) => Some(EntityPatternView::EntityTag(tag)),
                None => None,
            }
        }
    }

    /// The pattern as it stands in a header.
    pub open spec fn written(self) -> Seq<u8> {
        match self {
            EntityPatternView::Any => seq![STAR],
            EntityPatternView::EntityTag(tag) => tag.written(),
        }
    }

    pub open spec fn matches_weak(self, etag: EntityTagView) -> bool {
        match self {
            EntityPatternView::Any => true,
            EntityPatternView::EntityTag(tag) => tag.matches_weak(etag),
        }
    }

    pub open spec fn matches_strong(self, etag: EntityTagView) -> bool {
        match self {
            EntityPatternView::Any => true,
            EntityPatternView::EntityTag(tag) => tag.matches_strong(etag),
        }
    }
}

impl EntityPattern {
    /// Reads a pattern from an item of the header.
    pub fn parse(input: &[u8]) -> (pattern: Result<Self, InvalidHeaderValue>)
        ensures
            match EntityPatternView::read(input@) {
                Some(read) => pattern is Ok && pattern->Ok_0@ == read,
                None => pattern is Err,
            },
    {
        if input.len() == 1 && input[0] == STAR {
            assert(input@ =~= seq![STAR]);
            Ok(EntityPattern::Any)
        } else {
            assert(input@ != seq![STAR]);
            match EntityTag::parse(input) {
                Ok(tag) => Ok(EntityPattern::EntityTag(tag)),
                Err(err) => Err(err),
            }
        }
    }

    /// Writes the pattern as it stands in a header.
    pub fn write(&self) -> (written: Vec<u8>)
        ensures
            written@ == self@.written(),
    {
        match self {
            EntityPattern::Any => {
                let mut res: Vec<u8> = Vec::new();
                res.push(STAR);
                res
            },
            EntityPattern::EntityTag(tag) => tag.write(),
        }
    }

    pub fn matches_weak(&self, etag: &ETag) -> (same: bool)
        ensures
            same == self@.matches_weak(etag.0@),
    {
        match self {
            EntityPattern::Any => true,
            EntityPattern::EntityTag(tag) => tag.matches_weak(&etag.0),
        }
    }

    pub fn matches_strong(&self, etag: &ETag) -> (same: bool)
        ensures
            same == self@.matches_strong(etag.0@),
    {
        match self {
            EntityPattern::Any => true,
            EntityPattern::EntityTag(tag) => tag.matches_strong(&etag.0),
        }
    }
}

/// The position of the first comma at or after `from`, or the end.
pub open spec fn item_end(s: Seq<u8>, from: int) -> int
    decreases s.len() - from,
{
    if 0 <= from < s.len() && s[from] != LIST_COMMA {
        item_end(s, from + 1)
    } else {
        from
    }
}

/// The position after the last byte before `end` that is no space or tab.
pub open spec fn content_end(s: Seq<u8>, end: int) -> int
    decreases end,
{
    if 0 < end <= s.len() && is_ows(s[end - 1]) {
        content_end(s, end - 1)
    } else {
        end
    }
}

/// The bytes without the spaces and tabs at their start; bytes that are all
/// spaces and tabs stay as they are.
pub open spec fn trimmed_start(s: Seq<u8>) -> Seq<u8> {
    if ows_end(s, 0) < s.len() {
        s.skip(ows_end(s, 0))
    } else {
        s
    }
}

/// The bytes without the spaces and tabs at their end; bytes that are all
/// spaces and tabs stay as they are.
pub open spec fn trimmed_end(s: Seq<u8>) -> Seq<u8> {
    if content_end(s, s.len() as int) > 0 {
        s.take(content_end(s, s.len() as int))
    } else {
        s
    }
}

pub open spec fn trimmed(s: Seq<u8>) -> Seq<u8> {
    trimmed_end(trimmed_start(s))
}

/// The patterns in the items of one header value from `from` on, the items
/// parted by commas; `None` if one of them holds no pattern.
pub open spec fn patterns_from(s: Seq<u8>, from: int) -> Option<Seq<EntityPatternView>>
    decreases s.len() - from,
{
    let end = item_end(s, from);
    if 0 <= from <= end <= s.len() {
        match EntityPatternView::read(trimmed(s.subrange(from, end))) {
            Some(pattern) => if end < s.len() {
                match patterns_from(s, end + 1) {
                    Some(more) => Some(seq![pattern] + more),
                    None => None,
                }
            } else {
                Some(seq![pattern])
            },
            None => None,
        }
    } else {
        None
    }
}

/// The patterns in the items of the header values from the value `from`
/// on.
pub open spec fn patterns_of(values: Seq<Seq<u8>>, from: int) -> Option<Seq<EntityPatternView>>
    decreases values.len() - from,
{
    if 0 <= from < values.len() {
        match patterns_from(values[from], 0) {
            Some(first) => match patterns_of(values, from + 1) {
                Some(more) => Some(first + more),
                None => None,
            },
            None => None,
        }
    } else {
        Some(Seq::empty())
    }
}

/// Drops the spaces and tabs at the start.
pub fn trim_start(bytes: &[u8]) -> (rest: &[u8])
    ensures
        rest@ == trimmed_start(bytes@),
{
    let start = ows(bytes, 0);
    if start < bytes.len() {
        let rest = slice_subrange(bytes, start, bytes.len());
        rest
    } else {
        bytes
    }
}

/// Drops the spaces and tabs at the end.
pub fn trim_end(bytes: &[u8]) -> (rest: &[u8])
    ensures
        rest@ == trimmed_end(bytes@),
{
    let mut end = bytes.len();
    while end > 0 && (bytes[end - 1] == SP || bytes[end - 1] == HTAB)
        invariant
            end <= bytes@.len(),
            content_end(bytes@, bytes@.len() as int) == content_end(bytes@, end as int),
        decreases end,
    {
        end -= 1;
    }
    if end > 0 {
        let rest = slice_subrange(bytes, 0, end);
        rest
    } else {
        bytes
    }
}

/// Drops the spaces and tabs at both ends.
pub fn trim(bytes: &[u8]) -> (rest: &[u8])
    ensures
        rest@ == trimmed(bytes@),
{
    trim_end(trim_start(bytes))
}

/// The `If-None-Match` of a request.
#[derive(Debug, Clone, PartialEq, Eq)]
pub struct IfNoneMatch(pub Vec<EntityPattern>);

impl IfNoneMatch {
    /// Whether one of the patterns matches the tag in the weak comparison.
    pub open spec fn any_matches(patterns: Seq<EntityPatternView>, etag: EntityTagView) -> bool {
        exists|i: int| 0 <= i < patterns.len() && patterns[i].matches_weak(etag)
    }

    /// Whether the request is to be answered in full: none of the patterns
    /// matches the response's tag in the weak comparison.
    pub fn precondition_passes(&self, etag: &ETag) -> (passes: bool)
        ensures
            passes == !Self::any_matches(self.0.deep_view(), etag.0@),
    {
        let mut i: usize = 0;
        while i < self.0.len()
            invariant
                i <= self.0.len(),
                forall|k: int| 0 <= k < i ==> !self.0.deep_view()[k].matches_weak(etag.0@),
            decreases self.0.len() - i,
        {
            if self.0[i].matches_weak(etag) {
                assert(self.0.deep_view()[i as int].matches_weak(etag.0@));
                return false;
            }
            i += 1;
        }
        true
    }

    /// Reads the patterns in the items of one header value and adds them to
    /// `patterns`. Says whether every item held one.
    fn decode_value(value: &[u8], patterns: &mut Vec<EntityPattern>) -> (ok: bool)
        ensures
            ok == patterns_from(value@, 0) is Some,
            ok ==> final(patterns).deep_view() == old(patterns).deep_view() + patterns_from(
                value@,
                0,
            )->0,
    {
        let mut from: usize = 0;
        let ghost mut read: Seq<EntityPatternView> = Seq::empty();
        loop
            invariant
                from <= value@.len(),
                patterns.deep_view() == old(patterns).deep_view() + read,
                patterns_from(value@, 0) == match patterns_from(value@, from as int) {
                    Some(more) => Some(read + more),
                    None => None,
                },
            decreases value@.len() - from,
        {
            let mut end = from;
            while end < value.len() && value[end] != LIST_COMMA
                invariant
                    from <= end <= value@.len(),
                    item_end(value@, from as int) == item_end(value@, end as int),
                decreases value@.len() - end,
            {
                end += 1;
            }
            let item = trim(slice_subrange(value, from, end));
            match EntityPattern::parse(item) {
                Ok(pattern) => {
                    let ghost before = patterns.deep_view();
                    proof {
                        read = read.push(pattern@);
                    }
                    patterns.push(pattern);
                    assert(patterns.deep_view() =~= before.push(pattern@));
                    if end < value.len() {
                        from = end + 1;
                    } else {
                        return true;
                    }
                },
                Err(_) => {
                    return false;
                },
            }
        }
    }

}

impl Header for IfNoneMatch {
    /// Each value is a list of patterns, parted by commas, with optional
    /// blanks around each pattern.
    open spec fn decodes(values: Seq<Seq<u8>>, decoded: Result<Self, InvalidHeaderValue>) -> bool {
        match patterns_of(values, 0) {
            Some(patterns) => decoded is Ok && decoded->Ok_0.0.deep_view() == patterns,
            None => decoded is Err,
        }
    }

    open spec fn header_name() -> Seq<char> {
        "If-None-Match"@
    }

    fn name() -> (name: &'static str) {
        "If-None-Match"
    }

    fn decode(values: &[&[u8]]) -> (header: Result<Self, InvalidHeaderValue>) {
        let mut patterns: Vec<EntityPattern> = Vec::new();
        let mut i: usize = 0;
        while i < values.len()
            invariant
                i <= values@.len(),
                patterns_of(values_of(values@), 0) == match patterns_of(
                    values_of(values@),
                    i as int,
                ) {
                    Some(more) => Some(patterns.deep_view() + more),
                    None => None,
                },
            decreases values@.len() - i,
        {
            if !Self::decode_value(values[i], &mut patterns) {
                return Err(InvalidHeaderValue);
            }
            proof {
                match patterns_of(values_of(values@), i + 1) {
                    Some(more) => {
                        let first = patterns_from(values@[i as int]@, 0)->0;
                    },
                    None => {},
                }
            }
            i += 1;
        }
        Ok(IfNoneMatch(patterns))
    }
}

/// A tag that was written is read back as it was.
pub proof fn law_written_tag_reads_back(tag: EntityTagView)
    ensures
        EntityTagView::read(tag.written()) == Some(tag),
{
    let w = tag.written();
    if tag.weak {
        assert(w.subrange(3, w.len() - 1) =~= tag.entity_tag);
    } else {
        assert(w.subrange(1, w.len() - 1) =~= tag.entity_tag);
    }
}

/// Tags that match in the strong comparison match in the weak one.
pub proof fn law_strong_match_is_weak_match(a: EntityTagView, b: EntityTagView)
    requires
        a.matches_strong(b),
    ensures
        a.matches_weak(b),
        b.matches_strong(a),
{
}

/// A request with `*` among its patterns is never answered in full.
pub proof fn law_any_never_passes(patterns: Seq<EntityPatternView>, i: int, etag: EntityTagView)
    requires
        0 <= i < patterns.len(),
        patterns[i] is Any,
    ensures
        IfNoneMatch::any_matches(patterns, etag),
{
}

} // verus!
