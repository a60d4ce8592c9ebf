//! The `Accept-Encoding` header: which content codings a client takes, and
//! which of the codings on offer suits it best.

use vstd::prelude::*;
use vstd::string::{is_ascii, is_ascii_spec_bytes, StringSliceAdditionalSpecFns};

use crate::web::headers::common::{
    after, c, ows, ows_end, pos_of, step_of, token, token_end, weight_at, QValue, Weighted,
    QVALUE_MAX,
};
use crate::web::headers::{Header, InvalidHeaderValue};

verus! {

pub const ASTERISK: u8 = 42;

pub const COMMA: u8 = 44;

/// A content coding that the server knows.
#[derive(PartialEq, Eq, Debug, Copy, Clone)]
pub enum Coding {
    Gzip,
    Deflate,
    Brotli,
    Zstandard,
    Identity,
}

/// The name of a coding in a header.
pub open spec fn coding_name(coding: Coding) -> Seq<char> {
    match coding {
        Coding::Identity => "identity"@,
        Coding::Gzip => "gzip"@,
        Coding::Deflate => "deflate"@,
        Coding::Brotli => "br"@,
        Coding::Zstandard => "zstd"@,
    }
}

/// The byte in lower case, if it is an ASCII capital; else the byte.
pub open spec fn lower(b: u8) -> u8 {
    if 65 <= b <= 90 {
        (b + 32) as u8
    } else {
        b
    }
}

/// The position after `word` if it stands at `from`, capitals and small
/// letters taken as the same.
pub open spec fn word_at(s: Seq<u8>, from: int, word: Seq<char>) -> Option<int> {
    if 0 <= from && from + word.len() <= s.len() && forall|i: int|
        0 <= i < word.len() ==> lower(s[from + i]) == lower(word[i] as u8) {
        Some(from + word.len())
    } else {
        None
    }
}

/// A coding's name at `from`: `gzip`, `deflate`, `zstd`, `br`, `x-gzip`
/// (which is gzip) or `identity`.
pub open spec fn coding_at(s: Seq<u8>, from: int) -> Option<(int, Coding)> {
    if word_at(s, from, "gzip"@) is Some {
        Some((word_at(s, from, "gzip"@)->0, Coding::Gzip))
    } else if word_at(s, from, "deflate"@) is Some {
        Some((word_at(s, from, "deflate"@)->0, Coding::Deflate))
    } else if word_at(s, from, "zstd"@) is Some {
        Some((word_at(s, from, "zstd"@)->0, Coding::Zstandard))
    } else if word_at(s, from, "br"@) is Some {
        Some((word_at(s, from, "br"@)->0, Coding::Brotli))
    } else if word_at(s, from, "x-gzip"@) is Some {
        Some((word_at(s, from, "x-gzip"@)->0, Coding::Gzip))
    } else if word_at(s, from, "identity"@) is Some {
        Some((word_at(s, from, "identity"@)->0, Coding::Identity))
    } else {
        None
    }
}

/// The byte in lower case, if it is an ASCII capital.
fn to_lower(b: u8) -> (l: u8)
    ensures
        l == lower(b),
{
    if b >= 65 && b <= 90 {
        b + 32
    } else {
        b
    }
}

impl Coding {
    pub fn as_str(&self) -> (name: &'static str)
        ensures
            name@ == coding_name(*self),
    {
        match self {
            Coding::Identity => "identity",
            Coding::Gzip => "gzip",
            Coding::Deflate => "deflate",
            Coding::Brotli => "br",
            Coding::Zstandard => "zstd",
        }
    }

    /// Takes `test` if the input goes on with it at `from`, capitals and
    /// small letters taken as the same.
    pub fn slice_starts_with(input: &[u8], from: usize, test: &str) -> (end: Option<usize>)
        requires
            from <= input@.len(),
            is_ascii(test),
        ensures
            pos_of(end) == word_at(input@, from as int, test@),
            end matches Some(e) ==> e <= input@.len(),
    {
        broadcast use is_ascii_spec_bytes;

        let word = test.as_bytes();
        if input.len() - from < word.len() {
            return None;
        }
        let mut i: usize = 0;
        while i < word.len()
            invariant
                i <= word@.len(),
                word@.len() == test@.len(),
                from + word@.len() <= input@.len() <= usize::MAX,
                forall|k: int| 0 <= k < word@.len() ==> word@[k] == test@[k] as u8,
                forall|k: int| 0 <= k < i ==> lower(input@[from + k]) == lower(test@[k] as u8),
            decreases word@.len() - i,
        {
            if to_lower(input[from + i]) != to_lower(word[i]) {
                return None;
            }
            i += 1;
        }
        Some(from + word.len())
    }

    /// Takes a coding's name.
    pub fn parse(input: &[u8], from: usize) -> (step: Option<(usize, Coding)>)
        requires
            from <= input@.len(),
        ensures
            step_of(step) == coding_at(input@, from as int),
            step matches Some((end, _)) ==> from < end <= input@.len(),
    {
        proof {
            reveal_strlit("gzip");
            reveal_strlit("deflate");
            reveal_strlit("zstd");
            reveal_strlit("br");
            reveal_strlit("x-gzip");
            reveal_strlit("identity");
        }
        if let Some(end) = Self::slice_starts_with(input, from, "gzip") {
            return Some((end, Coding::Gzip));
        }
        if let Some(end) = Self::slice_starts_with(input, from, "deflate") {
            return Some((end, Coding::Deflate));
        }
        if let Some(end) = Self::slice_starts_with(input, from, "zstd") {
            return Some((end, Coding::Zstandard));
        }
        if let Some(end) = Self::slice_starts_with(input, from, "br") {
            return Some((end, Coding::Brotli));
        }
        if let Some(end) = Self::slice_starts_with(input, from, "x-gzip") {
            return Some((end, Coding::Gzip));
        }
        if let Some(end) = Self::slice_starts_with(input, from, "identity") {
            return Some((end, Coding::Identity));
        }
        None
    }
}

/// One item of the header's list: a known coding, `*` for every coding not
/// named, or a coding that the server does not know.
#[derive(PartialEq, Eq, Debug, Copy, Clone)]
pub enum CodingDirective {
    Coding(Coding),
    Asterisk,
    Unknown,
}

/// An item of the list at `from`.
pub open spec fn directive_at(s: Seq<u8>, from: int) -> Option<(int, CodingDirective)> {
    match after(s, from, ASTERISK) {
        Some(end) => Some((end, CodingDirective::Asterisk)),
        None => match coding_at(s, from) {
            Some((end, coding)) => Some((end, CodingDirective::Coding(coding))),
            None => if token_end(s, from) > from {
                Some((token_end(s, from), CodingDirective::Unknown))
            } else {
                None
            },
        },
    }
}

/// An item with its weight at `from`; an item without weight has the
/// highest.
pub open spec fn weighted_at(s: Seq<u8>, from: int) -> Option<(int, Weighted<CodingDirective>)> {
    match directive_at(s, from) {
        Some((end, value)) => match weight_at(s, end) {
            Some((end, weight)) => Some((end, Weighted { value, weight })),
            None => Some((end, Weighted { value, weight: QValue(QVALUE_MAX) })),
        },
        None => None,
    }
}

/// A comma, with optional blanks around it, and the next item at `from`.
pub open spec fn next_weighted_at(s: Seq<u8>, from: int) -> Option<
    (int, Weighted<CodingDirective>),
> {
    match after(s, ows_end(s, from), COMMA) {
        Some(comma) => weighted_at(s, ows_end(s, comma)),
        None => None,
    }
}

/// The name of an item in a header.
pub open spec fn directive_name(directive: CodingDirective) -> Seq<char> {
    match directive {
        CodingDirective::Coding(coding) => coding_name(coding),
        CodingDirective::Asterisk => "*"@,
        CodingDirective::Unknown => "<unknown>"@,
    }
}

impl CodingDirective {
    pub fn as_str(&self) -> (name: &'static str)
        ensures
            name@ == directive_name(*self),
    {
        match self {
            CodingDirective::Coding(coding) => coding.as_str(),
            CodingDirective::Asterisk => "*",
            CodingDirective::Unknown => "<unknown>",
        }
    }

    /// Takes an item of the list.
    pub fn parse(input: &[u8], from: usize) -> (step: Option<(usize, CodingDirective)>)
        requires
            from <= input@.len(),
        ensures
            step_of(step) == directive_at(input@, from as int),
            step matches Some((end, _)) ==> from < end <= input@.len(),
    {
        if let Some(end) = c(input, from, ASTERISK) {
            Some((end, CodingDirective::Asterisk))
        } else if let Some((end, coding)) = Coding::parse(input, from) {
            Some((end, CodingDirective::Coding(coding)))
        } else {
            match token(input, from) {
                Some(end) => Some((end, CodingDirective::Unknown)),
                None => None,
            }
        }
    }

    /// Reads an item that fills the whole text.
    pub fn from_str(s: &str) -> (directive: Result<CodingDirective, ()>)
        ensures
            directive is Ok <==> (directive_at(s.spec_bytes(), 0) matches Some((end, _)) && end
                == s.spec_bytes().len()),
            directive matches Ok(value) ==> directive_at(s.spec_bytes(), 0) == Some(
                (s.spec_bytes().len() as int, value),
            ),
    {
        let bytes = s.as_bytes();
        match Self::parse(bytes, 0) {
            Some((end, value)) => if end == bytes.len() {
                Ok(value)
            } else {
                Err(())
            },
            None => Err(()),
        }
    }
}

/// The weight of a coding that is named once more with the weight `b`: not
/// acceptable if either says so, else the higher of the two.
pub open spec fn qagg_of(a: Option<QValue>, b: QValue) -> QValue {
    match a {
        Some(a) => if a.0 == 0 || b.0 == 0 {
            QValue(0)
        } else if a.0 >= b.0 {
            a
        } else {
            b
        },
        None => b,
    }
}

/// The weight of a coding that is named once more with the weight `b`.
pub fn qagg(a: Option<QValue>, b: QValue) -> (q: QValue)
    ensures
        q == qagg_of(a, b),
{
    match a {
        Some(a) => {
            if a.is_unacceptable() || b.is_unacceptable() {
                QValue::unacceptable()
            } else if a.0 >= b.0 {
                a
            } else {
                b
            }
        },
        None => b,
    }
}

/// What an `Accept-Encoding` header says: the weight of each coding that
/// it names, and of `*`.
#[derive(PartialEq, Eq, Debug, Copy, Clone)]
pub struct AcceptEncoding {
    pub identity: Option<QValue>,
    pub gzip: Option<QValue>,
    pub deflate: Option<QValue>,
    pub zstd: Option<QValue>,
    pub brotli: Option<QValue>,
    pub asterisk: Option<QValue>,
}

impl AcceptEncoding {
    /// A header that names nothing.
    pub open spec fn nothing() -> AcceptEncoding {
        AcceptEncoding {
            identity: None,
            gzip: None,
            deflate: None,
            zstd: None,
            brotli: None,
            asterisk: None,
        }
    }

    /// What the header says once it has named one more item.
    pub open spec fn with(self, item: Weighted<CodingDirective>) -> AcceptEncoding {
        match item.value {
            CodingDirective::Coding(Coding::Gzip) => AcceptEncoding {
                gzip: Some(qagg_of(self.gzip, item.weight)),
                ..self
            },
            CodingDirective::Coding(Coding::Deflate) => AcceptEncoding {
                deflate: Some(qagg_of(self.deflate, item.weight)),
                ..self
            },
            CodingDirective::Coding(Coding::Zstandard) => AcceptEncoding {
                zstd: Some(qagg_of(self.zstd, item.weight)),
                ..self
            },
            CodingDirective::Coding(Coding::Brotli) => AcceptEncoding {
                brotli: Some(qagg_of(self.brotli, item.weight)),
                ..self
            },
            CodingDirective::Coding(Coding::Identity) => AcceptEncoding {
                identity: Some(qagg_of(self.identity, item.weight)),
                ..self
            },
            CodingDirective::Asterisk => AcceptEncoding {
                asterisk: Some(qagg_of(self.asterisk, item.weight)),
                ..self
            },
            CodingDirective::Unknown => self,
        }
    }

    /// The weight that the header gives a coding: its own if the header
    /// names it, else that of `*`, else none.
    pub open spec fn weight_of(self, coding: Coding) -> QValue {
        let named = match coding {
            Coding::Gzip => self.gzip,
            Coding::Deflate => self.deflate,
            Coding::Zstandard => self.zstd,
            Coding::Brotli => self.brotli,
            Coding::Identity => self.identity,
        };
        match named {
            Some(q) => q,
            None => match self.asterisk {
                Some(q) => q,
                None => QValue(0),
            },
        }
    }

    /// Whether the client takes content as it is: unless the header rules
    /// out `identity`, or names only `*` and rules that out.
    pub open spec fn identity_acceptable(self) -> bool {
        match self.identity {
            Some(q) => q.0 != 0,
            None => match self.asterisk {
                Some(q) => q.0 != 0,
                None => true,
            },
        }
    }

    /// The items after the first: as long as a comma and an item follow at
    /// `from`, the item is added. Gives the position after the last item
    /// and what the header says.
    pub open spec fn rest_at(s: Seq<u8>, from: int, said: AcceptEncoding) -> (int, AcceptEncoding)
        decreases s.len() - from,
    {
        match next_weighted_at(s, from) {
            Some((end, item)) => if from < end <= s.len() {
                Self::rest_at(s, end, said.with(item))
            } else {
                (from, said)
            },
            None => (from, said),
        }
    }

    /// The header's list: a first item, if there is one, and the items
    /// that follow, each after a comma. Gives the position after the last
    /// item and what the header says.
    pub open spec fn list_at(s: Seq<u8>) -> (int, AcceptEncoding) {
        if s.len() == 0 {
            (0, Self::nothing())
        } else {
            match weighted_at(s, 0) {
                Some((end, item)) => Self::rest_at(s, end, Self::nothing().with(item)),
                None => Self::rest_at(s, 0, Self::nothing()),
            }
        }
    }

    /// The place `i` holds the first of the codings on offer with the
    /// highest weight, and the client takes it.
    pub open spec fn is_best(self, providing: Seq<Coding>, i: int) -> bool {
        &&& 0 <= i < providing.len()
        &&& self.weight_of(providing[i]).0 > 0
        &&& forall|j: int| 0 <= j < i ==> self.weight_of(providing[j]).0 < self.weight_of(
            providing[i],
        ).0
        &&& forall|j: int|
            i < j < providing.len() ==> self.weight_of(providing[j]).0 <= self.weight_of(
                providing[i],
            ).0
    }

    /// The place `i` holds the first of the codings on offer with the
    /// highest weight there is.
    pub open spec fn is_first_max(self, providing: Seq<Coding>, i: int) -> bool {
        &&& 0 <= i < providing.len()
        &&& self.weight_of(providing[i]).0 == QVALUE_MAX
        &&& forall|j: int| 0 <= j < i ==> self.weight_of(providing[j]).0 != QVALUE_MAX
    }

    /// The client takes none of the codings on offer.
    pub open spec fn takes_none(self, providing: Seq<Coding>) -> bool {
        forall|j: int| 0 <= j < providing.len() ==> self.weight_of(providing[j]).0 == 0
    }

    /// `chosen` is the coding to answer with: the first on offer that has
    /// the highest weight there is; without such a one, the first on offer
    /// with the highest weight among those on offer; if the client takes
    /// none of them, `identity` where the client takes that, else nothing.
    pub open spec fn chooses(self, providing: Seq<Coding>, chosen: Option<Coding>) -> bool {
        if exists|i: int| self.is_first_max(providing, i) {
            exists|i: int| self.is_first_max(providing, i) && chosen == Some(providing[i])
        } else if self.takes_none(providing) {
            chosen == if self.identity_acceptable() {
                Some(Coding::Identity)
            } else {
                None
            }
        } else {
            exists|i: int| self.is_best(providing, i) && chosen == Some(providing[i])
        }
    }

    /// Every weight lies between 0 and 1.
    pub open spec fn wf(self) -> bool {
        &&& self.identity matches Some(q) ==> q.wf()
        &&& self.gzip matches Some(q) ==> q.wf()
        &&& self.deflate matches Some(q) ==> q.wf()
        &&& self.zstd matches Some(q) ==> q.wf()
        &&& self.brotli matches Some(q) ==> q.wf()
        &&& self.asterisk matches Some(q) ==> q.wf()
    }

    /// A header that names nothing.
    pub fn empty() -> (said: Self)
        ensures
            said == Self::nothing(),
    {
        Self { identity: None, gzip: None, deflate: None, zstd: None, brotli: None, asterisk: None }
    }

    /// The coding to answer with, out of those on offer.
    pub fn match_one_of(&self, providing: &[Coding]) -> (chosen: Option<Coding>)
        ensures
            self.chooses(providing@, chosen),
    {
        let mut res: Option<Coding> = None;
        let mut weight = QValue::unacceptable();
        let ghost mut best: int = -1;
        let mut idx: usize = 0;
        while idx < providing.len()
            invariant
                idx <= providing@.len(),
                forall|j: int| 0 <= j < idx ==> self.weight_of(providing@[j]).0 != QVALUE_MAX,
                forall|j: int| 0 <= j < idx ==> self.weight_of(providing@[j]).0 <= weight.0,
                weight.0 == 0 ==> res is None,
                weight.0 > 0 ==> 0 <= best < idx && res == Some(providing@[best])
                    && self.weight_of(providing@[best]) == weight && forall|j: int|
                    0 <= j < best ==> self.weight_of(providing@[j]).0 < weight.0,
            decreases providing@.len() - idx,
        {
            let provided = providing[idx];
            let q = self.find_qvalue(provided);
            if q.is_unacceptable() {
            } else if q.0 == QVALUE_MAX {
                assert(self.is_first_max(providing@, idx as int));
                return Some(provided);
            } else if q.0 > weight.0 {
                weight = q;
                res = Some(provided);
                proof {
                    best = idx as int;
                }
            }
            idx += 1;
        }
        if weight.0 > 0 {
            assert(self.is_best(providing@, best));
        }
        if res.is_none() && self.is_identity_acceptable() {
            return Some(Coding::Identity);
        }
        res
    }

    /// The weight that the header gives a coding.
    pub fn find_qvalue(&self, provided: Coding) -> (q: QValue)
        ensures
            q == self.weight_of(provided),
    {
        let named = match provided {
            Coding::Gzip => self.gzip,
            Coding::Deflate => self.deflate,
            Coding::Zstandard => self.zstd,
            Coding::Brotli => self.brotli,
            Coding::Identity => self.identity,
        };
        match named {
            Some(q) => q,
            None => match self.asterisk {
                Some(q) => q,
                None => QValue::unacceptable(),
            },
        }
    }

    /// Whether the client takes content as it is.
    pub fn is_identity_acceptable(&self) -> (yes: bool)
        ensures
            yes == self.identity_acceptable(),
    {
        if let Some(q) = self.identity {
            q.is_acceptable()
        } else if let Some(q) = self.asterisk {
            q.is_acceptable()
        } else {
            true
        }
    }

    /// Adds one item to what the header says.
    pub fn agg(&mut self, value: Weighted<CodingDirective>)
        ensures
            *final(self) == old(self).with(value),
    {
        match value.value {
            CodingDirective::Coding(Coding::Gzip) => {
                self.gzip = Some(qagg(self.gzip, value.weight));
            },
            CodingDirective::Coding(Coding::Deflate) => {
                self.deflate = Some(qagg(self.deflate, value.weight));
            },
            CodingDirective::Coding(Coding::Zstandard) => {
                self.zstd = Some(qagg(self.zstd, value.weight));
            },
            CodingDirective::Coding(Coding::Brotli) => {
                self.brotli = Some(qagg(self.brotli, value.weight));
            },
            CodingDirective::Coding(Coding::Identity) => {
                self.identity = Some(qagg(self.identity, value.weight));
            },
            CodingDirective::Asterisk => {
                self.asterisk = Some(qagg(self.asterisk, value.weight));
            },
            CodingDirective::Unknown => {},
        }
    }

    /// Takes an item with its weight.
    pub fn parse_weighted_codings(s: &[u8], from: usize) -> (step: Option<
        (usize, Weighted<CodingDirective>),
    >)
        requires
            from <= s@.len(),
        ensures
            step_of(step) == weighted_at(s@, from as int),
            step matches Some((end, item)) ==> from < end <= s@.len() && item.weight.wf(),
    {
        match CodingDirective::parse(s, from) {
            Some((end, coding)) => {
                if let Some((end, weight)) = QValue::parse_weight(s, end) {
                    Some((end, Weighted::new(coding, weight)))
                } else {
                    Some((end, Weighted::new(coding, QValue::max())))
                }
            },
            None => None,
        }
    }

    /// Takes a comma and the item after it.
    pub fn parse_weighted_codings_(s: &[u8], from: usize) -> (step: Option<
        (usize, Weighted<CodingDirective>),
    >)
        requires
            from <= s@.len(),
        ensures
            step_of(step) == next_weighted_at(s@, from as int),
            step matches Some((end, item)) ==> from < end <= s@.len() && item.weight.wf(),
    {
        let at = ows(s, from);
        let at = match c(s, at, COMMA) {
            Some(at) => at,
            None => {
                return None;
            },
        };
        let at = ows(s, at);
        Self::parse_weighted_codings(s, at)
    }

    /// Takes the header's list. Gives the position after its last item and
    /// what the header says.
    pub fn parse(s: &[u8]) -> (parsed: (usize, Self))
        ensures
            (parsed.0 as int, parsed.1) == Self::list_at(s@),
            parsed.0 <= s@.len(),
            parsed.1.wf(),
    {
        if s.len() == 0 {
            return (0, Self::empty());
        }
        let mut res = Self::empty();
        let mut at: usize = 0;
        if let Some((end, item)) = Self::parse_weighted_codings(s, 0) {
            res.agg(item);
            at = end;
        }
        loop
            invariant
                at <= s@.len(),
                res.wf(),
                Self::list_at(s@) == Self::rest_at(s@, at as int, res),
            decreases s@.len() - at,
        {
            match Self::parse_weighted_codings_(s, at) {
                Some((end, item)) => {
                    res.agg(item);
                    at = end;
                },
                None => {
                    return (at, res);
                },
            }
        }
    }

    /// Reads a header value. It has to be a list from its first byte to its
    /// last.
    pub fn from_bytes(bytes: &[u8]) -> (said: Result<Self, ()>)
        ensures
            said is Ok <==> Self::list_at(bytes@).0 == bytes@.len(),
            said matches Ok(value) ==> value == Self::list_at(bytes@).1 && value.wf(),
    {
        let (end, value) = Self::parse(bytes);
        if end == bytes.len() {
            Ok(value)
        } else {
            Err(())
        }
    }

    /// Reads a header value. It has to be a list from its first byte to its
    /// last.
    pub fn from_str(s: &str) -> (said: Result<Self, ()>)
        ensures
            said is Ok <==> Self::list_at(s.spec_bytes()).0 == s.spec_bytes().len(),
            said matches Ok(value) ==> value == Self::list_at(s.spec_bytes()).1 && value.wf(),
    {
        Self::from_bytes(s.as_bytes())
    }
}

impl Header for AcceptEncoding {
    /// The first value has to be a list from its first byte to its last; a
    /// request without the header takes content as it is.
    open spec fn decodes(values: Seq<Seq<u8>>, decoded: Result<Self, InvalidHeaderValue>) -> bool {
        if values.len() == 0 {
            decoded == Ok::<Self, InvalidHeaderValue>(
                AcceptEncoding { identity: Some(QValue(QVALUE_MAX)), ..Self::nothing() },
            )
        } else if Self::list_at(values[0]).0 == values[0].len() {
            decoded == Ok::<Self, InvalidHeaderValue>(Self::list_at(values[0]).1)
        } else {
            decoded is Err
        }
    }

    open spec fn header_name() -> Seq<char> {
        "Accept-Encoding"@
    }

    fn name() -> (name: &'static str) {
        "Accept-Encoding"
    }

    fn decode(values: &[&[u8]]) -> (decoded: Result<Self, InvalidHeaderValue>) {
        if values.len() == 0 {
            return Ok(Self::default());
        }
        match Self::from_bytes(values[0]) {
            Ok(said) => Ok(said),
            Err(_) => Err(InvalidHeaderValue),
        }
    }
}

impl Default for AcceptEncoding {
    /// What a request without the header says: content as it is.
    fn default() -> (said: Self)
        ensures
            said == (AcceptEncoding { identity: Some(QValue(QVALUE_MAX)), ..Self::nothing() }),
    {
        AcceptEncoding {
            identity: Some(QValue(QVALUE_MAX)),
            gzip: None,
            deflate: None,
            zstd: None,
            brotli: None,
            asterisk: None,
        }
    }
}

/// Naming a coding as not acceptable is final: whatever weight it is named
/// with afterwards, it stays not acceptable.
pub proof fn law_unacceptable_is_final(a: Option<QValue>, b: QValue, later: QValue)
    requires
        a matches Some(q) && q.0 == 0 || b.0 == 0,
    ensures
        qagg_of(Some(qagg_of(a, b)), later).0 == 0,
{
}

/// For a header whose weights lie between 0 and 1, the coding that is chosen
/// out of those on offer, where the client takes one of them, is the first
/// with the highest weight among them.
pub proof fn law_first_of_the_highest_weight_is_chosen(
    said: AcceptEncoding,
    providing: Seq<Coding>,
    chosen: Option<Coding>,
)
    requires
        said.wf(),
        said.chooses(providing, chosen),
        !said.takes_none(providing),
    ensures
        exists|i: int| said.is_best(providing, i) && chosen == Some(providing[i]),
{
    if exists|i: int| said.is_first_max(providing, i) {
        let i = choose|i: int| said.is_first_max(providing, i) && chosen == Some(providing[i]);
        assert forall|j: int| 0 <= j < providing.len() implies said.weight_of(providing[j]).0
            <= QVALUE_MAX by {}
        assert(said.is_best(providing, i));
    }
}

/// What a header says of well-formed weights is well-formed.
pub proof fn law_items_keep_weights_in_range(said: AcceptEncoding, item: Weighted<CodingDirective>)
    requires
        said.wf(),
        item.weight.wf(),
    ensures
        said.with(item).wf(),
{
}

} // verus!
