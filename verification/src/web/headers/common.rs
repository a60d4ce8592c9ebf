//! What the header grammars share: quality values, weighted items, and the
//! small steps of a parser over bytes.
//!
//! A parsing step looks at the bytes from a position on and, where it
//! matches, gives the position after what it took.

use vstd::prelude::*;
use vstd::string::{StringExecFns, StringSliceAdditionalSpecFns};

verus! {

/// A value with its quality value.
#[derive(PartialEq, Debug)]
pub struct Weighted<T> {
    pub value: T,
    pub weight: QValue,
}

impl<T> Weighted<T> {
    pub fn new(value: T, weight: QValue) -> (weighted: Self)
        ensures
            weighted.value == value,
            weighted.weight == weight,
    {
        Self { value, weight }
    }

    pub fn value(&self) -> (value: &T)
        ensures
            *value == self.value,
    {
        &self.value
    }

    pub fn into_value(self) -> (value: T)
        ensures
            value == self.value,
    {
        self.value
    }

    pub fn weight(&self) -> (weight: QValue)
        ensures
            weight == self.weight,
    {
        self.weight
    }
}

/// A quality value in thousandths: 0 stands for "not acceptable", 1000 for
/// the highest preference.
#[derive(PartialEq, Eq, PartialOrd, Ord, Copy, Clone, Debug)]
pub struct QValue(pub u16);

/// The highest quality value, in thousandths.
pub const QVALUE_MAX: u16 = 1000;

pub const SP: u8 = 32;

pub const HTAB: u8 = 9;

pub const DIGIT_0: u8 = 48;

pub const DIGIT_1: u8 = 49;

pub const DIGIT_9: u8 = 57;

pub const POINT: u8 = 46;

pub const SEMICOLON: u8 = 59;

pub const EQUALS: u8 = 61;

pub const LOWER_Q: u8 = 113;

pub const UPPER_Q: u8 = 81;

pub const UPPER_A: u8 = 65;

pub const UPPER_Z: u8 = 90;

pub const LOWER_A: u8 = 97;

pub const LOWER_Z: u8 = 122;

pub open spec fn is_ows(b: u8) -> bool {
    b == SP || b == HTAB
}

pub open spec fn is_digit(b: u8) -> bool {
    DIGIT_0 <= b <= DIGIT_9
}

/// A character of a token.
pub open spec fn is_tchar(b: u8) -> bool {
    ||| 48 <= b <= 57
    ||| 65 <= b <= 90
    ||| 97 <= b <= 122
    ||| b == 33
    ||| 35 <= b <= 39
    ||| b == 42
    ||| b == 43
    ||| b == 45
    ||| b == 46
    ||| b == 94
    ||| b == 95
    ||| b == 96
    ||| b == 124
    ||| b == 126
}

/// The position after the spaces and tabs that start at `from`.
pub open spec fn ows_end(s: Seq<u8>, from: int) -> int
    decreases s.len() - from,
{
    if 0 <= from < s.len() && is_ows(s[from]) {
        ows_end(s, from + 1)
    } else {
        from
    }
}

/// The position after the token characters that start at `from`.
pub open spec fn token_end(s: Seq<u8>, from: int) -> int
    decreases s.len() - from,
{
    if 0 <= from < s.len() && is_tchar(s[from]) {
        token_end(s, from + 1)
    } else {
        from
    }
}

/// The position after the byte `lit`, if it stands at `from`.
pub open spec fn after(s: Seq<u8>, from: int, lit: u8) -> Option<int> {
    if 0 <= from < s.len() && s[from] == lit {
        Some(from + 1)
    } else {
        None
    }
}

/// The position after the byte at `from`, if that is one of two.
pub open spec fn after_either(s: Seq<u8>, from: int, lit1: u8, lit2: u8) -> Option<int> {
    if 0 <= from < s.len() && (s[from] == lit1 || s[from] == lit2) {
        Some(from + 1)
    } else {
        None
    }
}

/// How many digits stand at `from`, counting no more than `max`.
pub open spec fn digits_run(s: Seq<u8>, from: int, max: nat) -> nat
    decreases max,
{
    if max > 0 && 0 <= from < s.len() && is_digit(s[from]) {
        1 + digits_run(s, from + 1, (max - 1) as nat)
    } else {
        0
    }
}

/// How many zeros stand at `from`, counting no more than `max`.
pub open spec fn zeros_run(s: Seq<u8>, from: int, max: nat) -> nat
    decreases max,
{
    if max > 0 && 0 <= from < s.len() && s[from] == 48 {
        1 + zeros_run(s, from + 1, (max - 1) as nat)
    } else {
        0
    }
}

/// The thousandths that the first `n` of three decimal places at `from`
/// stand for.
pub open spec fn thousandths(s: Seq<u8>, from: int, n: nat) -> int {
    (if n >= 1 {
        (s[from] - 48) * 100
    } else {
        0
    }) + (if n >= 2 {
        (s[from + 1] - 48) * 10
    } else {
        0
    }) + (if n >= 3 {
        s[from + 2] - 48
    } else {
        0
    })
}

/// A quality value at `from`: `0` or `1`, then at most a point and up to
/// three decimal places, which are zeros after `1`. Gives the position after
/// it and its thousandths.
pub open spec fn qvalue_at(s: Seq<u8>, from: int) -> Option<(int, QValue)> {
    if 0 <= from < s.len() && s[from] == 48 {
        if from + 1 < s.len() && s[from + 1] == 46 {
            let n = digits_run(s, from + 2, 3);
            Some((from + 2 + n, QValue(thousandths(s, from + 2, n) as u16)))
        } else {
            Some((from + 1, QValue(0)))
        }
    } else if 0 <= from < s.len() && s[from] == 49 {
        if from + 1 < s.len() && s[from + 1] == 46 {
            Some((from + 2 + zeros_run(s, from + 2, 3), QValue(QVALUE_MAX)))
        } else {
            Some((from + 1, QValue(QVALUE_MAX)))
        }
    } else {
        None
    }
}

/// A weight at `from`: optional blanks, `;`, optional blanks, `q` or `Q`,
/// `=`, and a quality value.
pub open spec fn weight_at(s: Seq<u8>, from: int) -> Option<(int, QValue)> {
    match after(s, ows_end(s, from), 59) {
        Some(semi) => match after_either(s, ows_end(s, semi), 113, 81) {
            Some(q) => match after(s, q, 61) {
                Some(eq) => qvalue_at(s, eq),
                None => None,
            },
            None => None,
        },
        None => None,
    }
}

/// What a parsing step gave, with the position as a mathematical integer.
pub open spec fn step_of<T>(step: Option<(usize, T)>) -> Option<(int, T)> {
    match step {
        Some((at, value)) => Some((at as int, value)),
        None => None,
    }
}

/// The position a parsing step gave, as a mathematical integer.
pub open spec fn pos_of(step: Option<usize>) -> Option<int> {
    match step {
        Some(at) => Some(at as int),
        None => None,
    }
}

/// The text of a decimal digit.
pub open spec fn digit_text(d: int) -> Seq<char> {
    seq![(48 + d) as u8 as char]
}

/// The shortest decimal text of so many thousandths: the whole part, and
/// the decimal places without zeros at the end.
pub open spec fn qvalue_text(v: u16) -> Seq<char> {
    let frac = v % 1000;
    digit_text(v as int / 1000) + (if frac == 0 {
        Seq::<char>::empty()
    } else {
        seq!['.'] + digit_text(frac as int / 100) + (if frac % 100 == 0 {
            Seq::<char>::empty()
        } else {
            digit_text(frac as int % 100 / 10) + (if frac % 10 == 0 {
                Seq::<char>::empty()
            } else {
                digit_text(frac as int % 10)
            })
        })
    })
}

/// Skips spaces and tabs.
pub fn ows(s: &[u8], from: usize) -> (end: usize)
    requires
        from <= s@.len(),
    ensures
        end == ows_end(s@, from as int),
        from <= end <= s@.len(),
{
    let mut at = from;
    while at < s.len() && (s[at] == SP || s[at] == HTAB)
        invariant
            from <= at <= s@.len(),
            ows_end(s@, from as int) == ows_end(s@, at as int),
        decreases s@.len() - at,
    {
        at += 1;
    }
    at
}

/// Takes the byte `lit`.
pub fn c(s: &[u8], from: usize, lit: u8) -> (end: Option<usize>)
    requires
        from <= s@.len(),
    ensures
        pos_of(end) == after(s@, from as int, lit),
        end matches Some(e) ==> e <= s@.len(),
{
    if from < s.len() && s[from] == lit {
        Some(from + 1)
    } else {
        None
    }
}

/// Takes one of two bytes.
pub fn c2(s: &[u8], from: usize, lit1: u8, lit2: u8) -> (end: Option<usize>)
    requires
        from <= s@.len(),
    ensures
        pos_of(end) == after_either(s@, from as int, lit1, lit2),
        end matches Some(e) ==> e <= s@.len(),
{
    if from < s.len() && (s[from] == lit1 || s[from] == lit2) {
        Some(from + 1)
    } else {
        None
    }
}

/// Takes one decimal digit and gives its value.
pub fn digit(s: &[u8], from: usize) -> (step: Option<(usize, u8)>)
    requires
        from <= s@.len(),
    ensures
        step is Some <==> from < s@.len() && is_digit(s@[from as int]),
        step matches Some((end, d)) ==> end == from + 1 && d == s@[from as int] - 48,
{
    if from < s.len() && s[from] >= DIGIT_0 && s[from] <= DIGIT_9 {
        Some((from + 1, s[from] - DIGIT_0))
    } else {
        None
    }
}

/// Whether the byte is a character of a token.
pub fn tchar_pred(b: u8) -> (yes: bool)
    ensures
        yes == is_tchar(b),
{
    (b >= DIGIT_0 && b <= DIGIT_9) || (b >= UPPER_A && b <= UPPER_Z) || (b >= LOWER_A && b <= LOWER_Z) || b == 33
        || (b >= 35 && b <= 39) || b == 42 || b == 43 || b == 45 || b == POINT || b
        == 94 || b == 95 || b == 96 || b == 124 || b == 126
}

/// Takes one character of a token.
pub fn tchar(s: &[u8], from: usize) -> (end: Option<usize>)
    requires
        from <= s@.len(),
    ensures
        end is Some <==> from < s@.len() && is_tchar(s@[from as int]),
        end matches Some(e) ==> e == from + 1,
{
    if from < s.len() && tchar_pred(s[from]) {
        Some(from + 1)
    } else {
        None
    }
}

/// Takes a token: one or more token characters, as many as there are.
pub fn token(s: &[u8], from: usize) -> (end: Option<usize>)
    requires
        from <= s@.len(),
    ensures
        end is Some <==> token_end(s@, from as int) > from,
        end matches Some(e) ==> e == token_end(s@, from as int) && from < e <= s@.len(),
{
    let mut at = from;
    while at < s.len() && tchar_pred(s[at])
        invariant
            from <= at <= s@.len(),
            token_end(s@, from as int) == token_end(s@, at as int),
        decreases s@.len() - at,
    {
        at += 1;
    }
    if at > from {
        Some(at)
    } else {
        None
    }
}

impl QValue {
    /// The value lies between 0 and 1.
    pub open spec fn wf(self) -> bool {
        self.0 <= QVALUE_MAX
    }

    pub fn unacceptable() -> (q: Self)
        ensures
            q == QValue(0),
    {
        QValue(0)
    }

    pub fn max() -> (q: Self)
        ensures
            q == QValue(QVALUE_MAX),
    {
        QValue(QVALUE_MAX)
    }

    /// The quality value of so many thousandths, if they are no more than
    /// a thousand.
    pub fn from_thousandths(value: u16) -> (q: Option<Self>)
        ensures
            q == if value <= QVALUE_MAX {
                Some(QValue(value))
            } else {
                None
            },
    {
        if value <= QVALUE_MAX {
            Some(QValue(value))
        } else {
            None
        }
    }

    pub fn is_unacceptable(&self) -> (yes: bool)
        ensures
            yes == (self.0 == 0),
    {
        self.0 == 0
    }

    pub fn is_acceptable(&self) -> (yes: bool)
        ensures
            yes == (self.0 != 0),
    {
        self.0 != 0
    }

    /// Takes a weight: `;q=` and a quality value, with optional blanks
    /// around the `;`.
    pub fn parse_weight(s: &[u8], from: usize) -> (step: Option<(usize, QValue)>)
        requires
            from <= s@.len(),
        ensures
            step_of(step) == weight_at(s@, from as int),
            step matches Some((end, q)) ==> from < end <= s@.len() && q.wf(),
    {
        let at = ows(s, from);
        let at = match c(s, at, SEMICOLON) {
            Some(at) => at,
            None => {
                return None;
            },
        };
        let at = ows(s, at);
        let at = match c2(s, at, LOWER_Q, UPPER_Q) {
            Some(at) => at,
            None => {
                return None;
            },
        };
        let at = match c(s, at, EQUALS) {
            Some(at) => at,
            None => {
                return None;
            },
        };
        Self::parse(s, at)
    }

    /// Takes a quality value.
    pub fn parse(s: &[u8], from: usize) -> (step: Option<(usize, QValue)>)
        requires
            from <= s@.len(),
        ensures
            step_of(step) == qvalue_at(s@, from as int),
            step matches Some((end, q)) ==> from < end <= s@.len() && q.wf(),
    {
        reveal_with_fuel(digits_run, 4);
        reveal_with_fuel(zeros_run, 4);
        if from >= s.len() {
            return None;
        }
        if s[from] == DIGIT_0 {
            let mut v: u16 = 0;
            let mut end = from + 1;
            if end < s.len() && s[end] == POINT {
                end = from + 2;
                if let Some((next, d)) = digit(s, end) {
                    v = v + d as u16 * 100;
                    end = next;
                    if let Some((next, d)) = digit(s, end) {
                        v = v + d as u16 * 10;
                        end = next;
                        if let Some((next, d)) = digit(s, end) {
                            v = v + d as u16;
                            end = next;
                        }
                    }
                }
            }
            Some((end, QValue(v)))
        } else if s[from] == DIGIT_1 {
            let mut end = from + 1;
            if end < s.len() && s[end] == POINT {
                end = from + 2;
                if let Some(next) = c(s, end, DIGIT_0) {
                    end = next;
                    if let Some(next) = c(s, end, DIGIT_0) {
                        end = next;
                        if let Some(next) = c(s, end, DIGIT_0) {
                            end = next;
                        }
                    }
                }
            }
            Some((end, QValue(QVALUE_MAX)))
        } else {
            None
        }
    }

    /// Reads a quality value that fills the whole text.
    pub fn from_str(s: &str) -> (q: Result<QValue, ()>)
        ensures
            q is Ok <==> (qvalue_at(s.spec_bytes(), 0) matches Some((end, _)) && end
                == s.spec_bytes().len()),
            q matches Ok(value) ==> qvalue_at(s.spec_bytes(), 0) == Some(
                (s.spec_bytes().len() as int, value),
            ),
    {
        let bytes = s.as_bytes();
        match Self::parse(bytes, 0) {
            Some((end, value)) => if end == bytes.len() {
                Ok(value)
            } else {
                Err(())
            },
            None => Err(()),
        }
    }

    /// The shortest decimal text of the value: `0`, `0.5`, `0.125`, `1`.
    pub fn to_string(&self) -> (text: String)
        requires
            self.wf(),
        ensures
            text@ == qvalue_text(self.0),
    {
        let mut text = String::from_str(digit_str((self.0 / 1000) as u8));
        let frac = self.0 % 1000;
        if frac != 0 {
            text.append(".");
            text.append(digit_str((frac / 100) as u8));
            if frac % 100 != 0 {
                text.append(digit_str((frac % 100 / 10) as u8));
                if frac % 10 != 0 {
                    text.append(digit_str((frac % 10) as u8));
                }
            }
        }
        proof {
            reveal_strlit(".");
        }
        text
    }
}

impl Default for QValue {
    fn default() -> (q: Self)
        ensures
            q == QValue(QVALUE_MAX),
    {
        QValue(QVALUE_MAX)
    }
}

/// The text of a decimal digit.
pub fn digit_str(d: u8) -> (text: &'static str)
    requires
        d <= 9,
    ensures
        text@ == digit_text(d as int),
{
    proof {
        reveal_strlit("0");
        reveal_strlit("1");
        reveal_strlit("2");
        reveal_strlit("3");
        reveal_strlit("4");
        reveal_strlit("5");
        reveal_strlit("6");
        reveal_strlit("7");
        reveal_strlit("8");
        reveal_strlit("9");
    }
    let text = match d {
        0 => "0",
        1 => "1",
        2 => "2",
        3 => "3",
        4 => "4",
        5 => "5",
        6 => "6",
        7 => "7",
        8 => "8",
        _ => "9",
    };
    text
}

} // verus!
