//! Camelot-wheel key value object: a wheel position `1..=12` and a minor/major letter.
use vstd::prelude::*;
use vstd::string::*;
use crate::domain::validation::{ValueError, ValueField};
use crate::text::{decimal, decimal_text, digit_char};

verus! {

/// Lowest valid Camelot wheel position.
pub const POSITION_MIN: u8 = 1;
/// Highest valid Camelot wheel position.
pub const POSITION_MAX: u8 = 12;

/// The major/minor axis of the Camelot wheel: `B` = major, `A` = minor.
#[derive(Debug, Clone, Copy, PartialEq, Eq, Structural)]
pub enum CamelotLetter {
    /// Minor keys (inner wheel).
    A,
    /// Major keys (outer wheel).
    B,
}

impl CamelotLetter {
    /// The single-character wheel label.
    pub open spec fn spec_str(self) -> Seq<char> {
        match self {
            CamelotLetter::A => seq!['A'],
            CamelotLetter::B => seq!['B'],
        }
    }

    /// The letter a character names, ignoring ASCII case.
    pub open spec fn spec_from_char(c: char) -> Option<CamelotLetter> {
        if c == 'A' || c == 'a' {
            Some(CamelotLetter::A)
        } else if c == 'B' || c == 'b' {
            Some(CamelotLetter::B)
        } else {
            None
        }
    }

    /// The single-character wheel label (`"A"` or `"B"`).
    pub fn as_str(self) -> (s: &'static str)
        ensures
            s@ == self.spec_str(),
    {
        proof {
            reveal_strlit("A");
            reveal_strlit("B");
        }
        match self {
            CamelotLetter::A => "A",
            CamelotLetter::B => "B",
        }
    }

    /// Parses a single-character label (`A`/`B`, case-insensitive); `None` for anything else.
    pub fn from_char(letter: char) -> (r: Option<Self>)
        ensures
            r == Self::spec_from_char(letter),
    {
        if letter == 'A' || letter == 'a' {
            Some(CamelotLetter::A)
        } else if letter == 'B' || letter == 'b' {
            Some(CamelotLetter::B)
        } else {
            None
        }
    }
}

/// Whether `c` is an ASCII decimal digit.
pub open spec fn is_digit(c: char) -> bool {
    '0' <= c && c <= '9'
}

/// The numeric value of an ASCII decimal digit.
pub open spec fn digit_value(c: char) -> int {
    c as int - '0' as int
}

/// The value of a run of decimal digits, most significant first.
pub open spec fn digits_value(s: Seq<char>) -> int
    decreases s.len(),
{
    if s.len() == 0 {
        0
    } else {
        digits_value(s.drop_last()) * 10 + digit_value(s.last())
    }
}

/// What `str::parse::<u8>` gives for `s`: an optional `+`, then at least one decimal digit,
/// with a value that fits in a byte.
pub open spec fn spec_parse_u8(s: Seq<char>) -> Option<u8> {
    let digits = unsigned_digits(s);
    if digits.len() > 0 && (forall|i: int| 0 <= i < digits.len() ==> is_digit(#[trigger] digits[i]))
        && digits_value(digits) <= 255 {
        Some(digits_value(digits) as u8)
    } else {
        None
    }
}

/// The error `CamelotKey::parse` reports for text that is not `<position><letter>`.
pub open spec fn malformed_key() -> ValueError {
    ValueError::OutOfRange { field: ValueField::CamelotKey, min: 1, max: 12, value: None }
}

/// The error for a wheel position outside `1..=12`.
pub open spec fn position_error(position: u8) -> ValueError {
    ValueError::OutOfRange {
        field: ValueField::CamelotPosition,
        min: 1,
        max: 12,
        value: Some(position as i64),
    }
}

/// A harmonic key as a Camelot-wheel position (`1..=12`) plus letter, e.g. `8A`.
#[derive(Debug, Clone, Copy, PartialEq, Eq, Structural)]
pub struct CamelotKey {
    position: u8,
    letter: CamelotLetter,
}

impl View for CamelotKey {
    type V = (int, CamelotLetter);

    closed spec fn view(&self) -> (int, CamelotLetter) {
        (self.position as int, self.letter)
    }
}

/// The result of building a key from a position and a letter.
pub open spec fn spec_new_key(position: u8, letter: CamelotLetter, r: Result<CamelotKey, ValueError>) -> bool {
    match r {
        Ok(k) => 1 <= position <= 12 && k@ == (position as int, letter),
        Err(e) => !(1 <= position <= 12) && e == position_error(position),
    }
}

/// What `CamelotKey::parse` gives for `text`.
pub open spec fn spec_parse_key(text: Seq<char>, r: Result<CamelotKey, ValueError>) -> bool {
    if text.len() == 0 {
        r == Err::<CamelotKey, ValueError>(malformed_key())
    } else {
        match CamelotLetter::spec_from_char(text.last()) {
            None => r == Err::<CamelotKey, ValueError>(malformed_key()),
            Some(letter) => match spec_parse_u8(text.drop_last()) {
                None => r == Err::<CamelotKey, ValueError>(malformed_key()),
                Some(position) => spec_new_key(position, letter, r),
            },
        }
    }
}

impl CamelotKey {
    #[verifier::type_invariant]
    spec fn on_wheel(self) -> bool {
        POSITION_MIN <= self.position <= POSITION_MAX
    }

    /// The canonical text form: the position in decimal, then the letter.
    pub open spec fn spec_text(self) -> Seq<char> {
        decimal(self@.0 as nat) + self@.1.spec_str()
    }

    /// Builds a Camelot key, validating the `1..=12` wheel position.
    pub fn new(position: u8, letter: CamelotLetter) -> (r: Result<Self, ValueError>)
        ensures
            spec_new_key(position, letter, r),
    {
        if position < POSITION_MIN || position > POSITION_MAX {
            return Err(ValueError::OutOfRange {
                field: ValueField::CamelotPosition,
                min: 1,
                max: 12,
                value: Some(position as i64),
            });
        }
        Ok(CamelotKey { position, letter })
    }

    /// Parses the canonical `"<position><letter>"` form (e.g. `"8A"`).
    pub fn parse(text: &str) -> (r: Result<Self, ValueError>)
        ensures
            spec_parse_key(text@, r),
    {
        let n = text.unicode_len();
        if n == 0 {
            return Err(ValueError::OutOfRange {
                field: ValueField::CamelotKey,
                min: 1,
                max: 12,
                value: None,
            });
        }
        let letter = match CamelotLetter::from_char(text.get_char(n - 1)) {
            Some(letter) => letter,
            None => {
                return Err(ValueError::OutOfRange {
                    field: ValueField::CamelotKey,
                    min: 1,
                    max: 12,
                    value: None,
                });
            },
        };
        match parse_u8_prefix(text, n - 1) {
            Some(position) => Self::new(position, letter),
            None => Err(ValueError::OutOfRange {
                field: ValueField::CamelotKey,
                min: 1,
                max: 12,
                value: None,
            }),
        }
    }

    /// The wheel position (`1..=12`).
    pub fn position(self) -> (p: u8)
        ensures
            p == self@.0,
            1 <= p <= 12,
    {
        proof {
            use_type_invariant(&self);
        }
        self.position
    }

    /// The major/minor letter.
    pub fn letter(self) -> (l: CamelotLetter)
        ensures
            l == self@.1,
    {
        self.letter
    }

    /// The canonical text form, e.g. `"8A"`.
    pub fn to_string(self) -> (s: String)
        ensures
            s@ == self.spec_text(),
    {
        let mut s = decimal_text(self.position as u64);
        s.append(self.letter.as_str());
        s
    }
}

/// Extending a run of digits never lowers its value.
proof fn lemma_digits_value_grows(s: Seq<char>)
    requires
        s.len() > 0,
        forall|i: int| 0 <= i < s.len() ==> is_digit(#[trigger] s[i]),
    ensures
        digits_value(s) >= digits_value(s.drop_last()),
        digits_value(s.drop_last()) >= 0,
    decreases s.len(),
{
    if s.len() > 1 {
        lemma_digits_value_grows(s.drop_last());
        assert(s.drop_last().drop_last() =~= s.drop_last().drop_last());
    }
}

/// Every prefix of a run of digits is a run of digits with a value no larger.
proof fn lemma_digits_prefix(s: Seq<char>, k: int)
    requires
        0 <= k <= s.len(),
        forall|i: int| 0 <= i < s.len() ==> is_digit(#[trigger] s[i]),
    ensures
        0 <= digits_value(s.take(k)) <= digits_value(s),
    decreases s.len() - k,
{
    if k == s.len() {
        assert(s.take(k) =~= s);
        if s.len() > 0 {
            lemma_digits_nonneg(s);
        }
    } else {
        lemma_digits_prefix(s, k + 1);
        let t = s.take(k + 1);
        assert(t.drop_last() =~= s.take(k));
        assert forall|i: int| 0 <= i < t.len() implies is_digit(#[trigger] t[i]) by {
            assert(t[i] == s[i]);
        }
        lemma_digits_value_grows(t);
    }
}

/// A run of digits has a non-negative value.
proof fn lemma_digits_nonneg(s: Seq<char>)
    requires
        forall|i: int| 0 <= i < s.len() ==> is_digit(#[trigger] s[i]),
    ensures
        digits_value(s) >= 0,
    decreases s.len(),
{
    if s.len() > 0 {
        assert forall|i: int| 0 <= i < s.drop_last().len() implies is_digit(
            #[trigger] s.drop_last()[i],
        ) by {
            assert(s.drop_last()[i] == s[i]);
        }
        lemma_digits_nonneg(s.drop_last());
    }
}

/// The digits part of a `u8` literal: the text after an optional leading `+`.
pub open spec fn unsigned_digits(s: Seq<char>) -> Seq<char> {
    if s.len() > 0 && s[0] == '+' { s.drop_first() } else { s }
}

/// A literal whose digits part holds a non-digit does not parse.
proof fn lemma_parse_u8_rejects(s: Seq<char>, k: int)
    requires
        0 <= k < unsigned_digits(s).len(),
        !is_digit(unsigned_digits(s)[k]),
    ensures
        spec_parse_u8(s) == None::<u8>,
{
}

/// Parses the first `len` characters of `text` as `str::parse::<u8>` would.
fn parse_u8_prefix(text: &str, len: usize) -> (r: Option<u8>)
    requires
        len <= text@.len(),
    ensures
        r == spec_parse_u8(text@.take(len as int)),
{
    let ghost s = text@.take(len as int);
    let mut start: usize = 0;
    if len > 0 && text.get_char(0) == '+' {
        start = 1;
    }
    let ghost digits = unsigned_digits(s);
    assert(digits =~= s.skip(start as int));
    if start == len {
        return None;
    }
    let mut value: u32 = 0;
    let mut i: usize = start;
    while i < len
        invariant
            start <= i <= len,
            start < len,
            len <= text@.len(),
            s == text@.take(len as int),
            digits == s.skip(start as int),
            digits == unsigned_digits(s),
            digits.len() == len - start,
            forall|j: int| 0 <= j < i - start ==> is_digit(#[trigger] digits[j]),
            value as int == digits_value(digits.take(i - start)),
            value <= 255,
        decreases len - i,
    {
        let c = text.get_char(i);
        let ghost k: int = i - start;
        assert(c == digits[k]);
        if c < '0' || c > '9' {
            proof {
                lemma_parse_u8_rejects(s, k);
            }
            return None;
        }
        let ghost next = digits.take(k + 1);
        assert(next.drop_last() =~= digits.take(k));
        assert(next.last() == c);
        let d = (c as u32) - ('0' as u32);
        assert(d as int == digit_value(c));
        value = value * 10 + d;
        i = i + 1;
        assert(value as int == digits_value(next));
        if value > 255 {
            proof {
                if forall|j: int| 0 <= j < digits.len() ==> is_digit(#[trigger] digits[j]) {
                    lemma_digits_prefix(digits, k + 1);
                    assert(digits_value(digits) > 255);
                } else {
                }
                assert(spec_parse_u8(s) == None::<u8>);
            }
            return None;
        }
    }
    assert(digits.take(len - start) =~= digits);
    Some(value as u8)
}

/// The rendering of a byte in decimal reads back as that byte.
pub proof fn lemma_parse_u8_decimal(n: u8)
    ensures
        spec_parse_u8(decimal(n as nat)) == Some(n),
{
    lemma_decimal_digits(n as nat);
}

/// `decimal(n)` is a non-empty run of digits, not starting with `+`, whose value is `n`.
proof fn lemma_decimal_digits(n: nat)
    ensures
        decimal(n).len() > 0,
        forall|i: int| 0 <= i < decimal(n).len() ==> is_digit(#[trigger] decimal(n)[i]),
        digits_value(decimal(n)) == n,
        decimal(n)[0] != '+',
    decreases n,
{
    if n >= 10 {
        lemma_decimal_digits(n / 10);
        let s = decimal(n);
        assert(s.drop_last() =~= decimal(n / 10));
        assert(s[0] == decimal(n / 10)[0]);
        assert(digit_value(digit_char(n % 10)) == n % 10);
        assert(s.last() == digit_char(n % 10));
        assert(digits_value(s) == digits_value(s.drop_last()) * 10 + digit_value(s.last()));
        vstd::arithmetic::div_mod::lemma_fundamental_div_mod(n as int, 10);
        assert(digits_value(s) == (n / 10) * 10 + n % 10);
    } else {
        assert(digit_value(digit_char(n)) == n);
        assert(decimal(n).drop_last() =~= Seq::<char>::empty());
        assert(digits_value(Seq::<char>::empty()) == 0);
    }
}

/// Reading back a key's canonical text gives the key: `parse(k.to_string()) == Ok(k)`.
pub proof fn lemma_key_text_round_trip(k: CamelotKey, r: Result<CamelotKey, ValueError>)
    requires
        1 <= k@.0 <= 12,
        spec_parse_key(k.spec_text(), r),
    ensures
        r == Ok::<CamelotKey, ValueError>(k),
{
    let t = k.spec_text();
    let p = k@.0 as u8;
    lemma_parse_u8_decimal(p);
    assert(t.drop_last() =~= decimal(p as nat));
    assert(t.last() == k@.1.spec_str()[0]);
    match r {
        Ok(k2) => {
            assert(k2@ == k@);
            lemma_key_view_injective(k, k2);
        },
        Err(_) => {},
    }
}

/// Two keys with the same position and letter are the same key.
pub proof fn lemma_key_view_injective(a: CamelotKey, b: CamelotKey)
    requires
        a@ == b@,
    ensures
        a == b,
{
    assert(a.position == b.position);
    assert(a.letter == b.letter);
}

} // verus!
