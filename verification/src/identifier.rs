//! Universally unique identifiers, held as the 128-bit numbers they are.

use vstd::prelude::*;

verus! {

/// A universally unique identifier.
#[derive(Debug, Clone, Copy, PartialEq, Eq, Structural)]
pub struct Uuid {
    pub bits: u128,
}

/// The lower-case hexadecimal digit of `d`, for `d` below sixteen.
pub open spec fn hex_digit(d: int) -> char {
    if d < 10 {
        (('0' as int) + d) as char
    } else {
        (('a' as int) + (d - 10)) as char
    }
}

/// The value of a hexadecimal digit of either case.
pub open spec fn digit_value(c: char) -> Option<int> {
    if '0' <= c <= '9' {
        Some(c as int - '0' as int)
    } else if 'a' <= c <= 'f' {
        Some(c as int - 'a' as int + 10)
    } else if 'A' <= c <= 'F' {
        Some(c as int - 'A' as int + 10)
    } else {
        None
    }
}

/// The last `n` hexadecimal digits of `v`, most significant first.
pub open spec fn hex_digits(v: int, n: nat) -> Seq<char>
    decreases n,
{
    if n == 0 {
        Seq::empty()
    } else {
        hex_digits(v / 16, (n - 1) as nat).push(hex_digit(v % 16))
    }
}

/// The number that hexadecimal digits spell, if they all are digits.
pub open spec fn hex_number(s: Seq<char>) -> Option<int>
    decreases s.len(),
{
    if s.len() == 0 {
        Some(0)
    } else {
        match (hex_number(s.drop_last()), digit_value(s.last())) {
            (Some(high), Some(low)) => Some(high * 16 + low),
            _ => None,
        }
    }
}

/// Thirty-two characters in groups of 8, 4, 4, 4 and 12, hyphens between them.
pub open spec fn grouped(d: Seq<char>) -> Seq<char> {
    d.subrange(0, 8).push('-') + d.subrange(8, 12).push('-') + d.subrange(12, 16).push('-')
        + d.subrange(16, 20).push('-') + d.subrange(20, 32)
}

/// The five groups of a hyphenated text, put together.
pub open spec fn ungrouped(s: Seq<char>) -> Seq<char> {
    s.subrange(0, 8) + s.subrange(9, 13) + s.subrange(14, 18) + s.subrange(19, 23) + s.subrange(
        24,
        36,
    )
}

/// How an identifier is written: hyphenated, in lower case.
pub open spec fn uuid_text(bits: u128) -> Seq<char> {
    grouped(hex_digits(bits as int, 32))
}

/// The number that a hyphenated text spells, if it is one.
pub open spec fn hyphenated_number(s: Seq<char>) -> Option<int> {
    if s.len() == 36 && s[8] == '-' && s[13] == '-' && s[18] == '-' && s[23] == '-' {
        hex_number(ungrouped(s))
    } else {
        None
    }
}

/// The lower-case form of an ASCII letter; any other character as it is.
pub open spec fn ascii_lower(c: char) -> char {
    if 'A' <= c <= 'Z' {
        ((c as int) + 32) as char
    } else {
        c
    }
}

/// A text with its ASCII letters in lower case.
pub open spec fn ascii_lowered(s: Seq<char>) -> Seq<char> {
    s.map_values(|c: char| ascii_lower(c))
}

/// The number of an identifier in any of its four written forms: plain digits,
/// hyphenated, hyphenated in braces, and hyphenated behind `urn:uuid:` in any
/// case of letters.
pub open spec fn uuid_number(s: Seq<char>) -> Option<int> {
    if s.len() == 32 {
        hex_number(s)
    } else if s.len() == 36 {
        hyphenated_number(s)
    } else if s.len() == 38 && s.first() == '{' && s.last() == '}' {
        hyphenated_number(s.subrange(1, 37))
    } else if s.len() == 45 && ascii_lowered(s.take(9)) == "urn:uuid:"@ {
        hyphenated_number(s.skip(9))
    } else {
        None
    }
}

/// An identifier of version 4: the version and variant bits are fixed, the
/// others are random.
pub open spec fn is_version_4(bits: u128) -> bool {
    (bits >> 76) & 0xf == 4 && (bits >> 62) & 0x3 == 2
}

impl Uuid {
    /// `uuid::Uuid::new_v4`: a fresh identifier out of the operating system's
    /// random numbers.  Only its version and variant bits are certain; it
    /// panics where the system has no random numbers to give, which no
    /// condition on its arguments (it has none) can rule out.
    #[verifier::external_body]
    pub(crate) fn new_v4() -> (id: Uuid)
        ensures
            is_version_4(id.bits),
    {
        Uuid { bits: ::uuid::Uuid::new_v4().as_u128() }
    }

    /// `uuid::Uuid::parse_str`: reads an identifier in any of its written forms
    /// and refuses every other text.
    #[verifier::external_body]
    pub(crate) fn parse_str(input: &str) -> (id: Option<Uuid>)
        ensures
            match id {
                Some(id) => uuid_number(input@) == Some(id.bits as int),
                None => uuid_number(input@) is None,
            },
    {
        ::uuid::Uuid::parse_str(input).ok().map(|id| Uuid { bits: id.as_u128() })
    }

    /// The `Display` form of `uuid::Uuid`: hyphenated lower-case hexadecimal.
    #[verifier::external_body]
    pub(crate) fn to_string(&self) -> (text: String)
        ensures
            text@ == uuid_text(self.bits),
    {
        ::uuid::Uuid::from_u128(self.bits).to_string()
    }
}

proof fn lemma_hex_digit_value(d: int)
    requires
        0 <= d < 16,
    ensures
        digit_value(hex_digit(d)) == Some(d),
{
}

proof fn lemma_hex_digits_number(v: int, n: nat)
    requires
        0 <= v < vstd::arithmetic::power::pow(16, n),
    ensures
        hex_digits(v, n).len() == n,
        hex_number(hex_digits(v, n)) == Some(v),
    decreases n,
{
    reveal(vstd::arithmetic::power::pow);
    if n > 0 {
        let high = v / 16;
        let low = v % 16;
        assert(vstd::arithmetic::power::pow(16, n) == 16 * vstd::arithmetic::power::pow(16, (n - 1) as nat));
        lemma_hex_digits_number(high, (n - 1) as nat);
        lemma_hex_digit_value(low);
        let digits = hex_digits(v, n);
        assert(digits.drop_last() =~= hex_digits(high, (n - 1) as nat));
    }
}

proof fn lemma_hex_number_bound(s: Seq<char>)
    ensures
        hex_number(s) is Some ==> 0 <= hex_number(s)->0 < vstd::arithmetic::power::pow(16, s.len()),
    decreases s.len(),
{
    reveal(vstd::arithmetic::power::pow);
    if s.len() > 0 {
        lemma_hex_number_bound(s.drop_last());
        assert(vstd::arithmetic::power::pow(16, s.len()) == 16 * vstd::arithmetic::power::pow(
            16,
            (s.len() - 1) as nat,
        ));
    }
}

/// What is read as an identifier fits into one.
pub proof fn lemma_uuid_number_bound(s: Seq<char>)
    ensures
        uuid_number(s) is Some ==> 0 <= uuid_number(s)->0 <= u128::MAX,
{
    assert(vstd::arithmetic::power::pow(16, 32) == 0x1_0000_0000_0000_0000_0000_0000_0000_0000) by {
        reveal(vstd::arithmetic::power::pow);
        reveal_with_fuel(vstd::arithmetic::power::pow, 33);
    }
    lemma_hex_number_bound(s);
    lemma_hex_number_bound(ungrouped(s));
    lemma_hex_number_bound(ungrouped(s.subrange(1, 37)));
    lemma_hex_number_bound(ungrouped(s.skip(9)));
}

/// A character that an identifier is written with.
pub open spec fn is_identifier_char(c: char) -> bool {
    '0' <= c <= '9' || 'a' <= c <= 'f' || c == '-'
}

proof fn lemma_hex_digits_chars(v: int, n: nat)
    ensures
        hex_digits(v, n).len() == n,
        forall|i: int| 0 <= i < n ==> is_identifier_char(#[trigger] hex_digits(v, n)[i]),
    decreases n,
{
    if n > 0 {
        lemma_hex_digits_chars(v / 16, (n - 1) as nat);
    }
}

pub proof fn lemma_uuid_text_chars(bits: u128)
    ensures
        uuid_text(bits).len() == 36,
        forall|i: int| 0 <= i < 36 ==> is_identifier_char(#[trigger] uuid_text(bits)[i]),
{
    lemma_hex_digits_chars(bits as int, 32);
}

/// What is written is read back: the text of an identifier spells that
/// identifier and no other.
pub proof fn law_written_identifier_is_read_back(id: Uuid)
    ensures
        uuid_number(uuid_text(id.bits)) == Some(id.bits as int),
{
    let digits = hex_digits(id.bits as int, 32);
    assert(vstd::arithmetic::power::pow(16, 32) == 0x1_0000_0000_0000_0000_0000_0000_0000_0000) by {
        reveal(vstd::arithmetic::power::pow);
        reveal_with_fuel(vstd::arithmetic::power::pow, 33);
    }
    lemma_hex_digits_number(id.bits as int, 32);
    assert(ungrouped(grouped(digits)) =~= digits);
}

} // verus!
