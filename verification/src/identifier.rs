//! Universally unique identifiers: a 128-bit value, the texts that are read as
//! one, and the text that one is written as.

use vstd::prelude::*;

verus! {

/// Whether `c` is a hexadecimal digit: `0`-`9`, `a`-`f` or `A`-`F`.
pub open spec fn is_hex_digit(c: char) -> bool {
    ('0' <= c && c <= '9') || ('a' <= c && c <= 'f') || ('A' <= c && c <= 'F')
}

/// The number from 0 to 15 that the hexadecimal digit `c` stands for.
pub open spec fn hex_digit_value(c: char) -> int {
    if '0' <= c && c <= '9' {
        c as int - '0' as int
    } else if 'a' <= c && c <= 'f' {
        c as int - 'a' as int + 10
    } else {
        c as int - 'A' as int + 10
    }
}

/// The lower-case hexadecimal digit for a number from 0 to 15.
pub open spec fn lower_hex_digit(n: int) -> char {
    if n < 10 {
        ('0' as int + n) as char
    } else {
        ('a' as int + n - 10) as char
    }
}

/// Whether every character of `s` is a hexadecimal digit.
pub open spec fn is_hex_digits(s: Seq<char>) -> bool {
    forall|i: int| 0 <= i < s.len() ==> is_hex_digit(#[trigger] s[i])
}

/// The number that the hexadecimal digits `digits` write, the most
/// significant digit first.
pub open spec fn hex_number(digits: Seq<char>) -> int
    decreases digits.len(),
{
    if digits.len() == 0 {
        0
    } else {
        16 * hex_number(digits.drop_last()) + hex_digit_value(digits.last())
    }
}

/// The last `count` hexadecimal digits of `n`, in lower case, the most
/// significant first.
pub open spec fn lower_hex(n: int, count: nat) -> Seq<char>
    decreases count,
{
    if count == 0 {
        Seq::<char>::empty()
    } else {
        lower_hex(n / 16, (count - 1) as nat).push(lower_hex_digit(n % 16))
    }
}

/// 16 to the power `count`.
pub open spec fn sixteen_to(count: nat) -> int
    decreases count,
{
    if count == 0 {
        1
    } else {
        16 * sixteen_to((count - 1) as nat)
    }
}

/// A lower-case digit reads back as the number it was written for.
pub proof fn lemma_digit_round_trip(n: int)
    requires
        0 <= n < 16,
    ensures
        is_hex_digit(lower_hex_digit(n)),
        hex_digit_value(lower_hex_digit(n)) == n,
{
}

/// `count` digits written for a number below 16 to the power `count` read
/// back as that number.
pub proof fn lemma_hex_round_trip(n: int, count: nat)
    requires
        0 <= n < sixteen_to(count),
    ensures
        lower_hex(n, count).len() == count,
        is_hex_digits(lower_hex(n, count)),
        hex_number(lower_hex(n, count)) == n,
    decreases count,
{
    if count > 0 {
        let rest = lower_hex(n / 16, (count - 1) as nat);
        lemma_hex_round_trip(n / 16, (count - 1) as nat);
        lemma_digit_round_trip(n % 16);
        assert(lower_hex(n, count).drop_last() == rest);
    }
}

/// The 32 digits of a text of 36 characters with a hyphen after the 8th,
/// 12th, 16th and 20th digit: what is left when the four hyphens are taken
/// out.
pub open spec fn hyphenated_digits(s: Seq<char>) -> Seq<char> {
    s.subrange(0, 8) + s.subrange(9, 13) + s.subrange(14, 18) + s.subrange(19, 23) + s.subrange(
        24,
        36,
    )
}

/// Whether `s` is 32 hexadecimal digits.
pub open spec fn is_simple(s: Seq<char>) -> bool {
    s.len() == 32 && is_hex_digits(s)
}

/// Whether `s` is 32 hexadecimal digits in groups of 8, 4, 4, 4 and 12 with a
/// hyphen between the groups.
pub open spec fn is_hyphenated(s: Seq<char>) -> bool {
    &&& s.len() == 36
    &&& s[8] == '-' && s[13] == '-' && s[18] == '-' && s[23] == '-'
    &&& is_hex_digits(hyphenated_digits(s))
}

/// Whether `s` is a hyphenated text between `{` and `}`.
pub open spec fn is_braced(s: Seq<char>) -> bool {
    s.len() == 38 && s[0] == '{' && s[37] == '}' && is_hyphenated(s.subrange(1, 37))
}

/// Whether `p` is `urn:uuid:`, each letter in either case.
pub open spec fn is_urn_prefix(p: Seq<char>) -> bool {
    &&& p.len() == 9
    &&& (p[0] == 'u' || p[0] == 'U')
    &&& (p[1] == 'r' || p[1] == 'R')
    &&& (p[2] == 'n' || p[2] == 'N')
    &&& p[3] == ':'
    &&& (p[4] == 'u' || p[4] == 'U')
    &&& (p[5] == 'u' || p[5] == 'U')
    &&& (p[6] == 'i' || p[6] == 'I')
    &&& (p[7] == 'd' || p[7] == 'D')
    &&& p[8] == ':'
}

/// Whether `s` is a hyphenated text behind `urn:uuid:`.
pub open spec fn is_urn(s: Seq<char>) -> bool {
    s.len() == 45 && is_urn_prefix(s.subrange(0, 9)) && is_hyphenated(s.subrange(9, 45))
}

/// Whether `s` is valid identifier syntax: one of the four accepted forms.
pub open spec fn is_uuid_text(s: Seq<char>) -> bool {
    is_simple(s) || is_hyphenated(s) || is_braced(s) || is_urn(s)
}

/// The 32 digits of a text in one of the four accepted forms.
pub open spec fn uuid_digits(s: Seq<char>) -> Seq<char> {
    if s.len() == 32 {
        s
    } else if s.len() == 36 {
        hyphenated_digits(s)
    } else if s.len() == 38 {
        hyphenated_digits(s.subrange(1, 37))
    } else {
        hyphenated_digits(s.subrange(9, 45))
    }
}

/// The 128-bit value that a text in one of the four accepted forms stands
/// for: its 32 digits read as one hexadecimal number.
pub open spec fn uuid_value(s: Seq<char>) -> int {
    hex_number(uuid_digits(s))
}

/// The text that a value is written as: its 32 lower-case hexadecimal digits,
/// hyphenated.
pub open spec fn hyphenated_text(value: u128) -> Seq<char> {
    let d = lower_hex(value as int, 32);
    d.subrange(0, 8) + seq!['-'] + d.subrange(8, 12) + seq!['-'] + d.subrange(12, 16) + seq!['-']
        + d.subrange(16, 20) + seq!['-'] + d.subrange(20, 32)
}

/// Every 128-bit value is below 16 to the power 32.
pub proof fn lemma_u128_has_32_digits(value: u128)
    ensures
        value < sixteen_to(32),
{
    reveal_with_fuel(sixteen_to, 33);
    assert(sixteen_to(32) == 0x1_0000_0000_0000_0000_0000_0000_0000_0000);
}

/// The text that a value is written as is valid identifier syntax, and
/// stands for that value.
pub proof fn lemma_text_round_trip(value: u128)
    ensures
        is_hyphenated(hyphenated_text(value)),
        is_uuid_text(hyphenated_text(value)),
        uuid_value(hyphenated_text(value)) == value,
{
    let d = lower_hex(value as int, 32);
    let text = hyphenated_text(value);
    lemma_u128_has_32_digits(value);
    lemma_hex_round_trip(value as int, 32);
    assert(text.len() == 36);
    assert(hyphenated_digits(text) =~= d);
}

/// The text of the error with which `uuid::Uuid::parse_str` refuses `input`.
pub uninterp spec fn parse_error_text(input: Seq<char>) -> Seq<char>;

/// Calls `uuid::Uuid::parse_str` and hands back the value as a number
/// (`Uuid::as_u128`: the 16 bytes, the first the most significant) or the
/// error as its `Display` text. The contract claims that the parser accepts
/// exactly the four forms of `is_uuid_text`, reads the 32 digits as one
/// hexadecimal number, and that the error's text depends on the input alone.
#[verifier::external_body]
fn parse_str(input: &str) -> (parsed: Result<u128, String>)
    ensures
        match parsed {
            Ok(value) => is_uuid_text(input@) && value == uuid_value(input@),
            Err(text) => !is_uuid_text(input@) && text@ == parse_error_text(input@),
        },
{
    match uuid::Uuid::parse_str(input) {
        Ok(id) => Ok(id.as_u128()),
        Err(error) => Err(error.to_string()),
    }
}

/// Calls `Display` of `uuid::Uuid` (through `to_string`) on the identifier
/// with the given value (`Uuid::from_u128`). The contract claims that it
/// writes the 32 lower-case hexadecimal digits of the value, hyphenated.
#[verifier::external_body]
fn to_string(value: u128) -> (text: String)
    ensures
        text@ == hyphenated_text(value),
{
    uuid::Uuid::from_u128(value).to_string()
}

/// A universally unique identifier, held as its 128-bit value.
#[derive(Clone, Copy, Debug, PartialEq, Eq, Structural)]
pub struct Uuid {
    pub value: u128,
}

impl Uuid {
    /// The identifier with the given value.
    pub fn from_u128(value: u128) -> (id: Uuid)
        ensures
            id.value == value,
    {
        Uuid { value }
    }

    /// The value of the identifier.
    pub fn as_u128(&self) -> (value: u128)
        ensures
            value == self.value,
    {
        self.value
    }

    /// Reads an identifier from a text. The text is accepted exactly when it
    /// is valid identifier syntax; a refusal carries the parser's message.
    pub fn parse_str(input: &str) -> (parsed: Result<Uuid, String>)
        ensures
            match parsed {
                Ok(id) => is_uuid_text(input@) && id.value == uuid_value(input@),
                Err(text) => !is_uuid_text(input@) && text@ == parse_error_text(input@),
            },
    {
        match parse_str(input) {
            Ok(value) => Ok(Uuid { value }),
            Err(text) => Err(text),
        }
    }

    /// Writes the identifier as text: hyphenated, in lower case. The text is
    /// valid identifier syntax and reads back as this identifier.
    pub fn to_text(&self) -> (text: String)
        ensures
            text@ == hyphenated_text(self.value),
            is_uuid_text(text@),
            uuid_value(text@) == self.value,
    {
        proof {
            lemma_text_round_trip(self.value);
        }
        to_string(self.value)
    }
}

} // verus!
