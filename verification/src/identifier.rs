//! Identifiers of customers and vessels: 128-bit values with a canonical text form.

use vstd::prelude::*;

verus! {

/// A universally unique identifier, held as its 128-bit value (most significant byte first).
#[derive(Clone, Copy, Debug, PartialEq, Eq, Structural)]
pub struct Uuid {
    pub value: u128,
}

/// The lower-case hexadecimal digit of a value below sixteen.
pub open spec fn hex_digit(nibble: nat) -> char {
    seq!['0', '1', '2', '3', '4', '5', '6', '7', '8', '9', 'a', 'b', 'c', 'd', 'e', 'f'][nibble as int]
}

/// The last `count` hexadecimal digits of `value`, most significant first.
pub open spec fn hex_digits(value: nat, count: nat) -> Seq<char>
    decreases count,
{
    if count == 0 {
        Seq::empty()
    } else {
        hex_digits(value / 16, (count - 1) as nat).push(hex_digit(value % 16))
    }
}

/// The canonical text of an identifier: its 32 hexadecimal digits in groups of
/// 8, 4, 4, 4 and 12, with a hyphen between the groups.
pub open spec fn hyphenated(value: u128) -> Seq<char> {
    let digits = hex_digits(value as nat, 32);
    digits.subrange(0, 8) + seq!['-'] + digits.subrange(8, 12) + seq!['-'] + digits.subrange(12, 16)
        + seq!['-'] + digits.subrange(16, 20) + seq!['-'] + digits.subrange(20, 32)
}

/// What `uuid::Uuid::parse_str` makes of a text: the value it reads, or `None` where it
/// rejects the text.
pub uninterp spec fn uuid_parse(text: Seq<char>) -> Option<u128>;

/// Whether a text is the canonical text of some identifier.
pub open spec fn is_hyphenated(text: Seq<char>) -> bool {
    exists|value: u128| text == #[trigger] hyphenated(value)
}

/// The identifier that a text stands for. A canonical text stands for the identifier it
/// was written from; any other text for what the parser makes of it.
pub open spec fn parsed(text: Seq<char>) -> Option<Uuid> {
    if is_hyphenated(text) {
        Some(Uuid { value: choose|value: u128| text == #[trigger] hyphenated(value) })
    } else {
        match uuid_parse(text) {
            Some(value) => Some(Uuid { value }),
            None => None,
        }
    }
}

/// The number of values that `count` hexadecimal digits can tell apart.
pub open spec fn capacity(count: nat) -> nat
    decreases count,
{
    if count == 0 {
        1
    } else {
        16 * capacity((count - 1) as nat)
    }
}

/// There are as many digits as were asked for.
proof fn lemma_hex_digits_len(value: nat, count: nat)
    ensures
        hex_digits(value, count).len() == count,
    decreases count,
{
    if count > 0 {
        lemma_hex_digits_len(value / 16, (count - 1) as nat);
    }
}

/// Two values that `count` digits can hold and that have the same digits are equal.
proof fn lemma_hex_digits_injective(a: nat, b: nat, count: nat)
    requires
        a < capacity(count),
        b < capacity(count),
        hex_digits(a, count) == hex_digits(b, count),
    ensures
        a == b,
    decreases count,
{
    if count > 0 {
        let rest = (count - 1) as nat;
        let left = hex_digits(a / 16, rest);
        let right = hex_digits(b / 16, rest);
        lemma_hex_digits_len(a / 16, rest);
        lemma_hex_digits_len(b / 16, rest);
        assert(left =~= hex_digits(a, count).drop_last());
        assert(right =~= hex_digits(b, count).drop_last());
        assert(hex_digit(a % 16) == hex_digits(a, count).last());
        assert(hex_digit(b % 16) == hex_digits(b, count).last());
        lemma_hex_digits_injective(a / 16, b / 16, rest);
        assert(a % 16 == b % 16);
    }
}

/// The canonical text has 36 characters, and the digits can be read back from it.
pub(crate) proof fn lemma_hyphenated_digits(value: u128)
    ensures
        hyphenated(value).len() == 36,
        hex_digits(value as nat, 32) == hyphenated(value).subrange(0, 8) + hyphenated(value).subrange(9, 13)
            + hyphenated(value).subrange(14, 18) + hyphenated(value).subrange(19, 23)
            + hyphenated(value).subrange(24, 36),
{
    lemma_hex_digits_len(value as nat, 32);
    let text = hyphenated(value);
    assert(hex_digits(value as nat, 32) =~= text.subrange(0, 8) + text.subrange(9, 13) + text.subrange(14, 18)
        + text.subrange(19, 23) + text.subrange(24, 36));
}

/// Different identifiers have different canonical texts.
pub proof fn hyphenated_identifies(a: u128, b: u128)
    requires
        hyphenated(a) == hyphenated(b),
    ensures
        a == b,
{
    lemma_hyphenated_digits(a);
    lemma_hyphenated_digits(b);
    assert(capacity(32) == 0x1_0000_0000_0000_0000_0000_0000_0000_0000) by {
        reveal_with_fuel(capacity, 33);
    }
    lemma_hex_digits_injective(a as nat, b as nat, 32);
}

/// Calls `uuid::Uuid::hyphenated` on the identifier of the given value and writes it out:
/// the result is the lower-case hyphenated form, as `hyphenated` states it.
#[verifier::external_body]
fn hyphenated_text(value: u128) -> (text: String)
    ensures
        text@ == hyphenated(value),
{
    uuid::Uuid::from_u128(value).hyphenated().to_string()
}

/// Calls `uuid::Uuid::parse_str`. The result is what the parser reads, `None` where it
/// rejects the text; the text that `hyphenated` writes for a value is read as that value.
#[verifier::external_body]
fn parse_text(text: &str) -> (value: Option<u128>)
    ensures
        value == uuid_parse(text@),
        forall|written: u128| text@ == #[trigger] hyphenated(written) ==> value == Some(written),
{
    match uuid::Uuid::parse_str(text) {
        Ok(id) => Some(id.as_u128()),
        Err(_) => None,
    }
}

impl Uuid {
    /// The identifier of a 128-bit value.
    pub fn from_u128(value: u128) -> (id: Uuid)
        ensures
            id.value == value,
    {
        Uuid { value }
    }

    /// The 128-bit value of the identifier.
    pub fn as_u128(&self) -> (value: u128)
        ensures
            value == self.value,
    {
        self.value
    }

    /// The canonical text of the identifier.
    pub fn to_text(&self) -> (text: String)
        ensures
            text@ == hyphenated(self.value),
    {
        hyphenated_text(self.value)
    }

    /// Reads an identifier from a text.
    pub fn parse_str(text: &str) -> (id: Option<Uuid>)
        ensures
            id == parsed(text@),
    {
        match parse_text(text) {
            Some(value) => Some(Uuid { value }),
            None => None,
        }
    }
}

/// Reading the canonical text of an identifier gives the identifier back.
pub proof fn hyphenated_reads_back(id: Uuid)
    ensures
        parsed(hyphenated(id.value)) == Some(id),
{
    let text = hyphenated(id.value);
    assert(is_hyphenated(text));
    let chosen = choose|value: u128| text == #[trigger] hyphenated(value);
    hyphenated_identifies(chosen, id.value);
}

} // verus!
