//! Sandbox identifiers.

use crate::digest;
use vstd::prelude::*;

verus! {

/// Whether a hyphen stands at a position of the text of a UUID.
pub open spec fn is_hyphen(at: int) -> bool {
    at == 8 || at == 13 || at == 18 || at == 23
}

/// The number of digits from a position to the end of the text of a UUID.
pub open spec fn digits_from(at: int) -> nat
    decreases 36 - at,
{
    if at >= 36 {
        0
    } else if is_hyphen(at) {
        digits_from(at + 1)
    } else {
        digits_from(at + 1) + 1
    }
}

/// The hyphenated lower-case text of a UUID: its thirty-two hexadecimal digits, the highest first.
pub open spec fn uuid_text(value: u128) -> Seq<char> {
    Seq::new(
        36,
        |i: int|
            if is_hyphen(i) {
                '-'
            } else {
                digest::hex_digit(value as int / vstd::arithmetic::power::pow(16, digits_from(i + 1)) % 16)
            },
    )
}

/// The UUID that a text denotes, if it denotes one.
pub uninterp spec fn uuid_value(text: Seq<char>) -> Option<u128>;

/// Whether a character may stand in the hyphenated lower-case text of a UUID.
pub open spec fn is_uuid_char(character: char) -> bool {
    ||| character == '-'
    ||| '0' <= character <= '9'
    ||| 'a' <= character <= 'f'
}

/// `Uuid::from_u128` and its `Display`: the hyphenated lower-case text, which `Uuid::parse_str`
/// reads back.
#[verifier::external_body]
fn format_uuid(value: u128) -> (text: String)
    ensures
        text@ == uuid_text(value),
        uuid_value(text@) == Some(value),
{
    uuid::Uuid::from_u128(value).to_string()
}

proof fn uuid_texts_are_plain(value: u128)
    ensures
        uuid_text(value).len() == 36,
        forall|i: int| 0 <= i < 36 ==> is_uuid_char(#[trigger] uuid_text(value)[i]),
{
    assert forall|i: int| 0 <= i < 36 implies is_uuid_char(#[trigger] uuid_text(value)[i]) by {
        let digit = value as int / vstd::arithmetic::power::pow(16, digits_from(i + 1)) % 16;
        assert(0 <= digit < 16);
    }
}

/// `Uuid::parse_str`: whether a text is accepted, and which value it gives, depends on the text
/// alone.
#[verifier::external_body]
fn parse_uuid(text: &str) -> (value: Option<u128>)
    ensures
        value == uuid_value(text@),
{
    match uuid::Uuid::parse_str(text) {
        Ok(id) => Some(id.as_u128()),
        Err(_) => None,
    }
}

/// `Uuid::now_v7`: a time-ordered value with a random part, of which nothing is promised.
#[verifier::external_body]
fn fresh_uuid() -> (value: u128) {
    uuid::Uuid::now_v7().as_u128()
}

/// Names one sandbox on a node.
#[derive(Clone, Copy, Debug, PartialEq, Eq, PartialOrd, Ord, Hash, Structural)]
pub struct SandboxId {
    pub value: u128,
}

impl SandboxId {
    /// The text of this identifier.
    pub open spec fn text(&self) -> Seq<char> {
        uuid_text(self.value)
    }

    /// The identifier that a text denotes, if it denotes one.
    pub open spec fn parsed(text: Seq<char>) -> Option<SandboxId> {
        match uuid_value(text) {
            Some(value) => Some(SandboxId { value }),
            None => None,
        }
    }

    /// An identifier that no caller chose.
    pub fn new() -> (id: SandboxId) {
        SandboxId { value: fresh_uuid() }
    }

    pub fn parse_str(text: &str) -> (id: Option<SandboxId>)
        ensures
            id == SandboxId::parsed(text@),
    {
        match parse_uuid(text) {
            Some(value) => Some(SandboxId { value }),
            None => None,
        }
    }

    pub fn to_text(&self) -> (text: String)
        ensures
            text@ == self.text(),
            text@.len() == 36,
            forall|i: int| 0 <= i < text@.len() ==> is_uuid_char(#[trigger] text@[i]),
            SandboxId::parsed(text@) == Some(*self),
    {
        proof {
            uuid_texts_are_plain(self.value);
        }
        format_uuid(self.value)
    }
}

/// A name for a new artifact generation.
pub fn fresh_generation_name() -> (name: String)
    ensures
        uuid_value(name@) is Some,
        name@.len() == 36,
        forall|i: int| 0 <= i < name@.len() ==> is_uuid_char(#[trigger] name@[i]),
{
    let value: u128 = fresh_uuid();
    proof {
        uuid_texts_are_plain(value);
    }
    format_uuid(value)
}

} // verus!
