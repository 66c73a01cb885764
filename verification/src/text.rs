//! Byte strings, text and decimal numbers.

use vstd::prelude::*;

verus! {

/// What text a byte string stands for once every malformed part of it has been replaced.
pub uninterp spec fn lossy_text(bytes: Seq<u8>) -> Seq<char>;

/// `String::from_utf8_lossy`: the text depends on the bytes alone, and well-formed bytes are
/// decoded without any replacement.
#[verifier::external_body]
pub(crate) fn utf8_lossy(bytes: &[u8]) -> (text: String)
    ensures
        text@ == lossy_text(bytes@),
        vstd::utf8::valid_utf8(bytes@) ==> text@ == vstd::utf8::decode_utf8(bytes@),
{
    String::from_utf8_lossy(bytes).into_owned()
}

/// The text of the error with which a malformed byte string is refused.
pub uninterp spec fn utf8_fault_text(bytes: Seq<u8>) -> Seq<char>;

/// `String::from_utf8`: decodes exactly the well-formed byte strings, and the text of the error on
/// any other depends on the bytes alone.
#[verifier::external_body]
pub(crate) fn utf8_text(bytes: &[u8]) -> (text: Result<String, String>)
    ensures
        match text {
            Ok(decoded) => vstd::utf8::valid_utf8(bytes@) && decoded@ == vstd::utf8::decode_utf8(
                bytes@,
            ),
            Err(fault) => !vstd::utf8::valid_utf8(bytes@) && fault@ == utf8_fault_text(bytes@),
        },
{
    match String::from_utf8(bytes.to_vec()) {
        Ok(decoded) => Ok(decoded),
        Err(error) => Err(error.to_string()),
    }
}

/// Whether a character is white space, as Unicode has it.
pub open spec fn is_white_space(character: char) -> bool {
    let code = character as u32;
    ||| 0x9 <= code <= 0xd
    ||| code == 0x20
    ||| code == 0x85
    ||| code == 0xa0
    ||| code == 0x1680
    ||| 0x2000 <= code <= 0x200a
    ||| code == 0x2028
    ||| code == 0x2029
    ||| code == 0x202f
    ||| code == 0x205f
    ||| code == 0x3000
}

/// A text without the white space around it.
pub open spec fn trimmed_text(text: Seq<char>) -> Seq<char>
    decreases text.len(),
{
    if text.len() > 0 && is_white_space(text[0]) {
        trimmed_text(text.skip(1))
    } else if text.len() > 0 && is_white_space(text.last()) {
        trimmed_text(text.drop_last())
    } else {
        text
    }
}

/// `str::trim`: the text without the white space at its start and at its end.
#[verifier::external_body]
pub(crate) fn trim(text: &str) -> (trimmed: String)
    ensures
        trimmed@ == trimmed_text(text@),
{
    text.trim().to_owned()
}

/// The bytes of a text.
pub open spec fn text_bytes(text: Seq<char>) -> Seq<u8> {
    vstd::utf8::encode_utf8(text)
}

/// Two texts with the same bytes are the same text.
pub proof fn text_bytes_are_injective(left: Seq<char>, right: Seq<char>)
    ensures
        text_bytes(left) == text_bytes(right) ==> left == right,
{
    vstd::utf8::encode_utf8_decode_utf8(left);
    vstd::utf8::encode_utf8_decode_utf8(right);
}

pub fn bytes_equal(left: &[u8], right: &[u8]) -> (equal: bool)
    ensures
        equal == (left@ == right@),
{
    if left.len() != right.len() {
        return false;
    }
    let mut at: usize = 0;
    while at < left.len()
        invariant
            at <= left.len(),
            left.len() == right.len(),
            forall|i: int| 0 <= i < at ==> left@[i] == right@[i],
        decreases left.len() - at,
    {
        if left[at] != right[at] {
            return false;
        }
        at += 1;
    }
    assert(left@ =~= right@);
    true
}

pub fn copy_bytes(bytes: &[u8]) -> (copy: Vec<u8>)
    ensures
        copy@ == bytes@,
{
    let mut copy: Vec<u8> = Vec::new();
    push_bytes(&mut copy, bytes);
    copy
}

pub fn push_bytes(target: &mut Vec<u8>, bytes: &[u8])
    ensures
        final(target)@ == old(target)@ + bytes@,
{
    let mut at: usize = 0;
    while at < bytes.len()
        invariant
            at <= bytes.len(),
            target@ == old(target)@ + bytes@.take(at as int),
        decreases bytes.len() - at,
    {
        target.push(bytes[at]);
        at += 1;
        assert(bytes@.take(at as int) =~= bytes@.take(at - 1).push(bytes@[at - 1]));
    }
    assert(bytes@.take(at as int) =~= bytes@);
}

pub fn text_equal(left: &str, right: &str) -> (equal: bool)
    ensures
        equal == (left@ == right@),
{
    proof {
        text_bytes_are_injective(left@, right@);
    }
    bytes_equal(left.as_bytes(), right.as_bytes())
}

/// What follows a prefix of a text, where the text has that prefix.
pub fn without_prefix(text: &str, prefix: &str) -> (rest: Option<String>)
    ensures
        match rest {
            Some(rest) => prefix@.is_prefix_of(text@) && rest@ == text@.skip(prefix@.len() as int),
            None => !prefix@.is_prefix_of(text@),
        },
{
    let length: usize = text.unicode_len();
    let start: usize = prefix.unicode_len();
    if start > length {
        return None;
    }
    if text_equal(text.substring_char(0, start), prefix) {
        let rest = text.substring_char(start, length).to_owned();
        assert(rest@ =~= text@.skip(start as int));
        Some(rest)
    } else {
        assert(prefix@.is_prefix_of(text@) ==> text@.subrange(0, start as int) =~= prefix@);
        None
    }
}

/// One decimal digit.
pub open spec fn digit(value: nat) -> Seq<char> {
    if value == 0 {
        "0"@
    } else if value == 1 {
        "1"@
    } else if value == 2 {
        "2"@
    } else if value == 3 {
        "3"@
    } else if value == 4 {
        "4"@
    } else if value == 5 {
        "5"@
    } else if value == 6 {
        "6"@
    } else if value == 7 {
        "7"@
    } else if value == 8 {
        "8"@
    } else {
        "9"@
    }
}

/// A number in decimal notation, without leading zeros.
pub open spec fn decimal(value: nat) -> Seq<char>
    decreases value,
{
    if value < 10 {
        digit(value)
    } else {
        decimal(value / 10) + digit(value % 10)
    }
}

fn digit_text(value: u64) -> (text: &'static str)
    requires
        value < 10,
    ensures
        text@ == digit(value as nat),
{
    match value {
        0 => "0",
        1 => "1",
        2 => "2",
        3 => "3",
        4 => "4",
        5 => "5",
        6 => "6",
        7 => "7",
        8 => "8",
        _ => "9",
    }
}

pub fn decimal_text(value: u64) -> (text: String)
    ensures
        text@ == decimal(value as nat),
    decreases value,
{
    if value < 10 {
        digit_text(value).to_owned()
    } else {
        let mut text = decimal_text(value / 10);
        text.append(digit_text(value % 10));
        text
    }
}

/// Joins two texts.
pub fn concat2(first: &str, second: &str) -> (text: String)
    ensures
        text@ == first@ + second@,
{
    let mut text = first.to_owned();
    text.append(second);
    text
}

pub fn concat3(first: &str, second: &str, third: &str) -> (text: String)
    ensures
        text@ == first@ + second@ + third@,
{
    let mut text = concat2(first, second);
    text.append(third);
    text
}

pub fn concat4(first: &str, second: &str, third: &str, fourth: &str) -> (text: String)
    ensures
        text@ == first@ + second@ + third@ + fourth@,
{
    let mut text = concat3(first, second, third);
    text.append(fourth);
    text
}

pub fn concat5(first: &str, second: &str, third: &str, fourth: &str, fifth: &str) -> (text: String)
    ensures
        text@ == first@ + second@ + third@ + fourth@ + fifth@,
{
    let mut text = concat4(first, second, third, fourth);
    text.append(fifth);
    text
}

pub fn concat6(
    first: &str,
    second: &str,
    third: &str,
    fourth: &str,
    fifth: &str,
    sixth: &str,
) -> (text: String)
    ensures
        text@ == first@ + second@ + third@ + fourth@ + fifth@ + sixth@,
{
    let mut text = concat5(first, second, third, fourth, fifth);
    text.append(sixth);
    text
}

pub fn concat7(
    first: &str,
    second: &str,
    third: &str,
    fourth: &str,
    fifth: &str,
    sixth: &str,
    seventh: &str,
) -> (text: String)
    ensures
        text@ == first@ + second@ + third@ + fourth@ + fifth@ + sixth@ + seventh@,
{
    let mut text = concat6(first, second, third, fourth, fifth, sixth);
    text.append(seventh);
    text
}

/// A number is written digit by digit, the highest first and without a zero in front, each digit as
/// the character that it is.
pub proof fn numbers_are_written_in_digits(value: nat, last: nat)
    requires
        last < 10,
    ensures
        digit(last).len() == 1,
        digit(last)[0] as int == 48 + last,
        decimal(last) == digit(last),
        value > 0 ==> decimal(10 * value + last) == decimal(value) + digit(last),
{
    reveal_strlit("0");
    reveal_strlit("1");
    reveal_strlit("2");
    reveal_strlit("3");
    reveal_strlit("4");
    reveal_strlit("5");
    reveal_strlit("6");
    reveal_strlit("7");
    reveal_strlit("8");
    reveal_strlit("9");
    assert((10 * value + last) / 10 == value);
    assert((10 * value + last) % 10 == last);
}

/// What is trimmed has white space at neither end, and a text without any at its ends stays.
pub proof fn trimmed_texts_have_bare_ends(text: Seq<char>)
    ensures
        ({
            let trimmed = trimmed_text(text);
            &&& trimmed.len() <= text.len()
            &&& trimmed.len() > 0 ==> !is_white_space(trimmed[0]) && !is_white_space(trimmed.last())
        }),
        text.len() > 0 && !is_white_space(text[0]) && !is_white_space(text.last()) ==> trimmed_text(
            text,
        ) == text,
        is_white_space(' ') && is_white_space('\n') && is_white_space('\t') && is_white_space('\r'),
        !is_white_space('a') && !is_white_space('0'),
    decreases text.len(),
{
    if text.len() > 0 && is_white_space(text[0]) {
        trimmed_texts_have_bare_ends(text.skip(1));
    } else if text.len() > 0 && is_white_space(text.last()) {
        trimmed_texts_have_bare_ends(text.drop_last());
    }
}

/// Whether a text holds another one, letter for letter.
pub open spec fn mentions(text: Seq<char>, part: Seq<char>) -> bool {
    exists|at: int|
        0 <= at <= text.len() - part.len() && #[trigger] text.subrange(at, at + part.len()) == part
}

/// A text holds itself.
pub proof fn a_whole_is_mentioned(whole: Seq<char>)
    ensures
        mentions(whole, whole),
{
    let start: int = 0;
    assert(whole.subrange(start, start + whole.len()) =~= whole);
}

/// A text holds what it ends with.
pub broadcast proof fn the_end_is_mentioned(before: Seq<char>, part: Seq<char>)
    ensures
        #[trigger] mentions(before + part, part),
{
    let start = before.len() as int;
    assert((before + part).subrange(start, start + part.len()) =~= part);
}

/// A text holds whatever its beginning holds.
pub broadcast proof fn the_beginning_mentions(before: Seq<char>, after: Seq<char>, part: Seq<char>)
    requires
        mentions(before, part),
    ensures
        #[trigger] mentions(before + after, part),
{
    let start = choose|at: int|
        0 <= at <= before.len() - part.len() && #[trigger] before.subrange(at, at + part.len()) == part;
    assert((before + after).subrange(start, start + part.len()) =~= part);
}

} // verus!
