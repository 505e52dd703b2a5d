//! What one SNS message carries: text, at least one character of it, every
//! one permitted by XML 1.0, in no more bytes than the ceiling.

use vstd::prelude::*;
use vstd::utf8::*;

use crate::error::{Failure, TransportError};
use crate::text::{numeral, numeral_text, utf8};

verus! {

/// The largest message SNS carries: 256 KiB.
#[must_use]
pub fn ceiling() -> (bytes: usize)
    ensures
        bytes == 256 * 1024,
{
    256 * 1024
}

/// Whether XML 1.0 permits the character `c`.
pub open spec fn xml_permits(c: char) -> bool {
    let code = c as u32;
    ||| code == 0x9
    ||| code == 0xA
    ||| code == 0xD
    ||| 0x20 <= code <= 0xD7FF
    ||| 0xE000 <= code <= 0xFFFD
    ||| 0x10000 <= code <= 0x10FFFF
}

/// Whether `payload` is a message body: UTF-8, not empty, every character of
/// it permitted by XML 1.0.
pub open spec fn is_message(payload: Seq<u8>) -> bool {
    &&& payload.len() > 0
    &&& valid_utf8(payload)
    &&& forall|i: int|
        0 <= i < decode_utf8(payload).len() ==> xml_permits(#[trigger] decode_utf8(payload)[i])
}

/// The place of the first character of `text` that XML does not permit, or
/// the end of `text` where there is none.
pub open spec fn first_forbidden(text: Seq<char>) -> nat
    decreases text.len(),
{
    if text.len() == 0 || !xml_permits(text[0]) {
        0
    } else {
        1 + first_forbidden(text.drop_first())
    }
}

/// Why `payload`, which is no message body, is none.
pub open spec fn reason(payload: Seq<u8>) -> Seq<char> {
    if payload.len() == 0 {
        "a message holds at least one character"@
    } else if !valid_utf8(payload) {
        "a message is text, and these bytes are not UTF-8"@
    } else {
        let text = decode_utf8(payload);
        let forbidden = text[first_forbidden(text) as int];
        "a message is text that XML permits, and U+"@ + numeral(
            forbidden as u32 as nat,
            16,
            true,
            4,
        ) + " is not"@
    }
}

/// Where the first forbidden character stands.
proof fn lemma_first_forbidden(text: Seq<char>, at: nat)
    requires
        at <= text.len(),
        forall|i: int| 0 <= i < at ==> xml_permits(#[trigger] text[i]),
        at == text.len() || !xml_permits(text[at as int]),
    ensures
        first_forbidden(text) == at,
    decreases text.len(),
{
    if at > 0 {
        let rest = text.drop_first();
        assert forall|i: int| 0 <= i < at - 1 implies xml_permits(#[trigger] rest[i]) by {
            assert(rest[i] == text[i + 1]);
        }
        assert(xml_permits(text[0]));
        lemma_first_forbidden(rest, (at - 1) as nat);
    }
}

/// Whether XML 1.0 permits the character `c`.
fn permitted(c: char) -> (yes: bool)
    ensures
        yes == xml_permits(c),
{
    let code: u32 = c as u32;
    code == 0x9 || code == 0xA || code == 0xD || (0x20 <= code && code <= 0xD7FF) || (0xE000 <= code
        && code <= 0xFFFD) || (0x10000 <= code && code <= 0x10FFFF)
}

/// The message body that `bytes` are, or why they are none.
fn body(bytes: &[u8]) -> (result: Result<&str, String>)
    ensures
        match result {
            Ok(text) => is_message(bytes@) && text@ == decode_utf8(bytes@),
            Err(why) => !is_message(bytes@) && why@ == reason(bytes@),
        },
{
    if bytes.len() == 0 {
        return Err("a message holds at least one character".to_owned());
    }
    let text: &str = match utf8(bytes) {
        Some(text) => text,
        None => {
            return Err("a message is text, and these bytes are not UTF-8".to_owned());
        },
    };
    for c in it: text.chars()
        invariant
            bytes@.len() > 0,
            valid_utf8(bytes@),
            text@ == decode_utf8(bytes@),
            it.seq() == text@,
            forall|i: int| 0 <= i < it.index() ==> xml_permits(#[trigger] text@[i]),
    {
        if !permitted(c) {
            proof {
                lemma_first_forbidden(text@, it.index() as nat);
            }
            let mut why: String = "a message is text that XML permits, and U+".to_owned();
            let code: String = numeral_text(c as u32 as u64, 16, true, 4);
            why.append(code.as_str());
            why.append(" is not");
            return Err(why);
        }
    }
    Ok(text)
}

/// Why SNS does not carry `payload`; nothing where it does.
#[must_use]
pub fn refusal(payload: &[u8]) -> (why: Option<String>)
    ensures
        why is None <==> is_message(payload@),
        why matches Some(words) ==> words@ == reason(payload@),
{
    match body(payload) {
        Ok(_) => None,
        Err(why) => Some(why),
    }
}

/// `bytes` as the message body they are. What is no message body is refused
/// for good, with the reason.
pub fn text(bytes: &[u8]) -> (result: Result<&str, TransportError>)
    ensures
        match result {
            Ok(text) => is_message(bytes@) && text@ == decode_utf8(bytes@),
            Err(failure) => !is_message(bytes@) && failure@ == Failure::permanent(reason(bytes@)),
        },
{
    match body(bytes) {
        Ok(text) => Ok(text),
        Err(why) => Err(TransportError::permanent(why)),
    }
}

/// A message body is carried as it is: the text that goes into the message
/// is, byte for byte, what was given.
pub proof fn law_a_message_is_its_bytes(payload: Seq<u8>)
    requires
        is_message(payload),
    ensures
        encode_utf8(decode_utf8(payload)) == payload,
        decode_utf8(payload).len() > 0,
{
    decode_utf8_encode_utf8(payload);
}

/// Text is a message body exactly where it holds a character and XML permits
/// every character of it.
pub proof fn law_text_is_a_message(text: Seq<char>)
    ensures
        is_message(encode_utf8(text)) <==> text.len() > 0 && (forall|i: int|
            0 <= i < text.len() ==> xml_permits(#[trigger] text[i])),
        decode_utf8(encode_utf8(text)) == text,
{
    encode_utf8_decode_utf8(text);
    encode_utf8_valid_utf8(text);
    if text.len() > 0 {
        encode_utf8_first_scalar(text);
    }
}

/// XML 1.0 permits the tab, the line feed, the carriage return, and the
/// characters from U+0020 to U+D7FF, from U+E000 to U+FFFD and from U+10000 to
/// U+10FFFF. So it forbids the other control characters below U+0020, and
/// U+FFFE and U+FFFF, and nothing else.
pub proof fn law_xml_permits_all_but_these(c: char)
    ensures
        xml_permits(c) <==> {
            ||| c as u32 == 0x9 || c as u32 == 0xA || c as u32 == 0xD
            ||| 0x20 <= c as u32 <= 0xD7FF
            ||| 0xE000 <= c as u32 <= 0xFFFD
            ||| 0x10000 <= c as u32 <= 0x10FFFF
        },
        !xml_permits(c) <==> {
            ||| c as u32 <= 0x8 || c as u32 == 0xB || c as u32 == 0xC
            ||| 0xE <= c as u32 <= 0x1F
            ||| c as u32 == 0xFFFE || c as u32 == 0xFFFF
        },
{
}

/// Every text of printable ASCII is a message body, where there is any text.
pub proof fn law_printable_ascii_is_a_message(text: Seq<char>)
    requires
        text.len() > 0,
        forall|i: int| 0 <= i < text.len() ==> 0x20 <= (#[trigger] text[i]) as u32 <= 0x7E,
    ensures
        is_message(encode_utf8(text)),
{
    law_text_is_a_message(text);
    assert forall|i: int| 0 <= i < text.len() implies xml_permits(#[trigger] text[i]) by {
        law_xml_permits_all_but_these(text[i]);
    }
}

/// Text is a message body exactly where there is some and none of its
/// characters is one that XML forbids; and nothing is a message body but text.
pub proof fn law_a_message_is_text_of_permitted_characters(text: Seq<char>, payload: Seq<u8>)
    ensures
        is_message(encode_utf8(text)) <==> {
            &&& text.len() > 0
            &&& forall|i: int|
                0 <= i < text.len() ==> {
                    let code = (#[trigger] text[i]) as u32;
                    ||| code == 0x9 || code == 0xA || code == 0xD
                    ||| 0x20 <= code <= 0xD7FF
                    ||| 0xE000 <= code <= 0xFFFD
                    ||| 0x10000 <= code <= 0x10FFFF
                }
        },
        is_message(payload) ==> exists|body: Seq<char>| #[trigger] encode_utf8(body) == payload,
{
    law_text_is_a_message(text);
    if is_message(payload) {
        law_a_message_is_its_bytes(payload);
        assert(encode_utf8(decode_utf8(payload)) == payload);
    }
}

/// What is no message body is refused in words that say which rule it breaks:
/// it is empty; it is not text; or a character is forbidden, and the words
/// name the first that is, by its code point in four hexadecimal digits or
/// more.
pub proof fn law_the_reason_names_what_is_wrong(payload: Seq<u8>, text: Seq<char>, at: int)
    ensures
        payload.len() == 0 ==> reason(payload) == "a message holds at least one character"@,
        payload.len() > 0 && !(exists|body: Seq<char>| #[trigger] encode_utf8(body) == payload)
            ==> reason(payload) == "a message is text, and these bytes are not UTF-8"@,
        0 <= at < text.len() && !xml_permits(text[at]) && (forall|i: int|
            0 <= i < at ==> xml_permits(#[trigger] text[i])) ==> reason(encode_utf8(text))
            == "a message is text that XML permits, and U+"@ + numeral(
            text[at] as u32 as nat,
            16,
            true,
            4,
        ) + " is not"@,
{
    if valid_utf8(payload) {
        decode_utf8_encode_utf8(payload);
        assert(encode_utf8(decode_utf8(payload)) == payload);
    }
    if 0 <= at < text.len() && !xml_permits(text[at]) && (forall|i: int|
        0 <= i < at ==> xml_permits(#[trigger] text[i])) {
        encode_utf8_decode_utf8(text);
        encode_utf8_valid_utf8(text);
        encode_utf8_first_scalar(text);
        lemma_first_forbidden(text, at as nat);
    }
}

} // verus!
