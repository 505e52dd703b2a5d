//! What one message carries.

use aws_sns::error::Cause;
use aws_sns::message::{ceiling, refusal, text};

#[test]
fn the_ceiling_is_256_kib() {
    assert_eq!(ceiling(), 262_144);
}

#[test]
fn a_message_is_text_of_the_characters_xml_permits() {
    for carried in [
        "text",
        "\t\n\r",
        " ",
        "r\u{e4}k <&> \"b\"\r\n",
        "\u{d7ff}\u{e000}\u{fffd}\u{10000}\u{10ffff}",
        "\u{7f}\u{80}",
    ] {
        assert_eq!(refusal(carried.as_bytes()), None, "{carried:?}");
        assert_eq!(text(carried.as_bytes()).expect("carried"), carried);
    }
}

#[test]
fn what_is_no_message_is_refused_for_good_and_says_why() {
    let cases: [(&[u8], &str); 7] = [
        (b"", "a message holds at least one character"),
        (
            &[0xff],
            "a message is text, and these bytes are not UTF-8",
        ),
        (
            &[b'a', 0xed, 0xa0, 0x80],
            "a message is text, and these bytes are not UTF-8",
        ),
        (
            b"a\x00\x01",
            "a message is text that XML permits, and U+0000 is not",
        ),
        (
            b"\x1f",
            "a message is text that XML permits, and U+001F is not",
        ),
        (
            "\u{fffe}".as_bytes(),
            "a message is text that XML permits, and U+FFFE is not",
        ),
        (
            "ok \u{ffff}".as_bytes(),
            "a message is text that XML permits, and U+FFFF is not",
        ),
    ];
    for (payload, why) in cases {
        assert_eq!(refusal(payload), Some(why.to_string()));
        let failure = text(payload).expect_err("refused");
        assert_eq!(failure.message, why);
        assert_eq!(failure.cause, Cause::Permanent);
    }
}
