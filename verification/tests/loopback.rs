//! Both ends on one machine, with nothing but plain values between them.

use std::time::Duration;

use aws_sns::error::{Cause, TransportError};
use aws_sns::exchange::{HttpTarget, Request};
use aws_sns::loopback::{endpoint_url, notification, publish_due, settle};
use aws_sns::subscription::{accept_one, pushed};
use aws_sns::transport::Taken;
use aws_sns::{ceiling, Arrived, Delivery, Event, SnsTransport, LOOPBACK_TOPIC};

const ADDRESS: &str = "127.0.0.1:7";

fn loopback() -> SnsTransport {
    SnsTransport::loopback(Duration::from_secs(2))
}

/// One round: the near end publishes, the session takes the publish, and what
/// it published is pushed to the endpoint, which takes it.
fn round(transport: &SnsTransport, payload: &[u8]) -> Result<Arrived, TransportError> {
    let call = transport.send_to(ADDRESS, payload, Ok(ADDRESS.to_string()))?;
    let mut session = transport.session();
    let (event, _) = session.answer(&Request::new("POST", &call.path), Ok(()), &call.parameters);
    let shown = format!("{event:?}");
    let published = publish_due(event, &shown)?;
    let target = HttpTarget {
        secure: false,
        authority: "127.0.0.1:8".to_string(),
        path: "/sns".to_string(),
    };
    let pushing = session.deliver(Ok(target), &notification(&published)?)?;
    assert_eq!(pushing.timeout, transport.timeout());
    let acceptance = accept_one(Some(pushing.request));
    let delivered = pushed(acceptance.status.expect("answered"));
    let taken = match transport.accept_one(acceptance.delivery)? {
        Taken::Streams(list) => list,
        Taken::Confirm(_) => Vec::new(),
    };
    settle(delivered, Some(Ok(taken)))
}

/// The edge payloads, and one at the brim: SNS carries the text among them
/// and refuses the rest, which the test checks either way.
fn edge_payloads() -> Vec<(&'static str, Vec<u8>)> {
    vec![
        ("empty", Vec::new()),
        ("one byte", vec![0x2a]),
        ("every byte", (0..=255).collect()),
        ("nul run", vec![0; 512]),
        ("high bytes", vec![0xff; 512]),
        ("crlf storm", b"\r\n".repeat(400)),
        ("the brim", vec![b'x'; ceiling()]),
    ]
}

#[test]
fn a_loopback_round_publishes_and_takes_the_delivery_at_the_subscription() {
    let sns = loopback();
    let arrived = round(&sns, "r\u{e4}k <&> \"b\"\r\n".as_bytes()).expect("round");
    assert_eq!(arrived.bytes, "r\u{e4}k <&> \"b\"\r\n".as_bytes());
    assert!(
        arrived
            .origin_uri
            .starts_with(&format!("{LOOPBACK_TOPIC}#")),
        "{}",
        arrived.origin_uri
    );
    assert_eq!(sns.name(), "aws-sns");
}

#[test]
fn the_loopback_returns_the_text_edge_payloads_whole_and_refuses_the_rest() {
    let sns = loopback();
    assert_eq!(sns.ceiling(), Some(256 * 1024));
    let mut carried = 0;
    for (name, payload) in edge_payloads() {
        match sns.refuses(&payload) {
            None => {
                let arrived = round(&sns, &payload).expect(name);
                assert_eq!(arrived.bytes, payload, "{name}");
                carried += 1;
            }
            Some(why) => {
                let failure = round(&sns, &payload).expect_err(name);
                assert_eq!(failure.cause, Cause::Permanent, "{failure:?}");
                assert_eq!(failure.message, why, "{name}: {failure:?}");
            }
        }
    }
    assert_eq!(carried, 3, "one byte, the CRLF storm and the brim");
    let over = vec![b'x'; ceiling() + 1];
    let failure = round(&sns, &over).expect_err("over the brim");
    assert!(failure.message.contains("262144"), "{failure:?}");
}

#[test]
fn the_loopback_is_one_topic_one_credential_and_one_timeout() {
    let sns = SnsTransport::loopback(Duration::from_secs(5));
    assert_eq!(sns.endpoint(), "http://127.0.0.1:0");
    assert_eq!(sns.listens_at(), "127.0.0.1:0");
    assert_eq!(sns.timeout(), Some(Duration::from_secs(5)));
    assert_eq!(
        sns.resolve(""),
        "arn:aws:sns:eu-north-1:123456789012:loopback"
    );
    let session = sns.session();
    assert_eq!(session.signer().region, "eu-north-1");
    assert_eq!(session.signer().access_key, "AKID");
    assert_eq!(session.signer().secret_key, "secret");
    assert_eq!(endpoint_url("127.0.0.1:8"), "http://127.0.0.1:8/sns");
}

#[test]
fn a_notification_is_what_was_published() {
    let published = Arrived::new("a#b#7".to_string(), "r\u{e4}k".as_bytes().to_vec());
    assert_eq!(
        notification(&published).expect("a notification"),
        Delivery::Notification {
            topic_arn: "a#b".to_string(),
            message_id: "7".to_string(),
            message: "r\u{e4}k".to_string(),
        }
    );
    let nameless = Arrived::new("topic".to_string(), b"x".to_vec());
    assert_eq!(
        notification(&nameless).expect_err("no id").message,
        "a publish with no message id"
    );
    let binary = Arrived::new("t#7".to_string(), vec![0xff]);
    assert_eq!(
        notification(&binary).expect_err("not text").message,
        "a published message that is not text"
    );
}

#[test]
fn anything_but_a_publish_is_out_of_turn() {
    let arrived = Arrived::new("t#7".to_string(), b"x".to_vec());
    assert_eq!(
        publish_due(Event::Published(arrived.clone()), "").expect("due"),
        arrived
    );
    let refused = Event::Refused("InvalidAction".to_string());
    let shown = format!("{refused:?}");
    let failure = publish_due(refused, &shown).expect_err("not due");
    assert_eq!(failure.cause, Cause::Protocol);
    assert_eq!(
        failure.message,
        "Refused(\"InvalidAction\") where a publish was due"
    );
}

#[test]
fn a_round_comes_to_the_first_failure_or_the_stream() {
    let arrived = |n: u8| Arrived::new("t#7".to_string(), vec![n]);
    let failure = |words: &str| TransportError::retryable(words.to_string());
    assert_eq!(
        settle(Ok(()), Some(Ok(vec![arrived(1), arrived(2)]))).expect("taken"),
        arrived(1)
    );
    assert_eq!(
        settle(Err(failure("push")), Some(Err(failure("take")))).expect_err("push failed"),
        failure("push")
    );
    assert_eq!(
        settle(Ok(()), Some(Err(failure("take")))).expect_err("take failed"),
        failure("take")
    );
    assert_eq!(
        settle(Ok(()), Some(Ok(Vec::new())))
            .expect_err("nothing")
            .message,
        "delivered, but the endpoint took nothing"
    );
    assert_eq!(
        settle(Err(failure("push")), None)
            .expect_err("panicked")
            .message,
        "the endpoint's thread panicked"
    );
}
