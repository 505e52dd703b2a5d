//! The transport: what it sends, and what it takes.

use std::time::Duration;

use aws_sns::client::answered;
use aws_sns::error::{Cause, TransportError};
use aws_sns::transport::Taken;
use aws_sns::{ceiling, refusal, Arrived, Delivery, SnsTransport};

const TOPIC: &str = "arn:aws:sns:eu-north-1:123456789012:orders";

fn node(endpoint: &str, secret: &str) -> SnsTransport {
    SnsTransport::new(endpoint, "eu-north-1", TOPIC)
        .with_credentials("AKID", secret)
        .timing_out_after(Duration::from_secs(2))
}

fn authority() -> Result<String, TransportError> {
    Ok("127.0.0.1:1".to_string())
}

fn not_http() -> TransportError {
    TransportError::permanent("not an HTTP URL".to_string())
}

#[test]
fn what_sns_does_not_carry_is_refused_before_the_wire_with_the_reason() {
    let near = node("http://127.0.0.1:1", "secret");
    let over = vec![b'x'; ceiling() + 1];
    let failure = near
        .send("", &over, authority())
        .err()
        .expect("over the ceiling");
    assert!(!failure.is_retryable());
    assert!(failure.message.contains("262144"), "{failure:?}");
    let failure = near.send("", b"", authority()).err()
        .expect("empty");
    assert!(!failure.is_retryable());
    assert!(failure.message.contains("at least one"), "{failure:?}");
    assert!(refusal(&[0xff]).is_some());
    assert!(refusal(b"text").is_none());
}

#[test]
fn the_first_reason_not_to_send_is_the_one_given() {
    let near = node("sns.local", "secret");
    let over = vec![0; ceiling() + 1];
    let failure = near
        .send("", &over, Err(not_http()))
        .err()
        .expect("over the ceiling");
    assert_eq!(
        failure.message,
        "262145 bytes is over the 262144 one SNS message carries"
    );
    assert_eq!(failure.cause, Cause::Permanent);
    assert_eq!(
        near.send("", b"\x00", Err(not_http()))
            .err()
        .expect("no scheme"),
        not_http()
    );
    assert!(near.client(Err(not_http())).is_err());
    let failure = near.send("", b"\x00", authority()).err()
        .expect("not text");
    assert!(failure.message.contains("U+0000"));
}

#[test]
fn a_stream_goes_to_the_target_or_to_the_transports_own_topic() {
    let near = node("http://127.0.0.1:1", "secret");
    let brim = vec![b'x'; ceiling()];
    let call = near.send("", &brim, authority()).expect("at the brim");
    assert_eq!(call.endpoint, "http://127.0.0.1:1");
    assert_eq!(call.headers, vec![("Host".to_string(), "127.0.0.1:1".to_string())]);
    assert_eq!(call.parameters[2], ("TopicArn".to_string(), TOPIC.to_string()));
    assert_eq!(call.parameters[3].1.as_bytes(), brim);
    let call = near.send("arn:other", b"x", authority()).expect("a message");
    assert_eq!(call.parameters[2].1, "arn:other");
    assert_eq!(near.resolve(""), TOPIC);
    assert_eq!(near.resolve("arn:other"), "arn:other");
}

#[test]
fn a_client_and_a_session_have_the_transports_credential() {
    let near = node("http://127.0.0.1:1", "secret");
    let client = near.client(authority()).expect("endpoint");
    let sent = near.send("", b"x", authority()).expect("a message");
    assert!(sent == client.publish(TOPIC, b"x").expect("a message"));
    let session = near.session();
    assert_eq!(sent.timeout, Some(Duration::from_secs(2)));
    assert_eq!(session.timeout(), Some(Duration::from_secs(2)));
    for signer in [&sent.signer, session.signer()] {
        assert_eq!(signer.service, "sns");
        assert_eq!(signer.region, "eu-north-1");
        assert_eq!(signer.access_key, "AKID");
        assert_eq!(signer.secret_key, "secret");
    }
    let bare = SnsTransport::new("http://x", "r", "t");
    assert_eq!(bare.timeout(), None);
    assert_eq!(bare.session().timeout(), None);
    assert_eq!(bare.session().signer().access_key, "");
    assert_eq!(bare.listens_at(), "127.0.0.1:0");
    assert_eq!(bare.listening_at("0.0.0.0:80").listens_at(), "0.0.0.0:80");
}

#[test]
fn a_near_end_is_aimed_with_the_same_credential_and_topic() {
    let far = node("http://127.0.0.1:0", "secret").listening_at("0.0.0.0:80");
    let near = far.aimed_at("127.0.0.1:7");
    assert_eq!(near.endpoint(), "http://127.0.0.1:7");
    assert_eq!(near.listens_at(), "127.0.0.1:0");
    assert_eq!(near.timeout(), far.timeout());
    assert_eq!(near.resolve(""), TOPIC);
    assert_eq!(near.session().signer().secret_key, "secret");
    assert!(
        far.send_to("127.0.0.1:7", b"x", authority()).expect("sent")
            == near.send("", b"x", authority()).expect("sent")
    );
}

#[test]
fn a_topic_is_not_claimed_and_an_unreachable_endpoint_is_retryable() {
    let near = node("http://127.0.0.1:1", "secret");
    assert!(near.claims().is_none());
    assert_eq!(near.name(), "aws-sns");
    assert!(near.directions().receives && near.directions().sends);
    // What a socket says comes through as it is: that nothing listens, and
    // that nothing could be bound.
    assert!(near.send("", b"x", authority()).is_ok(), "a call to make");
    let unreachable = TransportError::retryable("nothing listening".to_string());
    let failure = answered(Err(unreachable.clone()))
        .err()
        .expect("nothing listening");
    assert_eq!(failure, unreachable);
    assert!(failure.is_retryable());
    assert!(!node("sns.local", "s")
        .send("", b"x", Err(not_http()))
        .err()
        .expect("no scheme")
        .is_retryable());
    let lost = node("http://x", "s").listening_at("not an address");
    assert_eq!(lost.listens_at(), "not an address");
    let unbound = TransportError::permanent("not an address".to_string());
    assert_eq!(lost.accept_one(Err(unbound.clone())).err(), Some(unbound));
}

#[test]
fn streams_travel_both_ways_under_one_name() {
    let near = node("http://127.0.0.1:1", "secret");
    assert_eq!(near.name(), "aws-sns");
    assert!(near.directions().receives && near.directions().sends);
    assert_eq!(near.ceiling(), Some(256 * 1024));
}

#[test]
fn a_delivery_is_a_stream_or_a_url_to_fetch_or_nothing() {
    let near = node("http://127.0.0.1:1", "secret");
    let notice = Delivery::Notification {
        topic_arn: TOPIC.to_string(),
        message_id: "7".to_string(),
        message: "r\u{e4}k".to_string(),
    };
    match near.accept_one(Ok(notice)).expect("a notification") {
        Taken::Streams(list) => assert_eq!(
            list,
            vec![Arrived::new(
                format!("{TOPIC}#7"),
                "r\u{e4}k".as_bytes().to_vec()
            )]
        ),
        Taken::Confirm(_) => panic!("nothing to confirm"),
    }
    let offer = Delivery::Confirmation {
        topic_arn: TOPIC.to_string(),
        subscribe_url: "http://x/".to_string(),
    };
    match near.accept_one(Ok(offer)).expect("an offer") {
        Taken::Streams(_) => panic!("a confirmation carries no Stream"),
        Taken::Confirm(url) => assert_eq!(url, "http://x/"),
    }
    match near
        .accept_one(Ok(Delivery::Other("K".to_string())))
        .expect("another kind")
    {
        Taken::Streams(list) => assert!(list.is_empty()),
        Taken::Confirm(_) => panic!("nothing to confirm"),
    }
    assert!(near.accept_one(Err(not_http())).is_err());
    assert!(SnsTransport::confirmed(Ok("arn".to_string()))
        .expect("confirmed")
        .is_empty());
    assert_eq!(
        SnsTransport::confirmed(Err(not_http())).err()
        .expect("not confirmed"),
        not_http()
    );
}
