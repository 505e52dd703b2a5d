//! The near side's two calls.

use std::time::Duration;

use aws_sns::client::{answered, Client, MESSAGE_ID, SUBSCRIPTION_ARN, VERSION};
use aws_sns::error::TransportError;
use aws_sns::exchange::HttpTarget;

const TOPIC: &str = "arn:aws:sns:eu-north-1:123456789012:orders";

fn not_http() -> TransportError {
    TransportError::permanent("not an HTTP URL".to_string())
}

fn client() -> Client {
    Client::new(
        "http://127.0.0.1:1",
        Ok("127.0.0.1:1".to_string()),
        "r",
        "a",
        "s",
    )
    .expect("endpoint")
}

#[test]
fn what_is_not_a_message_body_or_an_endpoint_is_refused_before_a_wire_is_touched() {
    let client = client();
    let refused = client.publish(TOPIC, b"\x00").err().expect("not text");
    assert!(!refused.is_retryable());
    assert!(refused.message.contains("U+0000"));
    assert!(Client::new("sns.local", Err(not_http()), "r", "a", "s").is_err());
    assert!(!client
        .confirm(Err(not_http()))
        .expect_err("no scheme")
        .is_retryable());
    assert!(client.publish(TOPIC, b"x").is_ok(), "a call to make");
    let nobody = Err(TransportError::retryable("nobody listens".to_string()));
    assert!(answered(nobody).expect_err("nobody").is_retryable());
}

#[test]
fn a_publish_is_a_signed_call_of_four_parameters() {
    let client = client().timing_out_after(Duration::from_secs(2));
    let call = client
        .publish(TOPIC, "r\u{e4}k <&> \"b\"".as_bytes())
        .expect("a message");
    assert_eq!(call.endpoint, "http://127.0.0.1:1");
    assert_eq!(call.path, "/");
    let pair = |name: &str, value: &str| (name.to_string(), value.to_string());
    assert_eq!(call.headers, vec![pair("Host", "127.0.0.1:1")]);
    assert_eq!(
        call.parameters,
        vec![
            pair("Action", "Publish"),
            pair("Version", "2010-03-31"),
            pair("TopicArn", TOPIC),
            pair("Message", "r\u{e4}k <&> \"b\""),
        ]
    );
    assert_eq!(VERSION, "2010-03-31");
    assert_eq!(call.element, "MessageId");
    assert_eq!(call.timeout, Some(Duration::from_secs(2)));
    let signer = call.signer;
    assert_eq!(signer.service, "sns");
    assert_eq!(signer.region, "r");
    assert_eq!(signer.access_key, "a");
    assert_eq!(signer.secret_key, "s");
}

#[test]
fn a_confirmation_is_one_unsigned_get_of_the_url() {
    let fetch = client()
        .timing_out_after(Duration::from_secs(2))
        .confirm(Ok(HttpTarget {
            secure: true,
            authority: "sns.local".to_string(),
            path: "/?Action=ConfirmSubscription".to_string(),
        }))
        .expect("an HTTP URL");
    assert_eq!(fetch.element, "SubscriptionArn");
    let call = fetch.call;
    assert_eq!(call.timeout, Some(Duration::from_secs(2)));
    assert_eq!(call.endpoint, "https://sns.local");
    assert_eq!(call.request.method, "GET");
    assert_eq!(call.request.path, "/?Action=ConfirmSubscription");
    assert_eq!(call.request.header_value("Host"), Some("sns.local"));
    assert_eq!(call.request.headers.len(), 1);
    assert!(call.request.body.is_empty());
}

#[test]
fn what_a_call_learned_is_the_element_its_answer_holds() {
    assert_eq!(MESSAGE_ID, "MessageId");
    assert_eq!(SUBSCRIPTION_ARN, "SubscriptionArn");
    assert_eq!(answered(Ok(Some("7".to_string()))).expect("found"), "7");
    assert_eq!(answered(Ok(None)).expect("not found"), "");
    let failure = TransportError::permanent("403".to_string());
    assert_eq!(
        answered(Err(failure.clone())).expect_err("refused"),
        failure
    );
}
