//! Deliveries, written and read.

use std::time::Duration;

use aws_sns::error::{Cause, TransportError};
use aws_sns::exchange::{HttpTarget, Request};
use aws_sns::subscription::{accept_one, deliver, delivery, parse, push, pushed, Delivery, Fields};

const TOPIC: &str = "arn:aws:sns:eu-north-1:123456789012:orders";

fn notification(message: &str) -> Delivery {
    Delivery::Notification {
        topic_arn: TOPIC.to_string(),
        message_id: "1-xmip".to_string(),
        message: message.to_string(),
    }
}

fn target(secure: bool) -> Result<HttpTarget, TransportError> {
    Ok(HttpTarget {
        secure,
        authority: "sns.local:8080".to_string(),
        path: "/sns".to_string(),
    })
}

#[test]
fn a_delivery_is_written_as_sns_writes_it_and_reads_back() {
    let sent = deliver("/sns", &notification("r\u{e4}k <&> \"b\"\r\n"));
    assert_eq!(
        sent.header_value("x-amz-sns-message-type"),
        Some("Notification")
    );
    assert!(sent.body.starts_with(b"{"));
    assert_eq!(
        parse(&sent).expect("read"),
        notification("r\u{e4}k <&> \"b\"\r\n")
    );
    let confirmation = Delivery::Confirmation {
        topic_arn: TOPIC.to_string(),
        subscribe_url: "http://sns.local/?Action=ConfirmSubscription".to_string(),
    };
    assert_eq!(
        parse(&deliver("/", &confirmation)).expect("read"),
        confirmation
    );
    let other = Delivery::Other("UnsubscribeConfirmation".to_string());
    assert_eq!(parse(&deliver("/", &other)).expect("read"), other);
}

#[test]
fn what_is_not_a_delivery_is_refused_with_the_reason() {
    let plain = Request::new("POST", "/").body(b"{}");
    let refused = parse(&plain).expect_err("no kind");
    assert!(refused.message.contains("not an SNS delivery"));
    assert!(!refused.is_retryable());
    let broken = Request::new("POST", "/")
        .header("x-amz-sns-message-type", "Notification")
        .body(b"not json");
    assert!(parse(&broken)
        .expect_err("not JSON")
        .message
        .contains("JSON"));
    let bare = Request::new("POST", "/")
        .header("x-amz-sns-message-type", "Notification")
        .body(br#"{"TopicArn":"t"}"#);
    assert!(parse(&bare)
        .expect_err("no id")
        .message
        .contains("MessageId"));
}

#[test]
fn a_delivery_is_a_post_with_its_kind_and_a_compact_document() {
    let sent = deliver("/in", &notification("say \"a\"\n\u{1}\u{e4}"));
    assert_eq!(sent.method, "POST");
    assert_eq!(sent.path, "/in");
    assert!(sent.query.is_empty());
    assert_eq!(
        sent.headers,
        vec![
            (
                "x-amz-sns-message-type".to_string(),
                "Notification".to_string()
            ),
            (
                "Content-Type".to_string(),
                "text/plain; charset=UTF-8".to_string()
            ),
        ]
    );
    let body = String::from_utf8(sent.body).expect("text");
    assert_eq!(
        body,
        format!(
            "{{\"Message\":\"say \\\"a\\\"\\n\\u0001\u{e4}\",\"MessageId\":\"1-xmip\",\
             \"TopicArn\":\"{TOPIC}\",\"Type\":\"Notification\"}}"
        )
    );
    let offer = Delivery::Confirmation {
        topic_arn: "t".to_string(),
        subscribe_url: "u".to_string(),
    };
    assert_eq!(
        deliver("/", &offer).body,
        br#"{"SubscribeURL":"u","Token":"xmip","TopicArn":"t","Type":"SubscriptionConfirmation"}"#
            .to_vec()
    );
    assert_eq!(
        deliver("/", &Delivery::Other("K".to_string())).body,
        br#"{"Type":"K"}"#.to_vec()
    );
}

#[test]
fn a_kind_is_read_whatever_the_case_of_its_header() {
    let request = Request::new("POST", "/")
        .header("X-Amz-Sns-Message-Type", "Notification")
        .body(br#"{"TopicArn":"t","MessageId":"i","Message":"m"}"#);
    assert_eq!(
        parse(&request).expect("read"),
        Delivery::Notification {
            topic_arn: "t".to_string(),
            message_id: "i".to_string(),
            message: "m".to_string(),
        }
    );
}

fn read(kind: &str, body: &[u8]) -> Result<Delivery, TransportError> {
    parse(
        &Request::new("POST", "/")
            .header("x-amz-sns-message-type", kind)
            .body(body),
    )
}

#[test]
fn each_field_a_kind_carries_is_missed_in_turn() {
    let message = |kind: &str, body: &[u8]| {
        let failure = read(kind, body).expect_err("a field is missing");
        assert_eq!(failure.cause, Cause::Protocol);
        failure.message
    };
    assert_eq!(
        message("Notification", b"{}"),
        "a Notification with no TopicArn"
    );
    assert_eq!(
        message("Notification", br#"{"TopicArn":"t","Message":"m"}"#),
        "a Notification with no MessageId"
    );
    assert_eq!(
        message("Notification", br#"{"TopicArn":"t","MessageId":"i","Message":7}"#),
        "a Notification with no Message"
    );
    assert_eq!(
        message("SubscriptionConfirmation", br#"{"SubscribeURL":"u"}"#),
        "a SubscriptionConfirmation with no TopicArn"
    );
    assert_eq!(
        message("SubscriptionConfirmation", br#"{"TopicArn":"t"}"#),
        "a SubscriptionConfirmation with no SubscribeURL"
    );
    assert_eq!(message("Notification", b"[1]"), "a Notification with no TopicArn");
    assert_eq!(
        read("Anything", b"null").expect("a kind of no interest"),
        Delivery::Other("Anything".to_string())
    );
    assert_eq!(
        message("Notification", b"{"),
        "a delivery that is not JSON: EOF while parsing an object at line 1 column 1"
    );
}

#[test]
fn a_delivery_is_made_of_its_kind_and_its_fields() {
    let fields = || Fields {
        topic_arn: Some("t".to_string()),
        subscribe_url: Some("u".to_string()),
        message_id: None,
        message: Some("m".to_string()),
    };
    assert_eq!(
        delivery("SubscriptionConfirmation", fields()).expect("whole"),
        Delivery::Confirmation {
            topic_arn: "t".to_string(),
            subscribe_url: "u".to_string(),
        }
    );
    assert_eq!(
        delivery("Notification", fields()).expect_err("no id").message,
        "a Notification with no MessageId"
    );
    assert_eq!(
        delivery("X", fields()).expect("other"),
        Delivery::Other("X".to_string())
    );
}

#[test]
fn another_kind_under_a_known_name_does_not_read_back() {
    let posing = Delivery::Other("Notification".to_string());
    let failure = parse(&deliver("/", &posing)).expect_err("no fields");
    assert_eq!(failure.message, "a Notification with no TopicArn");
}

#[test]
fn a_push_names_its_endpoint_and_host_and_still_reads_back() {
    let call = push(
        target(false),
        &notification("a"),
        Some(Duration::from_secs(2)),
    )
    .expect("an HTTP URL");
    assert_eq!(call.endpoint, "http://sns.local:8080");
    assert_eq!(call.timeout, Some(Duration::from_secs(2)));
    assert_eq!(call.request.path, "/sns");
    assert_eq!(call.request.header_value("host"), Some("sns.local:8080"));
    assert_eq!(parse(&call.request).expect("read"), notification("a"));
    let call = push(target(true), &notification("a"), None).expect("an HTTPS URL");
    assert_eq!(call.endpoint, "https://sns.local:8080");
    assert_eq!(call.timeout, None);
    let not_http = TransportError::permanent("not HTTP".to_string());
    assert_eq!(
        push(Err(not_http.clone()), &notification("a"), None).expect_err("no scheme"),
        not_http
    );
}

#[test]
fn a_push_is_taken_on_2xx_alone_and_retryable_otherwise() {
    for status in [200, 204, 299] {
        assert!(pushed(status).is_ok());
    }
    for status in [100, 199, 300, 400, 503] {
        let failure = pushed(status).expect_err("not taken");
        assert!(failure.is_retryable());
        assert_eq!(failure.message, format!("the endpoint answered {status}"));
    }
}

#[test]
fn what_a_connection_sent_is_taken_or_answered_400() {
    let taken = accept_one(Some(deliver("/sns", &notification("a"))));
    assert_eq!(taken.status, Some(200));
    assert_eq!(taken.delivery.expect("a delivery"), notification("a"));
    let bad = accept_one(Some(Request::new("POST", "/").body(b"x")));
    assert_eq!(bad.status, Some(400));
    assert!(bad.delivery.is_err());
    let silent = accept_one(None);
    assert_eq!(silent.status, None);
    assert_eq!(
        silent.delivery.expect_err("nothing").message,
        "a connection that sent no request"
    );
}
