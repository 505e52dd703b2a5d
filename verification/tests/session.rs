//! The far end: what it answers, and what it holds.

use std::time::Duration;

use aws_sns::client::VERSION;
use aws_sns::error::TransportError;
use aws_sns::exchange::{Arrived, Reply, Request};
use aws_sns::session::{origin, Event, Session};

const TOPIC: &str = "arn:aws:sns:eu-north-1:123456789012:orders";

fn request() -> Request {
    Request::new("POST", "/").header("Host", "sns.local")
}

fn carrying(parameters: &[(&str, &str)]) -> Vec<(String, String)> {
    let mut all = vec![("Version", VERSION), ("TopicArn", TOPIC)];
    all.extend_from_slice(parameters);
    all.iter()
        .map(|(name, value)| (name.to_string(), value.to_string()))
        .collect()
}

fn asking(query: &[(&str, &str)]) -> Request {
    let mut request = Request::new("GET", "/");
    for (name, value) in query {
        request.query.push((name.to_string(), value.to_string()));
    }
    request
}

fn text(reply: &Reply) -> String {
    match reply {
        Reply::Answer(response) => String::from_utf8(response.body.clone()).expect("text"),
        Reply::Error { .. } => panic!("an error, not an answer"),
    }
}

fn forged() -> Result<(), TransportError> {
    Err(TransportError::permanent("forged".to_string()))
}

fn publish(session: &mut Session, topic: &str, message: &str) -> (Event, Reply) {
    let parameters = vec![
        ("Action".to_string(), "Publish".to_string()),
        ("Version".to_string(), VERSION.to_string()),
        ("TopicArn".to_string(), topic.to_string()),
        ("Message".to_string(), message.to_string()),
    ];
    session.answer(&request(), Ok(()), &parameters)
}

#[test]
fn a_session_answers_in_snss_shapes_and_refuses_a_bad_signature() {
    let mut session = Session::new("r", "AKID", "secret");
    let (event, reply) = session.answer(
        &request(),
        Ok(()),
        &carrying(&[("Action", "Publish"), ("Message", "a<b")]),
    );
    assert_eq!(reply.status(), 200);
    assert!(text(&reply).contains("<MessageId>00000001-xmip</MessageId>"));
    let origin = format!("{TOPIC}#00000001-xmip");
    assert_eq!(
        event,
        Event::Published(Arrived::new(origin.clone(), b"a<b".to_vec()))
    );
    assert_eq!(
        session
            .messages()
            .iter()
            .find(|(key, _)| *key == origin)
            .map(|(_, message)| message.as_str()),
        Some("a<b")
    );
    let (event, _) = session.answer(
        &request(),
        Ok(()),
        &carrying(&[("Action", "Publish"), ("Message", "")]),
    );
    assert_eq!(event, Event::Refused("InvalidParameter".to_string()));
    let (_, reply) = session.answer(&request(), Ok(()), &carrying(&[("Action", "Subscribe")]));
    assert_eq!(reply.status(), 400);
    let (event, reply) = session.answer(&request(), forged(), &[]);
    assert_eq!(event, Event::Refused("SignatureDoesNotMatch".to_string()));
    assert_eq!(reply.status(), 403);
}

#[test]
fn a_confirmation_arrives_unsigned_with_its_token_and_is_answered_with_an_arn() {
    let mut session = Session::new("r", "AKID", "secret");
    let url = Session::subscribe_url("http://sns.local", TOPIC);
    let confirm = asking(&[
        ("Action", "ConfirmSubscription"),
        ("TopicArn", TOPIC),
        ("Token", "xmip"),
    ]);
    let (event, reply) = session.answer(&confirm, forged(), &[]);
    assert!(url.contains("Token=xmip"));
    assert_eq!(reply.status(), 200);
    assert!(text(&reply).contains("<SubscriptionArn>"));
    assert_eq!(
        event,
        Event::Confirmed {
            topic_arn: TOPIC.to_string(),
            subscription_arn: format!("{TOPIC}:xmip-subscription"),
        }
    );
    let stale = asking(&[
        ("Action", "ConfirmSubscription"),
        ("TopicArn", TOPIC),
        ("Token", "other"),
    ]);
    let (event, reply) = session.answer(&stale, forged(), &[]);
    assert_eq!(event, Event::Refused("InvalidParameter".to_string()));
    assert_eq!(reply.status(), 400);
}

#[test]
fn a_confirmation_is_answered_alike_signed_or_not() {
    let mut session = Session::new("r", "AKID", "secret");
    let confirm = asking(&[
        ("Action", "ConfirmSubscription"),
        ("TopicArn", TOPIC),
        ("Token", "xmip"),
    ]);
    assert!(Session::confirms(&confirm));
    assert!(!Session::confirms(&request()));
    let signed = session.answer(&confirm, Ok(()), &carrying(&[("Action", "Publish")]));
    let forged = session.answer(&confirm, forged(), &[]);
    assert_eq!(signed, forged);
    assert_eq!(signed.1.status(), 200);
}

#[test]
fn an_answer_is_xml_in_the_shape_sns_has() {
    let mut session = Session::new("r", "AKID", "secret");
    let (_, reply) = publish(&mut session, TOPIC, "a");
    assert_eq!(
        text(&reply),
        "<?xml version=\"1.0\"?><PublishResponse><PublishResult>\
         <MessageId>00000001-xmip</MessageId></PublishResult></PublishResponse>"
    );
    match &reply {
        Reply::Answer(response) => assert_eq!(
            response.headers,
            vec![("Content-Type".to_string(), "text/xml".to_string())]
        ),
        Reply::Error { .. } => panic!("an error, not an answer"),
    }
    let confirm = asking(&[
        ("Action", "ConfirmSubscription"),
        ("TopicArn", "t"),
        ("Token", "xmip"),
    ]);
    let (_, reply) = session.answer(&confirm, Ok(()), &[]);
    assert_eq!(
        text(&reply),
        "<?xml version=\"1.0\"?><ConfirmSubscriptionResponse><ConfirmSubscriptionResult>\
         <SubscriptionArn>t:xmip-subscription</SubscriptionArn>\
         </ConfirmSubscriptionResult></ConfirmSubscriptionResponse>"
    );
}

#[test]
fn every_refusal_has_its_status_code_and_message_and_changes_nothing() {
    let mut session = Session::new("r", "AKID", "secret");
    publish(&mut session, TOPIC, "held");
    let held = session.messages();
    let mut refused = |request: &Request,
                       verified: Result<(), TransportError>,
                       parameters: &[(String, String)],
                       expected: (u16, &str, &str)| {
        let (event, reply) = session.answer(request, verified, parameters);
        assert_eq!(event, Event::Refused(expected.1.to_string()));
        assert_eq!(
            reply,
            Reply::Error {
                status: expected.0,
                code: expected.1.to_string(),
                message: expected.2.to_string(),
            }
        );
        assert_eq!(session.messages(), held);
    };
    let pair = |name: &str, value: &str| (name.to_string(), value.to_string());
    refused(
        &request(),
        forged(),
        &carrying(&[("Action", "Publish"), ("Message", "a")]),
        (403, "SignatureDoesNotMatch", "forged"),
    );
    refused(
        &request(),
        Ok(()),
        &[pair("Action", "Publish"), pair("Version", "2012-11-05")],
        (
            400,
            "InvalidParameterValue",
            "a version this session does not speak",
        ),
    );
    refused(
        &request(),
        Ok(()),
        &carrying(&[]),
        (400, "InvalidAction", "not a call this session answers"),
    );
    refused(
        &request(),
        Ok(()),
        &[pair("Action", "Publish"), pair("Version", VERSION)],
        (400, "MissingParameter", "a request naming no TopicArn"),
    );
    refused(
        &request(),
        Ok(()),
        &carrying(&[("Action", "Publish")]),
        (400, "MissingParameter", "a request with no Message"),
    );
    refused(
        &request(),
        Ok(()),
        &carrying(&[("Action", "Publish"), ("Message", "\u{0}")]),
        (
            400,
            "InvalidParameter",
            "a message is text that XML permits, and U+0000 is not",
        ),
    );
    let token = "a token this session did not hand out";
    refused(
        &asking(&[("Action", "ConfirmSubscription"), ("Token", "xmip")]),
        Ok(()),
        &[],
        (400, "InvalidParameter", token),
    );
    refused(
        &asking(&[
            ("Action", "ConfirmSubscription"),
            ("Token", "xmip"),
            ("TopicArn", ""),
        ]),
        Ok(()),
        &[],
        (400, "InvalidParameter", token),
    );
}

#[test]
fn what_is_published_is_held_under_its_own_origin_in_the_order_of_the_keys() {
    let mut session = Session::new("r", "AKID", "secret");
    assert!(session.has_room());
    for number in 1..=17 {
        let topic = if number % 2 == 0 { "a" } else { "b#" };
        let (event, _) = publish(&mut session, topic, &format!("m{number}"));
        assert_eq!(
            event,
            Event::Published(Arrived::new(
                format!("{topic}#{number:08x}-xmip"),
                format!("m{number}").into_bytes()
            ))
        );
    }
    let messages = session.messages();
    assert_eq!(messages.len(), 17);
    let mut sorted = messages.clone();
    sorted.sort();
    assert_eq!(messages, sorted);
    assert_eq!(
        messages[0],
        ("a#00000002-xmip".to_string(), "m2".to_string())
    );
    assert_eq!(
        messages[16],
        ("b##00000011-xmip".to_string(), "m17".to_string())
    );
}

#[test]
fn only_what_is_taken_as_a_publish_needs_a_number() {
    let mut session = Session::new("r", "AKID", "secret");
    let good = carrying(&[("Action", "Publish"), ("Message", "a")]);
    let confirm = asking(&[("Action", "ConfirmSubscription")]);
    let cases = [
        (request(), Ok(()), good.clone(), true),
        (request(), forged(), good.clone(), false),
        (confirm, Ok(()), good.clone(), false),
        (request(), Ok(()), good[1..].to_vec(), false),
        (
            request(),
            Ok(()),
            carrying(&[("Action", "Subscribe"), ("Message", "a")]),
            false,
        ),
        (
            request(),
            Ok(()),
            carrying(&[("Action", "Publish"), ("Message", "")]),
            false,
        ),
        (request(), Ok(()), carrying(&[("Action", "Publish")]), false),
        (
            request(),
            Ok(()),
            vec![good[0].clone(), good[2].clone(), good[3].clone()],
            false,
        ),
    ];
    for (asked, verified, parameters, expected) in cases {
        assert_eq!(session.publishes(&asked, &verified, &parameters), expected);
        let (event, _) = session
            .answer_if_room(&asked, verified, &parameters)
            .expect("room");
        assert_eq!(matches!(event, Event::Published(_)), expected);
    }
    assert_eq!(session.messages().len(), 1);
}

#[test]
fn keys_are_ordered_by_code_point() {
    let mut session = Session::new("r", "AKID", "secret");
    for topic in ["\u{10000}", "\u{ffff}", "ab", "a", "\u{e4}", "B"] {
        publish(&mut session, topic, "m");
    }
    let messages = session.messages();
    let mut sorted = messages.clone();
    sorted.sort();
    assert_eq!(messages.len(), 6);
    assert_eq!(messages, sorted);
}

#[test]
fn an_origin_is_the_topic_with_the_id_for_its_fragment() {
    assert_eq!(origin(TOPIC, "7"), format!("{TOPIC}#7"));
    assert_eq!(
        Session::subscribe_url("http://h:1", "arn%3At"),
        "http://h:1/?Action=ConfirmSubscription&TopicArn=arn%3At&Token=xmip"
    );
}

#[test]
fn a_session_keeps_its_credential_and_its_patience() {
    let session = Session::new("r", "AKID", "secret");
    assert_eq!(session.timeout(), None);
    let session = session.timing_out_after(Duration::from_secs(3));
    assert_eq!(session.timeout(), Some(Duration::from_secs(3)));
    assert_eq!(session.signer().service, "sns");
    assert_eq!(session.signer().region, "r");
    assert_eq!(session.signer().access_key, "AKID");
    assert_eq!(session.signer().secret_key, "secret");
}
