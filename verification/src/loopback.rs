//! Both ends on one machine: a session stands in for SNS, takes the one
//! publish, and delivers it to the subscription the transport listens as.

use std::time::Duration;

use vstd::prelude::*;
use vstd::utf8::*;

use crate::client::lemma_publish_parameters;
use crate::error::{outcome, protocol_error, Cause, Failure, TransportError};
use crate::exchange::{Arrived, ArrivedView, RequestView};
use crate::message::{is_message, law_a_message_is_its_bytes};
use crate::session::{
    confirms_one, law_an_id_holds_no_mark, message_id, origin_of, Event, EventView, SessionView,
};
use crate::subscription::{delivery_outcome, named_apart, Delivery, DeliveryView};
use crate::text::{
    last_place, law_no_mark_follows_the_last, lemma_last_place, split_at_last, utf8,
};
use crate::transport::{streams_outcome, taking, SnsTransport, TakenView, TransportView};

verus! {

/// The topic the loopback publishes to and is subscribed to.
pub const LOOPBACK_TOPIC: &'static str = "arn:aws:sns:eu-north-1:123456789012:loopback";

impl SnsTransport {
    /// Both ends on this machine: the session stands in for SNS on an
    /// ephemeral local port, the subscription's endpoint listens on another,
    /// one topic and one credential, the same timeout on every side.
    #[must_use]
    pub fn loopback(timeout: Duration) -> (transport: SnsTransport)
        ensures
            transport@ == (TransportView {
                endpoint: "http://127.0.0.1:0"@,
                region: "eu-north-1"@,
                topic_arn: LOOPBACK_TOPIC@,
                access_key: "AKID"@,
                secret_key: "secret"@,
                bind: "127.0.0.1:0"@,
                timeout: Some(timeout),
            }),
            transport@.topic_arn == "arn:aws:sns:eu-north-1:123456789012:loopback"@,
    {
        SnsTransport::new("http://127.0.0.1:0", "eu-north-1", LOOPBACK_TOPIC).with_credentials(
            "AKID",
            "secret",
        ).timing_out_after(timeout)
    }
}

/// What the result of taking one Stream says.
pub open spec fn stream_outcome(result: Result<Arrived, TransportError>) -> Result<
    ArrivedView,
    Failure,
> {
    match result {
        Ok(arrived) => Ok(arrived@),
        Err(failure) => Err(failure@),
    }
}

/// The Stream that was published, where a publish was due. `shown` is how
/// `event` shows itself.
///
/// # Errors
/// Where the client did something else.
pub fn publish_due(event: Event, shown: &str) -> (result: Result<Arrived, TransportError>)
    ensures
        stream_outcome(result) == (match event@ {
            EventView::Published(arrived) => Ok::<ArrivedView, Failure>(arrived),
            _ => Err(Failure::protocol(shown@ + " where a publish was due"@)),
        }),
{
    match event {
        Event::Published(arrived) => Ok(arrived),
        _ => Err(protocol_error(shown.to_owned().concat(" where a publish was due"))),
    }
}

/// The notification SNS delivers for what was published, or why there is
/// none: the topic stands before the last `#` of the origin, the message id
/// after it.
pub open spec fn notifying(published: ArrivedView) -> Result<DeliveryView, Failure> {
    let place = last_place(published.origin_uri, '#');
    if place < 0 {
        Err(Failure::protocol("a publish with no message id"@))
    } else if !valid_utf8(published.bytes) {
        Err(Failure::protocol("a published message that is not text"@))
    } else {
        Ok(
            DeliveryView::Notification {
                topic_arn: published.origin_uri.take(place),
                message_id: published.origin_uri.skip(place + 1),
                message: decode_utf8(published.bytes),
            },
        )
    }
}

/// The notification SNS delivers for what was published: the Stream back as
/// the text it is, under the topic and the id the session gave it.
///
/// # Errors
/// Where what was published has no message id, or is not text.
pub fn notification(published: &Arrived) -> (result: Result<Delivery, TransportError>)
    ensures
        delivery_outcome(result) == notifying(published@),
{
    let (topic_arn, message_id): (&str, &str) = match split_at_last(
        published.origin_uri.as_str(),
        '#',
    ) {
        Some(parts) => parts,
        None => {
            return Err(protocol_error("a publish with no message id".to_owned()));
        },
    };
    let message: &str = match utf8(published.bytes.as_slice()) {
        Some(message) => message,
        None => {
            return Err(protocol_error("a published message that is not text".to_owned()));
        },
    };
    Ok(
        Delivery::Notification {
            topic_arn: topic_arn.to_owned(),
            message_id: message_id.to_owned(),
            message: message.to_owned(),
        },
    )
}

/// The URL of the subscription's endpoint, which listens at `address`.
#[must_use]
pub fn endpoint_url(address: &str) -> (url: String)
    ensures
        url@ == "http://"@ + address@ + "/sns"@,
{
    "http://".to_owned().concat(address).concat("/sns")
}

/// What a loopback round comes to, from how the delivery went and what the
/// endpoint took; the endpoint took nothing one can speak of where it
/// panicked.
pub open spec fn settling(
    delivered: Result<(), Failure>,
    taken: Option<Result<Seq<ArrivedView>, Failure>>,
) -> Result<ArrivedView, Failure> {
    match (taken, delivered) {
        (None, _) => Err(Failure::protocol("the endpoint's thread panicked"@)),
        (_, Err(failure)) => Err(failure),
        (Some(Err(failure)), _) => Err(failure),
        (Some(Ok(list)), _) => if list.len() > 0 {
            Ok(list[0])
        } else {
            Err(Failure::protocol("delivered, but the endpoint took nothing"@))
        },
    }
}

/// What the endpoint took says.
pub open spec fn endpoint_outcome(
    taken: Option<Result<Vec<Arrived>, TransportError>>,
) -> Option<Result<Seq<ArrivedView>, Failure>> {
    match taken {
        Some(result) => Some(streams_outcome(result)),
        None => None,
    }
}

/// What a loopback round comes to: the Stream that the endpoint took.
///
/// # Errors
/// Where the endpoint panicked, the delivery failed, or the endpoint failed or
/// took nothing.
pub fn settle(
    delivered: Result<(), TransportError>,
    taken: Option<Result<Vec<Arrived>, TransportError>>,
) -> (result: Result<Arrived, TransportError>)
    ensures
        stream_outcome(result) == settling(outcome(delivered), endpoint_outcome(taken)),
{
    let taken: Result<Vec<Arrived>, TransportError> = match taken {
        Some(taken) => taken,
        None => {
            return Err(protocol_error("the endpoint's thread panicked".to_owned()));
        },
    };
    if let Err(failure) = delivered {
        return Err(failure);
    }
    let mut list: Vec<Arrived> = match taken {
        Ok(list) => list,
        Err(failure) => {
            return Err(failure);
        },
    };
    if list.len() > 0 {
        Ok(list.swap_remove(0))
    } else {
        Err(protocol_error("delivered, but the endpoint took nothing".to_owned()))
    }
}

/// What a session published comes back whole: the notification for it names
/// the topic and the id that its origin names, and the endpoint that takes
/// the notification takes the Stream that was published, bytes and origin.
pub proof fn law_a_notification_is_what_was_published(
    topic_arn: Seq<char>,
    id: Seq<char>,
    bytes: Seq<u8>,
)
    requires
        !id.contains('#'),
        valid_utf8(bytes),
    ensures
        ({
            let published = ArrivedView { origin_uri: origin_of(topic_arn, id), bytes };
            &&& notifying(published) matches Ok(notice)
            &&& notice == (DeliveryView::Notification {
                topic_arn,
                message_id: id,
                message: decode_utf8(bytes),
            })
            &&& named_apart(notice)
            &&& taking(notice) == TakenView::Streams(seq![published])
        }),
{
    let uri = origin_of(topic_arn, id);
    reveal_strlit("#");
    assert forall|i: int| topic_arn.len() < i < uri.len() implies uri[i] != '#' by {
        assert(uri[i] == id[i - topic_arn.len() - 1]);
    }
    assert(uri[topic_arn.len() as int] == '#');
    lemma_last_place(uri, '#', topic_arn.len() as int);
    assert(uri.take(topic_arn.len() as int) =~= topic_arn);
    assert(uri.skip(topic_arn.len() as int + 1) =~= id);
    decode_utf8_encode_utf8(bytes);
}

/// A round gives back what was sent. Whatever Stream a near end sends to its
/// own topic, the session that is asked to publish it does, and numbers it
/// next; the notification for it comes to that Stream alone, with the bytes
/// that were sent and the origin that the session gave it; and that Stream is
/// what the round comes to.
pub proof fn law_a_round_gives_back_what_was_sent(
    near: TransportView,
    bytes: Seq<u8>,
    host: Seq<char>,
    session: SessionView,
    request: RequestView,
)
    requires
        bytes.len() <= 256 * 1024,
        is_message(bytes),
        !confirms_one(request),
    ensures
        ({
            let arrived = ArrivedView {
                origin_uri: origin_of(near.topic_arn, message_id(session.published.len() + 1)),
                bytes,
            };
            &&& near.sending(Seq::empty(), bytes, Ok(host)) matches Ok(call)
            &&& session.asked(request, Ok(()), call.parameters).1 == EventView::Published(arrived)
            &&& notifying(arrived) matches Ok(notice)
            &&& named_apart(notice)
            &&& taking(notice) == TakenView::Streams(seq![arrived])
            &&& settling(Ok(()), Some(Ok(seq![arrived]))) == Ok::<ArrivedView, Failure>(arrived)
        }),
{
    let body = decode_utf8(bytes);
    lemma_publish_parameters(near.topic_arn, body);
    law_a_message_is_its_bytes(bytes);
    law_an_id_holds_no_mark(session.published.len() + 1);
    law_a_notification_is_what_was_published(
        near.topic_arn,
        message_id(session.published.len() + 1),
        bytes,
    );
}

/// What was published under a topic and an id is notified under just these,
/// with the very text it was. Where the origin holds no `#` there is no id,
/// and where the bytes are no text there is no message; either is a failure
/// of the protocol, the missing id before the missing text.
pub proof fn law_a_notification_names_topic_id_and_text(
    topic_arn: Seq<char>,
    id: Seq<char>,
    text: Seq<char>,
    published: ArrivedView,
)
    ensures
        !id.contains('#') ==> notifying(
            ArrivedView { origin_uri: topic_arn + "#"@ + id, bytes: encode_utf8(text) },
        ) == Ok::<DeliveryView, Failure>(
            DeliveryView::Notification { topic_arn, message_id: id, message: text },
        ),
        !published.origin_uri.contains('#') ==> notifying(published) == Err::<
            DeliveryView,
            Failure,
        >(Failure { cause: Cause::Protocol, message: "a publish with no message id"@ }),
        published.origin_uri.contains('#') && !(exists|body: Seq<char>| #[trigger]
            encode_utf8(body) == published.bytes) ==> notifying(published) == Err::<
            DeliveryView,
            Failure,
        >(Failure { cause: Cause::Protocol, message: "a published message that is not text"@ }),
{
    encode_utf8_valid_utf8(text);
    encode_utf8_decode_utf8(text);
    if !id.contains('#') {
        law_a_notification_is_what_was_published(topic_arn, id, encode_utf8(text));
        assert(origin_of(topic_arn, id) == topic_arn + "#"@ + id);
    }
    let uri = published.origin_uri;
    law_no_mark_follows_the_last(uri, '#');
    if uri.contains('#') {
        let at = choose|at: int| 0 <= at < uri.len() && uri[at] == '#';
        assert(last_place(uri, '#') >= at);
    } else if last_place(uri, '#') >= 0 {
        assert(uri.contains(uri[last_place(uri, '#')]));
    }
    if valid_utf8(published.bytes) {
        decode_utf8_encode_utf8(published.bytes);
        assert(encode_utf8(decode_utf8(published.bytes)) == published.bytes);
    }
}

/// A round comes to the first Stream that the endpoint took, where the
/// delivery went through. It fails for the first of these that holds: the
/// endpoint panicked; the delivery failed; the endpoint failed; the endpoint
/// took nothing. A failure that came in goes out as it is.
pub proof fn law_a_round_settles_on_what_was_taken(
    delivered: Result<(), Failure>,
    failure: Failure,
    taken: Result<Seq<ArrivedView>, Failure>,
    list: Seq<ArrivedView>,
)
    ensures
        list.len() > 0 ==> settling(Ok(()), Some(Ok(list))) == Ok::<ArrivedView, Failure>(list[0]),
        settling(delivered, None) == Err::<ArrivedView, Failure>(
            Failure { cause: Cause::Protocol, message: "the endpoint's thread panicked"@ },
        ),
        settling(Err(failure), Some(taken)) == Err::<ArrivedView, Failure>(failure),
        settling(Ok(()), Some(Err(failure))) == Err::<ArrivedView, Failure>(failure),
        settling(Ok(()), Some(Ok(Seq::empty()))) == Err::<ArrivedView, Failure>(
            Failure { cause: Cause::Protocol, message: "delivered, but the endpoint took nothing"@ },
        ),
{
}

/// What the endpoint took says each of its parts as it is, and so does the
/// outcome of a round.
pub proof fn law_what_a_round_took_says_its_parts(
    arrived: Arrived,
    taken: Result<Vec<Arrived>, TransportError>,
    failure: TransportError,
)
    ensures
        stream_outcome(Ok(arrived)) == Ok::<ArrivedView, Failure>(arrived@),
        stream_outcome(Err(failure)) == Err::<ArrivedView, Failure>(failure@),
        endpoint_outcome(Some(taken)) == Some(streams_outcome(taken)),
        endpoint_outcome(None) is None,
{
}

} // verus!
