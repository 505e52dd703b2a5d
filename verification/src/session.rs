//! The far end: enough of SNS to answer one Location, and what a test or a
//! playground puts on loopback.
//!
//! Not SNS. One session holds the messages published to every topic it is
//! asked about in memory, wants every `Publish` signed with one credential,
//! and answers in the shapes SNS answers: the message id, the subscription
//! ARN, the error with its code. A `ConfirmSubscription` arrives unsigned
//! with its token in the query, as the `SubscribeURL` SNS hands out carries
//! it.

use std::time::Duration;

use vstd::prelude::*;
use vstd::utf8::*;

use crate::client::{MESSAGE_ID, SUBSCRIPTION_ARN, VERSION};
use crate::error::{outcome, Failure, TransportError};
use crate::exchange::{
    pairs, parameter, text_view, value_named, Arrived, ArrivedView, Call, CallView, HttpTarget, Pairs,
    Reply, ReplyView, Request, RequestView, Response, ResponseView, Signer, SignerView,
};
use crate::json::{json_document, Members};
use crate::message::{is_message, reason, refusal};
use crate::subscription::{
    call_outcome, members_of, named_apart, opens_with_brace, push, pushing, reading, Delivery,
    DeliveryView,
};
use crate::text::{
    comes_before, is_digit, lemma_numeral_digits, lemma_numeral_injective, lemma_precedes_total,
    lemma_precedes_transitive, numeral, numeral_text, precedes, same_text,
};

verus! {

/// What the client did.
#[derive(Clone, Debug, PartialEq, Eq)]
pub enum Event {
    /// The client published a message; here is the Stream, its origin the
    /// topic ARN and the id it was given.
    Published(Arrived),
    /// The client confirmed a subscription to `topic_arn`.
    Confirmed { topic_arn: String, subscription_arn: String },
    /// The client was answered with this error code.
    Refused(String),
}

/// What an [`Event`] says.
pub enum EventView {
    Published(ArrivedView),
    Confirmed { topic_arn: Seq<char>, subscription_arn: Seq<char> },
    Refused(Seq<char>),
}

impl View for Event {
    type V = EventView;

    open spec fn view(&self) -> EventView {
        match self {
            Event::Published(arrived) => EventView::Published(arrived@),
            Event::Confirmed { topic_arn, subscription_arn } => EventView::Confirmed {
                topic_arn: topic_arn@,
                subscription_arn: subscription_arn@,
            },
            Event::Refused(code) => EventView::Refused(code@),
        }
    }
}

/// A message that was published. Its id is told by its place: the first
/// message is number one.
struct Message {
    topic_arn: String,
    body: String,
}

/// What was published: to which topic, and what.
pub struct MessageView {
    pub topic_arn: Seq<char>,
    pub body: Seq<char>,
}

impl View for Message {
    type V = MessageView;

    closed spec fn view(&self) -> MessageView {
        MessageView { topic_arn: self.topic_arn@, body: self.body@ }
    }
}

/// A far end, and what was published to it.
pub struct Session {
    signer: Signer,
    published: Vec<Message>,
    timeout: Option<Duration>,
}

/// What a [`Session`] holds: the credential it wants, every message published
/// to it, the earliest first, and how long it waits.
pub struct SessionView {
    pub signer: SignerView,
    pub published: Seq<MessageView>,
    pub timeout: Option<Duration>,
}

impl View for Session {
    type V = SessionView;

    closed spec fn view(&self) -> SessionView {
        SessionView {
            signer: self.signer@,
            published: self.published@.map_values(|message: Message| message@),
            timeout: self.timeout,
        }
    }
}

/// The id of the message numbered `number`: the number in eight lower-case
/// hexadecimal digits, or more where it takes more, and a suffix.
pub open spec fn message_id(number: nat) -> Seq<char> {
    numeral(number, 16, false, 8) + "-xmip"@
}

/// The message `id` on `topic_arn`, as an origin says it.
pub open spec fn origin_of(topic_arn: Seq<char>, id: Seq<char>) -> Seq<char> {
    topic_arn + "#"@ + id
}

/// Every message published, keyed by its origin.
pub open spec fn messages_of(published: Seq<MessageView>) -> Map<Seq<char>, Seq<char>>
    decreases published.len(),
{
    if published.len() == 0 {
        Map::empty()
    } else {
        messages_of(published.drop_last()).insert(
            origin_of(published.last().topic_arn, message_id(published.len())),
            published.last().body,
        )
    }
}

/// Whether `list` is `map`, its keys in ascending order.
pub open spec fn lists(list: Pairs, map: Map<Seq<char>, Seq<char>>) -> bool {
    &&& forall|i: int, j: int|
        0 <= i < j < list.len() ==> precedes((#[trigger] list[i]).0, (#[trigger] list[j]).0)
    &&& forall|i: int|
        0 <= i < list.len() ==> {
            &&& map.contains_key((#[trigger] list[i]).0)
            &&& map[list[i].0] == list[i].1
        }
    &&& forall|key: Seq<char>| #[trigger]
        map.contains_key(key) ==> exists|i: int|
            0 <= i < list.len() && (#[trigger] list[i]).0 == key
}

/// The message `id` on `topic_arn`, as an origin says it.
#[must_use]
pub fn origin(topic_arn: &str, id: &str) -> (uri: String)
    ensures
        uri@ == origin_of(topic_arn@, id@),
{
    let mut uri: String = topic_arn.to_owned();
    uri.append("#");
    uri.append(id);
    uri
}

/// The id of the message numbered `number`.
fn id_text(number: usize) -> (id: String)
    ensures
        id@ == message_id(number as nat),
{
    numeral_text(number as u64, 16, false, 8).concat("-xmip")
}

/// The answer that `xml` is the body of.
pub open spec fn answer_of(xml: Seq<char>) -> ReplyView {
    ReplyView::Answer(
        ResponseView {
            status: 200,
            headers: seq![("Content-Type"@, "text/xml"@)],
            body: encode_utf8("<?xml version=\"1.0\"?>"@ + xml),
        },
    )
}

/// The answer that `xml` is the body of.
fn answer(xml: &str) -> (reply: Reply)
    ensures
        reply@ == answer_of(xml@),
{
    let body: String = "<?xml version=\"1.0\"?>".to_owned().concat(xml);
    let mut headers: Vec<(String, String)> = Vec::new();
    headers.push(("Content-Type".to_owned(), "text/xml".to_owned()));
    proof {
        assert(pairs(headers@) =~= seq![("Content-Type"@, "text/xml"@)]);
    }
    Reply::Answer(Response { status: 200, headers, body: body.as_str().as_bytes_vec() })
}

/// What a client that is refused is told, and what is made of it.
pub open spec fn refusing(status: u16, code: Seq<char>, message: Seq<char>) -> (
    EventView,
    ReplyView,
) {
    (EventView::Refused(code), ReplyView::Error { status, code, message })
}

/// Refuses a client with an error code.
fn refused(status: u16, code: &str, message: &str) -> (told: (Event, Reply))
    ensures
        (told.0@, told.1@) == refusing(status, code@, message@),
{
    (
        Event::Refused(code.to_owned()),
        Reply::Error { status, code: code.to_owned(), message: message.to_owned() },
    )
}

/// The subscription that a session makes to `topic_arn`.
pub open spec fn subscription_to(topic_arn: Seq<char>) -> Seq<char> {
    topic_arn + ":xmip-subscription"@
}

/// What the element `name` with the text `content` looks like.
pub open spec fn element(name: Seq<char>, content: Seq<char>) -> Seq<char> {
    "<"@ + name + ">"@ + content + "</"@ + name + ">"@
}

/// The element `name` with the text `content`.
fn element_text(name: &str, content: &str) -> (xml: String)
    ensures
        xml@ == element(name@, content@),
{
    let mut xml: String = "<".to_owned();
    xml.append(name);
    xml.append(">");
    xml.append(content);
    xml.append("</");
    xml.append(name);
    xml.append(">");
    xml
}

/// Whether `request` confirms a subscription.
pub open spec fn confirms_one(request: RequestView) -> bool {
    value_named(request.query, "Action"@) == Some("ConfirmSubscription"@)
}

/// How a request that confirms a subscription is answered: with the ARN of
/// the subscription, where it carries the token that was handed out and names
/// a topic.
pub open spec fn confirming(request: RequestView) -> (EventView, ReplyView) {
    match (value_named(request.query, "Token"@), value_named(request.query, "TopicArn"@)) {
        (Some(token), Some(topic_arn)) if token == "xmip"@ && topic_arn.len() > 0 => (
            EventView::Confirmed { topic_arn, subscription_arn: subscription_to(topic_arn) },
            answer_of(
                element(
                    "ConfirmSubscriptionResponse"@,
                    element(
                        "ConfirmSubscriptionResult"@,
                        element(SUBSCRIPTION_ARN@, subscription_to(topic_arn)),
                    ),
                ),
            ),
        ),
        _ => refusing(400, "InvalidParameter"@, "a token this session did not hand out"@),
    }
}

/// How a request to publish is answered: with the id of the message, which is
/// then held, where it names a topic and has a message that SNS carries.
pub open spec fn publishing(state: SessionView, parameters: Pairs) -> (
    SessionView,
    EventView,
    ReplyView,
) {
    match (value_named(parameters, "TopicArn"@), value_named(parameters, "Message"@)) {
        (None, _) => state.refusing(400, "MissingParameter"@, "a request naming no TopicArn"@),
        (_, None) => state.refusing(400, "MissingParameter"@, "a request with no Message"@),
        (Some(topic_arn), Some(body)) => if is_message(encode_utf8(body)) {
            let id = message_id(state.published.len() + 1);
            (
                state.holding(topic_arn, body),
                EventView::Published(
                    ArrivedView { origin_uri: origin_of(topic_arn, id), bytes: encode_utf8(body) },
                ),
                answer_of(
                    element(
                        "PublishResponse"@,
                        element("PublishResult"@, element(MESSAGE_ID@, id)),
                    ),
                ),
            )
        } else {
            state.refusing(400, "InvalidParameter"@, reason(encode_utf8(body)))
        },
    }
}

impl SessionView {
    /// This session with one more message.
    pub open spec fn holding(self, topic_arn: Seq<char>, body: Seq<char>) -> SessionView {
        SessionView { published: self.published.push(MessageView { topic_arn, body }), ..self }
    }

    /// This session, which refuses a client and stays as it is.
    pub open spec fn refusing(self, status: u16, code: Seq<char>, message: Seq<char>) -> (
        SessionView,
        EventView,
        ReplyView,
    ) {
        let (event, reply) = refusing(status, code, message);
        (self, event, reply)
    }

    /// What becomes of this session when it is asked `request`, which has
    /// this standing against the session's credential and carries these
    /// parameters; what the client did; and how it is answered.
    pub open spec fn asked(
        self,
        request: RequestView,
        verified: Result<(), Failure>,
        parameters: Pairs,
    ) -> (SessionView, EventView, ReplyView) {
        if confirms_one(request) {
            let (event, reply) = confirming(request);
            (self, event, reply)
        } else if verified is Err {
            self.refusing(403, "SignatureDoesNotMatch"@, verified->Err_0.message)
        } else if value_named(parameters, "Version"@) != Some(VERSION@) {
            self.refusing(
                400,
                "InvalidParameterValue"@,
                "a version this session does not speak"@,
            )
        } else if value_named(parameters, "Action"@) == Some("Publish"@) {
            publishing(self, parameters)
        } else {
            self.refusing(400, "InvalidAction"@, "not a call this session answers"@)
        }
    }

    /// Whether there is a number left for one more message.
    pub open spec fn has_room(self) -> bool {
        self.published.len() + 1 < usize::MAX
    }
}

/// Whether `found` is the text `expected`.
fn is_text(found: Option<&str>, expected: &str) -> (yes: bool)
    ensures
        yes == (text_view(found) == Some(expected@)),
{
    match found {
        Some(text) => same_text(text, expected),
        None => false,
    }
}

impl Session {
    /// Answer requests signed in `region` as `access_key` with `secret_key`.
    #[must_use]
    pub fn new(region: &str, access_key: &str, secret_key: &str) -> (session: Session)
        ensures
            session@ == (SessionView {
                signer: SignerView::sns(region@, access_key@, secret_key@),
                published: Seq::empty(),
                timeout: None,
            }),
    {
        let session = Session {
            signer: Signer::sns(region, access_key, secret_key),
            published: Vec::new(),
            timeout: None,
        };
        proof {
            assert(session@.published =~= Seq::empty());
        }
        session
    }

    /// Give up on a client that stops mid-request after `timeout`.
    #[must_use]
    pub fn timing_out_after(self, timeout: Duration) -> (session: Session)
        ensures
            session@ == (SessionView { timeout: Some(timeout), ..self@ }),
    {
        let mut session: Session = self;
        session.timeout = Some(timeout);
        session
    }

    /// The credential this session wants requests signed with.
    #[must_use]
    pub fn signer(&self) -> (signer: &Signer)
        ensures
            signer@ == self@.signer,
    {
        &self.signer
    }

    /// How long this session waits for a client.
    #[must_use]
    pub fn timeout(&self) -> (timeout: Option<Duration>)
        ensures
            timeout == self@.timeout,
    {
        self.timeout
    }

    /// Whether there is a number left for one more message.
    #[must_use]
    pub fn has_room(&self) -> (room: bool)
        ensures
            room == self@.has_room(),
    {
        self.published.len() < usize::MAX - 1
    }

    /// The `SubscribeURL` this session hands an endpoint for the topic whose
    /// percent-encoded ARN is `topic`, at a session listening at `endpoint`,
    /// `http://host:port`.
    #[must_use]
    pub fn subscribe_url(endpoint: &str, topic: &str) -> (url: String)
        ensures
            url@ == endpoint@ + "/?Action=ConfirmSubscription&TopicArn="@ + topic@
                + "&Token=xmip"@,
    {
        let mut url: String = endpoint.to_owned();
        url.append("/?Action=ConfirmSubscription&TopicArn=");
        url.append(topic);
        url.append("&Token=xmip");
        url
    }

    /// Every message published so far, keyed `topic_arn#id`, in the order of
    /// the keys.
    #[must_use]
    pub fn messages(&self) -> (messages: Vec<(String, String)>)
        ensures
            lists(pairs(messages@), messages_of(self@.published)),
            messages@.len() == self@.published.len(),
    {
        let mut messages: Vec<(String, String)> = Vec::new();
        let mut i: usize = 0;
        proof {
            assert(self@.published.take(0).len() == 0);
        }
        while i < self.published.len()
            invariant
                i <= self.published@.len(),
                self@.published.len() == self.published@.len(),
                lists(pairs(messages@), messages_of(self@.published.take(i as int))),
                messages@.len() == i,
            decreases self.published@.len() - i,
        {
            let id: String = id_text(i + 1);
            let key: String = origin(self.published[i].topic_arn.as_str(), id.as_str());
            proof {
                let before = self@.published.take(i as int);
                let after = self@.published.take(i + 1);
                assert(after.drop_last() =~= before);
                assert(after.last() == self.published@[i as int]@);
                law_origins_are_distinct(before, self.published@[i as int]@.topic_arn);
            }
            enter(
                &mut messages,
                Ghost(messages_of(self@.published.take(i as int))),
                key,
                self.published[i].body.clone(),
            );
            i += 1;
        }
        proof {
            assert(self@.published.take(i as int) =~= self@.published);
        }
        messages
    }

    /// Deliver `delivery` to the endpoint whose URL is `target`, as SNS pushes
    /// to a subscription: the call to make. What comes back is judged by
    /// [`crate::subscription::pushed`].
    ///
    /// # Errors
    /// As [`push`].
    pub fn deliver(
        &self,
        target: Result<HttpTarget, TransportError>,
        delivery: &Delivery,
    ) -> (result: Result<Call, TransportError>)
        ensures
            match target {
                Ok(url) => call_outcome(result) == Ok::<CallView, Failure>(
                    pushing(url@, delivery@, self@.timeout),
                ),
                Err(failure) => call_outcome(result) == Err::<CallView, Failure>(failure@),
            },
            result matches Ok(call) ==> json_document(call@.request.body) == Ok::<
                Members,
                Seq<char>,
            >(members_of(delivery@)),
            result matches Ok(call) ==> opens_with_brace(call@.request.body),
            result matches Ok(call) ==> (named_apart(delivery@) ==> reading(call@.request) == Ok::<
                DeliveryView,
                Failure,
            >(delivery@)),
    {
        push(target, delivery, self.timeout)
    }

    /// Whether `request` confirms a subscription. Such a request arrives
    /// unsigned, so neither its standing against the credential nor its
    /// parameters matter to the answer.
    #[must_use]
    pub fn confirms(request: &Request) -> (yes: bool)
        ensures
            yes == confirms_one(request@),
    {
        is_text(request.query_value("Action"), "ConfirmSubscription")
    }

    /// Whether `request` is one that this session takes as a publish, and so
    /// needs a number for.
    #[must_use]
    pub fn publishes(
        &self,
        request: &Request,
        verified: &Result<(), TransportError>,
        parameters: &[(String, String)],
    ) -> (yes: bool)
        ensures
            yes == (self@.asked(request@, outcome(*verified), pairs(parameters@)).1 is Published),
    {
        if Session::confirms(request) || verified.is_err()
            || !is_text(parameter(parameters, "Version"), VERSION) || !is_text(
            parameter(parameters, "Action"),
            "Publish",
        ) || parameter(parameters, "TopicArn").is_none() {
            return false;
        }
        match parameter(parameters, "Message") {
            Some(body) => refusal(body.as_bytes()).is_none(),
            None => false,
        }
    }

    /// Answers `request`, and says what it was. `verified` is how the
    /// request stands against this session's credential, and `parameters`
    /// are what it carries to the Query API.
    pub fn answer(
        &mut self,
        request: &Request,
        verified: Result<(), TransportError>,
        parameters: &[(String, String)],
    ) -> (told: (Event, Reply))
        requires
            old(self)@.asked(request@, outcome(verified), pairs(parameters@)).1 is Published
                ==> old(self)@.has_room(),
        ensures
            (final(self)@, told.0@, told.1@) == old(self)@.asked(
                request@,
                outcome(verified),
                pairs(parameters@),
            ),
    {
        if Session::confirms(request) {
            return Session::confirm(request);
        }
        if let Err(failure) = verified {
            return refused(403, "SignatureDoesNotMatch", failure.message.as_str());
        }
        if !is_text(parameter(parameters, "Version"), VERSION) {
            return refused(
                400,
                "InvalidParameterValue",
                "a version this session does not speak",
            );
        }
        if is_text(parameter(parameters, "Action"), "Publish") {
            self.publish(parameters)
        } else {
            refused(400, "InvalidAction", "not a call this session answers")
        }
    }

    /// Answers `request` as [`Session::answer`] does, where there is a number
    /// for what it publishes. Where there is none, nothing is answered and the
    /// session stays as it is.
    pub fn answer_if_room(
        &mut self,
        request: &Request,
        verified: Result<(), TransportError>,
        parameters: &[(String, String)],
    ) -> (told: Option<(Event, Reply)>)
        ensures
            ({
                let asked = old(self)@.asked(request@, outcome(verified), pairs(parameters@));
                match told {
                    Some((event, reply)) => {
                        &&& asked.1 is Published ==> old(self)@.has_room()
                        &&& (final(self)@, event@, reply@) == asked
                    },
                    None => {
                        &&& asked.1 is Published
                        &&& !old(self)@.has_room()
                        &&& final(self)@ == old(self)@
                    },
                }
            }),
    {
        if !self.has_room() && self.publishes(request, &verified, parameters) {
            return None;
        }
        Some(self.answer(request, verified, parameters))
    }

    /// Answers a request that confirms a subscription.
    fn confirm(request: &Request) -> (told: (Event, Reply))
        ensures
            (told.0@, told.1@) == confirming(request@),
    {
        let topic_arn: &str = match request.query_value("TopicArn") {
            Some(topic_arn) => topic_arn,
            None => "",
        };
        if !is_text(request.query_value("Token"), "xmip") || topic_arn.is_empty() {
            proof {
                reveal_strlit("");
            }
            return refused(400, "InvalidParameter", "a token this session did not hand out");
        }
        let subscription_arn: String = topic_arn.to_owned().concat(":xmip-subscription");
        let arn: String = element_text(SUBSCRIPTION_ARN, subscription_arn.as_str());
        let result: String = element_text("ConfirmSubscriptionResult", arn.as_str());
        let xml: String = element_text("ConfirmSubscriptionResponse", result.as_str());
        proof {
            reveal_strlit("");
        }
        (
            Event::Confirmed { topic_arn: topic_arn.to_owned(), subscription_arn },
            answer(xml.as_str()),
        )
    }

    /// Answers a request to publish, and holds what it published.
    fn publish(&mut self, parameters: &[(String, String)]) -> (told: (Event, Reply))
        requires
            publishing(old(self)@, pairs(parameters@)).1 is Published ==> old(self)@.has_room(),
        ensures
            (final(self)@, told.0@, told.1@) == publishing(old(self)@, pairs(parameters@)),
    {
        let topic_arn: &str = match parameter(parameters, "TopicArn") {
            Some(topic_arn) => topic_arn,
            None => {
                return refused(400, "MissingParameter", "a request naming no TopicArn");
            },
        };
        let body: &str = match parameter(parameters, "Message") {
            Some(body) => body,
            None => {
                return refused(400, "MissingParameter", "a request with no Message");
            },
        };
        if let Some(why) = refusal(body.as_bytes()) {
            return refused(400, "InvalidParameter", why.as_str());
        }
        let id: String = id_text(self.published.len() + 1);
        self.published.push(
            Message { topic_arn: topic_arn.to_owned(), body: body.to_owned() },
        );
        proof {
            assert(self@.published =~= old(self)@.published.push(
                MessageView { topic_arn: topic_arn@, body: body@ },
            ));
        }
        let named: String = element_text(MESSAGE_ID, id.as_str());
        let result: String = element_text("PublishResult", named.as_str());
        let xml: String = element_text("PublishResponse", result.as_str());
        (
            Event::Published(
                Arrived::new(origin(topic_arn, id.as_str()), body.as_bytes_vec()),
            ),
            answer(xml.as_str()),
        )
    }
}

/// Enters `value` under `key` into `list`, which is `map` in order.
fn enter(
    list: &mut Vec<(String, String)>,
    Ghost(map): Ghost<Map<Seq<char>, Seq<char>>>,
    key: String,
    value: String,
)
    requires
        lists(pairs(old(list)@), map),
        !map.contains_key(key@),
    ensures
        lists(pairs(final(list)@), map.insert(key@, value@)),
        final(list)@.len() == old(list)@.len() + 1,
{
    let mut at: usize = 0;
    while at < list.len() && comes_before(list[at].0.as_str(), key.as_str())
        invariant
            at <= list@.len(),
            forall|i: int| 0 <= i < at ==> precedes((#[trigger] pairs(list@)[i]).0, key@),
            lists(pairs(list@), map),
        decreases list@.len() - at,
    {
        at += 1;
    }
    let ghost before = pairs(list@);
    let ghost name = key@;
    let ghost held = value@;
    list.insert(at, (key, value));
    proof {
        let after = pairs(list@);
        assert(after =~= before.insert(at as int, (name, held)));
        lemma_entered(before, map, at as int, name, held);
    }
}

/// A new key entered at its place leaves the list in order.
proof fn lemma_entered(
    list: Pairs,
    map: Map<Seq<char>, Seq<char>>,
    at: int,
    key: Seq<char>,
    value: Seq<char>,
)
    requires
        lists(list, map),
        !map.contains_key(key),
        0 <= at <= list.len(),
        forall|i: int| 0 <= i < at ==> precedes((#[trigger] list[i]).0, key),
        at == list.len() || !precedes(list[at].0, key),
    ensures
        lists(list.insert(at, (key, value)), map.insert(key, value)),
{
    let after = list.insert(at, (key, value));
    let grown = map.insert(key, value);
    if at < list.len() {
        assert(map.contains_key(list[at].0));
        lemma_precedes_total(list[at].0, key);
    }
    assert forall|i: int, j: int| 0 <= i < j < after.len() implies precedes(
        (#[trigger] after[i]).0,
        (#[trigger] after[j]).0,
    ) by {
        if i < at && j < at {
            assert(after[i] == list[i] && after[j] == list[j]);
        } else if i < at && j == at {
            assert(after[i] == list[i]);
        } else if i < at {
            assert(after[i] == list[i] && after[j] == list[j - 1]);
        } else if i == at {
            assert(after[j] == list[j - 1]);
            if j - 1 > at {
                lemma_precedes_transitive(key, list[at].0, list[j - 1].0);
            }
        } else {
            assert(after[i] == list[i - 1] && after[j] == list[j - 1]);
        }
    }
    assert forall|i: int| 0 <= i < after.len() implies {
        &&& grown.contains_key((#[trigger] after[i]).0)
        &&& grown[after[i].0] == after[i].1
    } by {
        if i < at {
            assert(after[i] == list[i]);
        } else if i > at {
            assert(after[i] == list[i - 1]);
        }
    }
    assert forall|name: Seq<char>| #[trigger] grown.contains_key(name) implies exists|i: int|
        0 <= i < after.len() && (#[trigger] after[i]).0 == name by {
        if name == key {
            assert(after[at].0 == name);
        } else {
            assert(map.contains_key(name));
            let i = choose|i: int| 0 <= i < list.len() && (#[trigger] list[i]).0 == name;
            if i < at {
                assert(after[i].0 == name);
            } else {
                assert(after[i + 1].0 == name);
            }
        }
    }
}

/// An id holds no `#`.
pub proof fn law_an_id_holds_no_mark(number: nat)
    ensures
        !message_id(number).contains('#'),
{
    reveal_strlit("-xmip");
    lemma_numeral_digits(number, 16, false, 8);
    let digits = numeral(number, 16, false, 8);
    assert forall|i: int| 0 <= i < message_id(number).len() implies message_id(number)[i] != '#' by {
        if i < digits.len() {
            assert(is_digit(digits[i]));
        } else {
            assert(message_id(number)[i] == "-xmip"@[i - digits.len()]);
        }
    }
}

/// No two messages have the same id.
pub proof fn law_ids_are_distinct(a: nat, b: nat)
    requires
        message_id(a) == message_id(b),
    ensures
        a == b,
{
    let left = numeral(a, 16, false, 8);
    let right = numeral(b, 16, false, 8);
    assert(message_id(a).len() == left.len() + "-xmip"@.len());
    assert(message_id(b).len() == right.len() + "-xmip"@.len());
    assert forall|i: int| 0 <= i < left.len() implies left[i] == right[i] by {
        assert(message_id(a)[i] == left[i]);
        assert(message_id(b)[i] == right[i]);
    }
    assert(left =~= right);
    lemma_numeral_injective(a, b, 16, false, 8);
}

/// An origin tells the topic and the id apart, whatever the topic: the id
/// holds no `#`.
pub proof fn law_an_origin_names_one_message(
    topic: Seq<char>,
    id: Seq<char>,
    other_topic: Seq<char>,
    other_id: Seq<char>,
)
    requires
        !id.contains('#'),
        !other_id.contains('#'),
        origin_of(topic, id) == origin_of(other_topic, other_id),
    ensures
        topic == other_topic,
        id == other_id,
{
    reveal_strlit("#");
    let whole = origin_of(topic, id);
    assert(whole.len() == topic.len() + 1 + id.len());
    assert(origin_of(other_topic, other_id).len() == other_topic.len() + 1 + other_id.len());
    assert(whole[topic.len() as int] == '#');
    assert(whole[other_topic.len() as int] == '#');
    if topic.len() < other_topic.len() {
        assert(whole[other_topic.len() as int] == id[other_topic.len() - topic.len() - 1]);
    } else if other_topic.len() < topic.len() {
        assert(whole[topic.len() as int] == other_id[topic.len() - other_topic.len() - 1]);
    }
    assert forall|i: int| 0 <= i < topic.len() implies topic[i] == other_topic[i] by {
        assert(whole[i] == topic[i]);
    }
    assert forall|i: int| 0 <= i < id.len() implies id[i] == other_id[i] by {
        assert(whole[i + topic.len() + 1] == id[i]);
    }
    assert(topic =~= other_topic);
    assert(id =~= other_id);
}

/// The next message's origin is not that of any message published before it,
/// whatever the topics.
pub proof fn law_origins_are_distinct(published: Seq<MessageView>, topic_arn: Seq<char>)
    ensures
        !messages_of(published).contains_key(
            origin_of(topic_arn, message_id(published.len() + 1)),
        ),
{
    lemma_later_origin(published, topic_arn, published.len() + 1);
}

/// The origin of a message with a later number is none of those before it.
proof fn lemma_later_origin(published: Seq<MessageView>, topic_arn: Seq<char>, number: nat)
    requires
        number > published.len(),
    ensures
        !messages_of(published).contains_key(origin_of(topic_arn, message_id(number))),
    decreases published.len(),
{
    if published.len() > 0 {
        lemma_later_origin(published.drop_last(), topic_arn, number);
        let last = published.last().topic_arn;
        if origin_of(last, message_id(published.len())) == origin_of(
            topic_arn,
            message_id(number),
        ) {
            law_an_id_holds_no_mark(number);
            law_an_id_holds_no_mark(published.len());
            law_an_origin_names_one_message(
                last,
                message_id(published.len()),
                topic_arn,
                message_id(number),
            );
            law_ids_are_distinct(number, published.len());
        }
    }
}

/// A request that is refused is answered with an error of the same code, and
/// leaves the session as it was. One that is not refused is answered 200.
pub proof fn law_a_refusal_changes_nothing(
    session: SessionView,
    request: RequestView,
    verified: Result<(), Failure>,
    parameters: Pairs,
)
    ensures
        ({
            let (after, event, reply) = session.asked(request, verified, parameters);
            match event {
                EventView::Refused(refused) => {
                    &&& after == session
                    &&& reply matches ReplyView::Error { status, code, .. }
                    &&& code == refused
                    &&& status == 400 || status == 403
                },
                _ => reply is Answer && reply.status() == 200,
            }
        }),
{
}

/// Nothing is published but by a request that stands against the session's
/// credential. One that does not, and confirms nothing, is refused as that.
pub proof fn law_only_a_signed_request_publishes(
    session: SessionView,
    request: RequestView,
    verified: Result<(), Failure>,
    parameters: Pairs,
)
    ensures
        session.asked(request, verified, parameters).1 is Published ==> verified is Ok,
        verified is Err && !confirms_one(request) ==> session.asked(request, verified, parameters) == session.refusing(
            403,
            "SignatureDoesNotMatch"@,
            verified->Err_0.message,
        ),
{
}

/// What is published is held from then on under the origin it was given,
/// which was no message's before, as the text that its bytes are.
pub proof fn law_what_is_published_is_held(
    session: SessionView,
    request: RequestView,
    verified: Result<(), Failure>,
    parameters: Pairs,
)
    ensures
        ({
            let (after, event, _) = session.asked(request, verified, parameters);
            event matches EventView::Published(arrived) ==> {
                &&& is_message(arrived.bytes)
                &&& !messages_of(session.published).contains_key(arrived.origin_uri)
                &&& messages_of(after.published) == messages_of(session.published).insert(
                    arrived.origin_uri,
                    decode_utf8(arrived.bytes),
                )
            }
        }),
{
    if let EventView::Published(arrived) = session.asked(request, verified, parameters).1 {
        let topic_arn = value_named(parameters, "TopicArn"@)->Some_0;
        let body = value_named(parameters, "Message"@)->Some_0;
        law_origins_are_distinct(session.published, topic_arn);
        encode_utf8_decode_utf8(body);
        assert(session.holding(topic_arn, body).published.drop_last() =~= session.published);
    }
}

/// Whatever a session is asked, no message it holds is lost or changed.
pub proof fn law_what_is_held_is_kept(
    session: SessionView,
    request: RequestView,
    verified: Result<(), Failure>,
    parameters: Pairs,
    key: Seq<char>,
)
    requires
        messages_of(session.published).contains_key(key),
    ensures
        ({
            let after = session.asked(request, verified, parameters).0;
            &&& messages_of(after.published).contains_key(key)
            &&& messages_of(after.published)[key] == messages_of(session.published)[key]
        }),
{
    law_what_is_published_is_held(session, request, verified, parameters);
    law_a_refusal_changes_nothing(session, request, verified, parameters);
}

/// A request with the token that was handed out, for a topic that has a name,
/// confirms the subscription whether it is signed or not, and nothing is held
/// for it. With another token, or none, it is refused.
pub proof fn law_the_token_confirms(
    session: SessionView,
    request: RequestView,
    verified: Result<(), Failure>,
    parameters: Pairs,
)
    requires
        confirms_one(request),
    ensures
        ({
            let (after, event, reply) = session.asked(request, verified, parameters);
            &&& after == session
            &&& match value_named(request.query, "TopicArn"@) {
                Some(topic_arn) if topic_arn.len() > 0 && value_named(request.query, "Token"@)
                    == Some("xmip"@) => event == (EventView::Confirmed {
                    topic_arn,
                    subscription_arn: subscription_to(topic_arn),
                }),
                _ => event == EventView::Refused("InvalidParameter"@) && reply.status() == 400,
            }
        }),
{
}

/// A confirmation is the one request whose signature nobody looks at: it is
/// answered alike however it stands against the credential, and whatever
/// parameters it carries.
pub proof fn law_a_confirmation_is_not_verified(
    session: SessionView,
    request: RequestView,
    verified: Result<(), Failure>,
    parameters: Pairs,
    other_verified: Result<(), Failure>,
    other_parameters: Pairs,
)
    requires
        confirms_one(request),
    ensures
        session.asked(request, verified, parameters) == session.asked(
            request,
            other_verified,
            other_parameters,
        ),
{
}

/// A signed publish that names a topic and holds a message is taken: the
/// message is held behind those before it, the client published its very text
/// under its topic and the next id, and is answered with that id. Nothing
/// else of the session changes.
pub proof fn law_a_signed_publish_is_taken(
    session: SessionView,
    request: RequestView,
    parameters: Pairs,
    topic_arn: Seq<char>,
    message: Seq<char>,
)
    requires
        value_named(request.query, "Action"@) != Some("ConfirmSubscription"@),
        value_named(parameters, "Version"@) == Some("2010-03-31"@),
        value_named(parameters, "Action"@) == Some("Publish"@),
        value_named(parameters, "TopicArn"@) == Some(topic_arn),
        value_named(parameters, "Message"@) == Some(message),
        is_message(encode_utf8(message)),
    ensures
        ({
            let (after, event, reply) = session.asked(request, Ok(()), parameters);
            let id = message_id(session.published.len() + 1);
            &&& after == (SessionView {
                signer: session.signer,
                published: session.published + seq![MessageView { topic_arn, body: message }],
                timeout: session.timeout,
            })
            &&& event == EventView::Published(
                ArrivedView { origin_uri: topic_arn + "#"@ + id, bytes: encode_utf8(message) },
            )
            &&& reply == ReplyView::Answer(
                ResponseView {
                    status: 200,
                    headers: seq![("Content-Type"@, "text/xml"@)],
                    body: encode_utf8(
                        "<?xml version=\"1.0\"?><PublishResponse><PublishResult><MessageId>"@ + id
                            + "</MessageId></PublishResult></PublishResponse>"@,
                    ),
                },
            )
        }),
{
    let id = message_id(session.published.len() + 1);
    lemma_publish_answer(id);
    assert(session.asked(request, Ok(()), parameters).0.published =~= session.published + seq![
        MessageView { topic_arn, body: message },
    ]);
}

/// The words of the answer to a publish.
proof fn lemma_publish_answer(id: Seq<char>)
    ensures
        "<?xml version=\"1.0\"?>"@ + element(
            "PublishResponse"@,
            element("PublishResult"@, element(MESSAGE_ID@, id)),
        ) == "<?xml version=\"1.0\"?><PublishResponse><PublishResult><MessageId>"@ + id
            + "</MessageId></PublishResult></PublishResponse>"@,
{
    reveal_strlit("<");
    reveal_strlit(">");
    reveal_strlit("</");
    reveal_strlit("<?xml version=\"1.0\"?>");
    reveal_strlit("PublishResponse");
    reveal_strlit("PublishResult");
    reveal_strlit("MessageId");
    reveal_strlit("<?xml version=\"1.0\"?><PublishResponse><PublishResult><MessageId>");
    reveal_strlit("</MessageId></PublishResult></PublishResponse>");
    let head = "<?xml version=\"1.0\"?>"@ + "<"@ + "PublishResponse"@ + ">"@ + "<"@
        + "PublishResult"@ + ">"@ + "<"@ + "MessageId"@ + ">"@;
    let tail = "</"@ + "MessageId"@ + ">"@ + "</"@ + "PublishResult"@ + ">"@ + "</"@
        + "PublishResponse"@ + ">"@;
    assert(head =~= "<?xml version=\"1.0\"?><PublishResponse><PublishResult><MessageId>"@);
    assert(tail =~= "</MessageId></PublishResult></PublishResponse>"@);
    assert("<?xml version=\"1.0\"?>"@ + element(
        "PublishResponse"@,
        element("PublishResult"@, element(MESSAGE_ID@, id)),
    ) =~= head + id + tail);
}

/// The id that a publisher is answered with is the id that the message is
/// held under, however many messages were held before: whenever something is
/// published, what stands behind the topic and the `#` in its origin is the
/// one text in the answer, and under that origin the session holds it.
pub proof fn law_the_id_answered_is_the_id_held(
    session: SessionView,
    request: RequestView,
    verified: Result<(), Failure>,
    parameters: Pairs,
)
    ensures
        ({
            let (after, event, reply) = session.asked(request, verified, parameters);
            event matches EventView::Published(arrived) ==> {
                &&& value_named(parameters, "TopicArn"@) matches Some(topic_arn)
                &&& value_named(parameters, "Message"@) matches Some(message)
                &&& arrived.bytes == encode_utf8(message)
                &&& messages_of(after.published).contains_pair(arrived.origin_uri, message)
                &&& exists|id: Seq<char>|
                    {
                        &&& arrived.origin_uri == #[trigger] (topic_arn + "#"@ + id)
                        &&& reply == ReplyView::Answer(
                            ResponseView {
                                status: 200,
                                headers: seq![("Content-Type"@, "text/xml"@)],
                                body: encode_utf8(
                                    "<?xml version=\"1.0\"?><PublishResponse><PublishResult><MessageId>"@
                                        + id + "</MessageId></PublishResult></PublishResponse>"@,
                                ),
                            },
                        )
                    }
            }
        }),
{
    let (after, event, reply) = session.asked(request, verified, parameters);
    if let EventView::Published(arrived) = event {
        let topic_arn = value_named(parameters, "TopicArn"@)->Some_0;
        let message = value_named(parameters, "Message"@)->Some_0;
        let id = message_id(session.published.len() + 1);
        law_a_signed_publish_is_taken(session, request, parameters, topic_arn, message);
        law_what_is_published_is_held(session, request, verified, parameters);
        encode_utf8_decode_utf8(message);
        assert(arrived.origin_uri == topic_arn + "#"@ + id);
    }
}

/// Two publishes in a row are answered with ids of their own, and both
/// messages are held, each under its own.
pub proof fn law_two_publishes_get_two_ids(
    session: SessionView,
    request: RequestView,
    parameters: Pairs,
    second_request: RequestView,
    second_parameters: Pairs,
)
    ensures
        ({
            let (between, event, reply) = session.asked(request, Ok(()), parameters);
            let (after, second_event, second_reply) = between.asked(
                second_request,
                Ok(()),
                second_parameters,
            );
            event is Published && second_event is Published ==> {
                let first = event->Published_0;
                let second = second_event->Published_0;
                &&& reply != second_reply
                &&& first.origin_uri != second.origin_uri
                &&& messages_of(after.published).contains_pair(
                    first.origin_uri,
                    decode_utf8(first.bytes),
                )
                &&& messages_of(after.published).contains_pair(
                    second.origin_uri,
                    decode_utf8(second.bytes),
                )
            }
        }),
{
    let (between, event, reply) = session.asked(request, Ok(()), parameters);
    let (after, second_event, second_reply) = between.asked(
        second_request,
        Ok(()),
        second_parameters,
    );
    if event is Published && second_event is Published {
        law_what_is_published_is_held(session, request, Ok(()), parameters);
        law_what_is_published_is_held(between, second_request, Ok(()), second_parameters);
        let id = message_id(session.published.len() + 1);
        let second_id = message_id(session.published.len() + 2);
        assert(between.published.len() == session.published.len() + 1);
        if reply == second_reply {
            lemma_publish_answer(id);
            lemma_publish_answer(second_id);
            let head = "<?xml version=\"1.0\"?><PublishResponse><PublishResult><MessageId>"@;
            let tail = "</MessageId></PublishResult></PublishResponse>"@;
            encode_utf8_decode_utf8(head + id + tail);
            encode_utf8_decode_utf8(head + second_id + tail);
            assert(head + id + tail == head + second_id + tail);
            assert((head + id + tail).len() == head.len() + id.len() + tail.len());
            assert((head + second_id + tail).len() == head.len() + second_id.len() + tail.len());
            assert((head + id + tail).subrange(head.len() as int, (head.len() + id.len()) as int)
                =~= id);
            assert((head + second_id + tail).subrange(
                head.len() as int,
                (head.len() + second_id.len()) as int,
            ) =~= second_id);
            law_ids_are_distinct(session.published.len() + 1, session.published.len() + 2);
        }
    }
}

/// The id of a message is its number in lower-case hexadecimal digits, eight
/// of them or as many as it takes, before `-xmip`.
pub proof fn law_an_id_is_its_number(number: nat)
    ensures
        message_id(number).len() >= 13,
        message_id(number) == numeral(number, 16, false, 8) + "-xmip"@,
        forall|i: int|
            0 <= i < message_id(number).len() - 5 ==> {
                let c = #[trigger] message_id(number)[i];
                '0' <= c <= '9' || 'a' <= c <= 'f'
            },
{
    reveal_strlit("-xmip");
    lemma_hexadecimal(number, 8);
    let digits = numeral(number, 16, false, 8);
    assert forall|i: int| 0 <= i < message_id(number).len() - 5 implies {
        let c = #[trigger] message_id(number)[i];
        '0' <= c <= '9' || 'a' <= c <= 'f'
    } by {
        assert(message_id(number)[i] == digits[i]);
    }
}

/// A number in hexadecimal is at least as wide as it is padded to, and its
/// letters are lower-case.
proof fn lemma_hexadecimal(number: nat, width: nat)
    ensures
        numeral(number, 16, false, width).len() >= width,
        forall|i: int|
            0 <= i < numeral(number, 16, false, width).len() ==> {
                let c = #[trigger] numeral(number, 16, false, width)[i];
                '0' <= c <= '9' || 'a' <= c <= 'f'
            },
    decreases number, width,
{
    if number < 16 && width <= 1 {
    } else {
        let narrower: nat = if width == 0 {
            0
        } else {
            (width - 1) as nat
        };
        lemma_hexadecimal(number / 16, narrower);
        let rest = numeral(number / 16, 16, false, narrower);
        let whole = numeral(number, 16, false, width);
        assert(whole.len() == rest.len() + 1);
        assert forall|i: int| 0 <= i < whole.len() implies {
            let c = #[trigger] whole[i];
            '0' <= c <= '9' || 'a' <= c <= 'f'
        } by {
            if i < rest.len() {
                assert(whole[i] == rest[i]);
            }
        }
    }
}

/// A request that confirms nothing is refused for the first of these that
/// holds: it is not signed as the session wants it, and the words are why; it
/// speaks another version; it asks for something other than a publish; it
/// names no topic; it has no message; what it has is no message body, and the
/// words are the reason. Each is answered with its own status and code, and
/// leaves the session as it was.
pub proof fn law_a_refusal_says_what_is_wrong(
    session: SessionView,
    request: RequestView,
    failure: Failure,
    parameters: Pairs,
    message: Seq<char>,
)
    requires
        value_named(request.query, "Action"@) != Some("ConfirmSubscription"@),
    ensures
        session.asked(request, Err(failure), parameters) == (
            session,
            EventView::Refused("SignatureDoesNotMatch"@),
            ReplyView::Error {
                status: 403,
                code: "SignatureDoesNotMatch"@,
                message: failure.message,
            },
        ),
        value_named(parameters, "Version"@) != Some("2010-03-31"@) ==> session.asked(
            request,
            Ok(()),
            parameters,
        ) == (
            session,
            EventView::Refused("InvalidParameterValue"@),
            ReplyView::Error {
                status: 400,
                code: "InvalidParameterValue"@,
                message: "a version this session does not speak"@,
            },
        ),
        value_named(parameters, "Version"@) == Some("2010-03-31"@) ==> {
            let told = session.asked(request, Ok(()), parameters);
            let action = value_named(parameters, "Action"@);
            let topic_arn = value_named(parameters, "TopicArn"@);
            let body = value_named(parameters, "Message"@);
            &&& action != Some("Publish"@) ==> told == (
                session,
                EventView::Refused("InvalidAction"@),
                ReplyView::Error {
                    status: 400,
                    code: "InvalidAction"@,
                    message: "not a call this session answers"@,
                },
            )
            &&& action == Some("Publish"@) && topic_arn is None ==> told == (
                session,
                EventView::Refused("MissingParameter"@),
                ReplyView::Error {
                    status: 400,
                    code: "MissingParameter"@,
                    message: "a request naming no TopicArn"@,
                },
            )
            &&& action == Some("Publish"@) && topic_arn is Some && body is None ==> told == (
                session,
                EventView::Refused("MissingParameter"@),
                ReplyView::Error {
                    status: 400,
                    code: "MissingParameter"@,
                    message: "a request with no Message"@,
                },
            )
            &&& action == Some("Publish"@) && topic_arn is Some && body == Some(message)
                && !is_message(encode_utf8(message)) ==> told == (
                session,
                EventView::Refused("InvalidParameter"@),
                ReplyView::Error {
                    status: 400,
                    code: "InvalidParameter"@,
                    message: reason(encode_utf8(message)),
                },
            )
        },
{
}

/// A confirmation with the token that was handed out, for a topic that has a
/// name, is answered with the ARN of the subscription to that very topic;
/// every other confirmation is refused. Either way, signed or not, the session
/// stays as it was.
pub proof fn law_a_confirmation_is_answered_with_its_subscription(
    session: SessionView,
    request: RequestView,
    verified: Result<(), Failure>,
    parameters: Pairs,
    topic_arn: Seq<char>,
)
    requires
        value_named(request.query, "Action"@) == Some("ConfirmSubscription"@),
    ensures
        value_named(request.query, "Token"@) == Some("xmip"@) && value_named(
            request.query,
            "TopicArn"@,
        ) == Some(topic_arn) && topic_arn.len() > 0 ==> session.asked(
            request,
            verified,
            parameters,
        ) == (
            session,
            EventView::Confirmed { topic_arn, subscription_arn: topic_arn + ":xmip-subscription"@ },
            ReplyView::Answer(
                ResponseView {
                    status: 200,
                    headers: seq![("Content-Type"@, "text/xml"@)],
                    body: encode_utf8(
                        "<?xml version=\"1.0\"?><ConfirmSubscriptionResponse><ConfirmSubscriptionResult><SubscriptionArn>"@
                            + (topic_arn + ":xmip-subscription"@)
                            + "</SubscriptionArn></ConfirmSubscriptionResult></ConfirmSubscriptionResponse>"@,
                    ),
                },
            ),
        ),
        value_named(request.query, "Token"@) != Some("xmip"@) || value_named(
            request.query,
            "TopicArn"@,
        ) is None || value_named(request.query, "TopicArn"@)->Some_0.len() == 0 ==> session.asked(
            request,
            verified,
            parameters,
        ) == (
            session,
            EventView::Refused("InvalidParameter"@),
            ReplyView::Error {
                status: 400,
                code: "InvalidParameter"@,
                message: "a token this session did not hand out"@,
            },
        ),
{
    lemma_confirm_answer(topic_arn + ":xmip-subscription"@);
}

/// The words of the answer to a confirmation.
proof fn lemma_confirm_answer(arn: Seq<char>)
    ensures
        "<?xml version=\"1.0\"?>"@ + element(
            "ConfirmSubscriptionResponse"@,
            element("ConfirmSubscriptionResult"@, element(SUBSCRIPTION_ARN@, arn)),
        )
            == "<?xml version=\"1.0\"?><ConfirmSubscriptionResponse><ConfirmSubscriptionResult><SubscriptionArn>"@
            + arn
            + "</SubscriptionArn></ConfirmSubscriptionResult></ConfirmSubscriptionResponse>"@,
{
    reveal_strlit("<");
    reveal_strlit(">");
    reveal_strlit("</");
    reveal_strlit("<?xml version=\"1.0\"?>");
    reveal_strlit("ConfirmSubscriptionResponse");
    reveal_strlit("ConfirmSubscriptionResult");
    reveal_strlit("SubscriptionArn");
    reveal_strlit(
        "<?xml version=\"1.0\"?><ConfirmSubscriptionResponse><ConfirmSubscriptionResult><SubscriptionArn>",
    );
    reveal_strlit("</SubscriptionArn></ConfirmSubscriptionResult></ConfirmSubscriptionResponse>");
    let head = "<?xml version=\"1.0\"?>"@ + "<"@ + "ConfirmSubscriptionResponse"@ + ">"@ + "<"@
        + "ConfirmSubscriptionResult"@ + ">"@ + "<"@ + "SubscriptionArn"@ + ">"@;
    let tail = "</"@ + "SubscriptionArn"@ + ">"@ + "</"@ + "ConfirmSubscriptionResult"@ + ">"@
        + "</"@ + "ConfirmSubscriptionResponse"@ + ">"@;
    assert(head
        =~= "<?xml version=\"1.0\"?><ConfirmSubscriptionResponse><ConfirmSubscriptionResult><SubscriptionArn>"@);
    assert(tail
        =~= "</SubscriptionArn></ConfirmSubscriptionResult></ConfirmSubscriptionResponse>"@);
    assert("<?xml version=\"1.0\"?>"@ + element(
        "ConfirmSubscriptionResponse"@,
        element("ConfirmSubscriptionResult"@, element(SUBSCRIPTION_ARN@, arn)),
    ) =~= head + arn + tail);
}

/// What confirms a subscription is the action in the query, and nothing else.
/// There is room for one more message until no number is left for it.
pub proof fn law_the_action_confirms_and_numbers_give_room(
    session: SessionView,
    request: RequestView,
)
    ensures
        confirms_one(request) <==> value_named(request.query, "Action"@) == Some(
            "ConfirmSubscription"@,
        ),
        session.has_room() <==> session.published.len() <= usize::MAX - 2,
{
}

/// Every message that was published is held under its topic and the id of its
/// number, as the text it was, and nothing else is held.
pub proof fn law_each_message_is_held_under_its_origin(
    published: Seq<MessageView>,
    key: Seq<char>,
    body: Seq<char>,
)
    ensures
        messages_of(published).contains_pair(key, body) <==> exists|i: int|
            0 <= i < published.len() && key == (#[trigger] published[i]).topic_arn + "#"@
                + message_id((i + 1) as nat) && body == published[i].body,
    decreases published.len(),
{
    if published.len() > 0 {
        let rest = published.drop_last();
        let last = published.last();
        let end = published.len() - 1;
        law_each_message_is_held_under_its_origin(rest, key, body);
        law_origins_are_distinct(rest, last.topic_arn);
        assert(published[end] == last);
        if messages_of(rest).contains_pair(key, body) {
            let i = choose|i: int|
                0 <= i < rest.len() && key == (#[trigger] rest[i]).topic_arn + "#"@ + message_id(
                    (i + 1) as nat,
                ) && body == rest[i].body;
            assert(published[i] == rest[i]);
        }
        if exists|i: int|
            0 <= i < published.len() && key == (#[trigger] published[i]).topic_arn + "#"@
                + message_id((i + 1) as nat) && body == published[i].body {
            let i = choose|i: int|
                0 <= i < published.len() && key == (#[trigger] published[i]).topic_arn + "#"@
                    + message_id((i + 1) as nat) && body == published[i].body;
            if i < end {
                assert(rest[i] == published[i]);
            }
        }
    }
}

/// The messages of a session are listed with none left out and none made up,
/// each with the text it was published as, in the order of their origins.
pub proof fn law_a_list_of_messages_is_whole_and_in_order(
    list: Pairs,
    published: Seq<MessageView>,
    key: Seq<char>,
    body: Seq<char>,
)
    requires
        lists(list, messages_of(published)),
    ensures
        list.contains((key, body)) <==> exists|i: int|
            0 <= i < published.len() && key == (#[trigger] published[i]).topic_arn + "#"@
                + message_id((i + 1) as nat) && body == published[i].body,
        forall|i: int, j: int|
            0 <= i < j < list.len() ==> precedes((#[trigger] list[i]).0, (#[trigger] list[j]).0),
{
    let map = messages_of(published);
    law_each_message_is_held_under_its_origin(published, key, body);
    if list.contains((key, body)) {
        let at = choose|at: int| 0 <= at < list.len() && list[at] == (key, body);
        assert(map.contains_key(list[at].0));
    }
    if map.contains_pair(key, body) {
        assert(map.contains_key(key));
        let at = choose|at: int| 0 <= at < list.len() && (#[trigger] list[at]).0 == key;
        assert(list[at] == (key, body));
    }
}

/// An event says each of its parts as it is.
pub proof fn law_an_event_says_its_parts(
    arrived: Arrived,
    topic_arn: String,
    subscription_arn: String,
    code: String,
)
    ensures
        Event::Published(arrived)@ == EventView::Published(arrived@),
        (Event::Confirmed { topic_arn, subscription_arn })@ == (EventView::Confirmed {
            topic_arn: topic_arn@,
            subscription_arn: subscription_arn@,
        }),
        Event::Refused(code)@ == EventView::Refused(code@),
{
}

} // verus!
