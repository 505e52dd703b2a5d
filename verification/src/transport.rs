//! The transport: one topic, the credential it is spoken to with, and where
//! its subscription listens.

use std::time::Duration;

use vstd::prelude::*;
use vstd::utf8::*;

use crate::client::{
    client_outcome, lemma_publish_parameters, query_outcome, Client, ClientView, QueryCall,
    QueryCallView,
};
use crate::error::{text_outcome, Cause, Failure, TransportError};
use crate::exchange::{value_named, Arrived, ArrivedView, SignerView};
use crate::message::{ceiling, is_message, law_a_message_is_its_bytes, reason, refusal};
use crate::session::{origin, origin_of, Session, SessionView};
use crate::subscription::{delivery_outcome, Delivery, DeliveryView};
use crate::text::{decimal, law_decimal_is_written_digit_by_digit, numeral_text};

verus! {

/// Which ways Streams travel.
#[derive(Clone, Copy, Debug, PartialEq, Eq, Structural)]
pub struct Directions {
    pub receives: bool,
    pub sends: bool,
}

/// Streams that travel as SNS messages.
#[derive(Clone)]
pub struct SnsTransport {
    endpoint: String,
    region: String,
    topic_arn: String,
    access_key: String,
    secret_key: String,
    bind: String,
    timeout: Option<Duration>,
}

/// What an [`SnsTransport`] says.
pub struct TransportView {
    pub endpoint: Seq<char>,
    pub region: Seq<char>,
    pub topic_arn: Seq<char>,
    pub access_key: Seq<char>,
    pub secret_key: Seq<char>,
    pub bind: Seq<char>,
    pub timeout: Option<Duration>,
}

impl View for SnsTransport {
    type V = TransportView;

    closed spec fn view(&self) -> TransportView {
        TransportView {
            endpoint: self.endpoint@,
            region: self.region@,
            topic_arn: self.topic_arn@,
            access_key: self.access_key@,
            secret_key: self.secret_key@,
            bind: self.bind@,
            timeout: self.timeout,
        }
    }
}

/// What is told of a Stream of `len` bytes, which is over the ceiling.
pub open spec fn over_ceiling(len: nat) -> Seq<char> {
    decimal(len) + " bytes is over the "@ + decimal(256 * 1024) + " one SNS message carries"@
}

impl TransportView {
    /// A transport for the topic at `topic_arn`, with no credential yet.
    pub open spec fn bare(
        endpoint: Seq<char>,
        region: Seq<char>,
        topic_arn: Seq<char>,
    ) -> TransportView {
        TransportView {
            endpoint,
            region,
            topic_arn,
            access_key: Seq::empty(),
            secret_key: Seq::empty(),
            bind: "127.0.0.1:0"@,
            timeout: None,
        }
    }

    /// The client this transport speaks through, where its endpoint's
    /// authority is `host`.
    pub open spec fn client(self, host: Seq<char>) -> ClientView {
        ClientView {
            endpoint: self.endpoint,
            host,
            signer: SignerView::sns(self.region, self.access_key, self.secret_key),
            timeout: self.timeout,
        }
    }

    /// A far end that holds this transport's credentials, and nothing yet.
    pub open spec fn session(self) -> SessionView {
        SessionView {
            signer: SignerView::sns(self.region, self.access_key, self.secret_key),
            published: Seq::empty(),
            timeout: self.timeout,
        }
    }

    /// The topic a target names.
    pub open spec fn resolved(self, target: Seq<char>) -> Seq<char> {
        if target.len() == 0 {
            self.topic_arn
        } else {
            target
        }
    }

    /// The call that sends `bytes` to `target`, or why they are not sent.
    pub open spec fn sending(
        self,
        target: Seq<char>,
        bytes: Seq<u8>,
        authority: Result<Seq<char>, Failure>,
    ) -> Result<QueryCallView, Failure> {
        if bytes.len() > 256 * 1024 {
            Err(Failure::permanent(over_ceiling(bytes.len())))
        } else {
            match authority {
                Ok(host) => self.client(host).publishing(self.resolved(target), bytes),
                Err(failure) => Err(failure),
            }
        }
    }

    /// A near end aimed at the session at `address`, with this transport's
    /// credential, topic and patience.
    pub open spec fn aimed_at(self, address: Seq<char>) -> TransportView {
        TransportView {
            endpoint: "http://"@ + address,
            bind: "127.0.0.1:0"@,
            ..self
        }
    }
}

/// What a delivery comes to.
pub enum Taken {
    /// These Streams arrived.
    Streams(Vec<Arrived>),
    /// A subscription is to be confirmed by fetching this URL. Then nothing
    /// has arrived.
    Confirm(String),
}

/// What a [`Taken`] says.
pub enum TakenView {
    Streams(Seq<ArrivedView>),
    Confirm(Seq<char>),
}

/// What a list of Streams says.
pub open spec fn streams(list: Seq<Arrived>) -> Seq<ArrivedView> {
    list.map_values(|arrived: Arrived| arrived@)
}

impl View for Taken {
    type V = TakenView;

    open spec fn view(&self) -> TakenView {
        match self {
            Taken::Streams(list) => TakenView::Streams(streams(list@)),
            Taken::Confirm(url) => TakenView::Confirm(url@),
        }
    }
}

/// What the result of taking a delivery says.
pub open spec fn taken_outcome(result: Result<Taken, TransportError>) -> Result<
    TakenView,
    Failure,
> {
    match result {
        Ok(taken) => Ok(taken@),
        Err(failure) => Err(failure@),
    }
}

/// What the result of receiving says.
pub open spec fn streams_outcome(result: Result<Vec<Arrived>, TransportError>) -> Result<
    Seq<ArrivedView>,
    Failure,
> {
    match result {
        Ok(list) => Ok(streams(list@)),
        Err(failure) => Err(failure@),
    }
}

/// What `delivery` comes to: a notification is the Stream it carries, its
/// origin the topic and the message id; a confirmation is to be confirmed;
/// any other kind is nothing.
pub open spec fn taking(delivery: DeliveryView) -> TakenView {
    match delivery {
        DeliveryView::Notification { topic_arn, message_id, message } => TakenView::Streams(
            seq![
                ArrivedView {
                    origin_uri: origin_of(topic_arn, message_id),
                    bytes: encode_utf8(message),
                },
            ],
        ),
        DeliveryView::Confirmation { subscribe_url, .. } => TakenView::Confirm(subscribe_url),
        DeliveryView::Other(_) => TakenView::Streams(seq![]),
    }
}

impl SnsTransport {
    /// Speak to the SNS endpoint at `endpoint`, `https://sns.<region>.
    /// amazonaws.com` in the cloud, `http://host:port` for a stand-in, in
    /// `region`, about the topic at `topic_arn`.
    #[must_use]
    pub fn new(endpoint: &str, region: &str, topic_arn: &str) -> (transport: SnsTransport)
        ensures
            transport@ == TransportView::bare(endpoint@, region@, topic_arn@),
    {
        SnsTransport {
            endpoint: endpoint.to_owned(),
            region: region.to_owned(),
            topic_arn: topic_arn.to_owned(),
            access_key: String::new(),
            secret_key: String::new(),
            bind: "127.0.0.1:0".to_owned(),
            timeout: None,
        }
    }

    /// Sign as this access key.
    #[must_use]
    pub fn with_credentials(self, access_key: &str, secret_key: &str) -> (transport: SnsTransport)
        ensures
            transport@ == (TransportView {
                access_key: access_key@,
                secret_key: secret_key@,
                ..self@
            }),
    {
        let mut transport: SnsTransport = self;
        transport.access_key = access_key.to_owned();
        transport.secret_key = secret_key.to_owned();
        transport
    }

    /// Listen for deliveries at `bind`, the address the subscription's
    /// endpoint URL resolves to.
    #[must_use]
    pub fn listening_at(self, bind: &str) -> (transport: SnsTransport)
        ensures
            transport@ == (TransportView { bind: bind@, ..self@ }),
    {
        let mut transport: SnsTransport = self;
        transport.bind = bind.to_owned();
        transport
    }

    /// Give up on an endpoint that stops answering after `timeout`.
    #[must_use]
    pub fn timing_out_after(self, timeout: Duration) -> (transport: SnsTransport)
        ensures
            transport@ == (TransportView { timeout: Some(timeout), ..self@ }),
    {
        let mut transport: SnsTransport = self;
        transport.timeout = Some(timeout);
        transport
    }

    /// The endpoint this transport speaks to.
    #[must_use]
    pub fn endpoint(&self) -> (endpoint: &str)
        ensures
            endpoint@ == self@.endpoint,
    {
        self.endpoint.as_str()
    }

    /// The address this transport listens for deliveries at.
    #[must_use]
    pub fn listens_at(&self) -> (bind: &str)
        ensures
            bind@ == self@.bind,
    {
        self.bind.as_str()
    }

    /// How long this transport waits for an answer.
    #[must_use]
    pub fn timeout(&self) -> (timeout: Option<Duration>)
        ensures
            timeout == self@.timeout,
    {
        self.timeout
    }

    /// The client this transport speaks through. `authority` is the
    /// endpoint's `host:port`.
    ///
    /// # Errors
    /// Where the endpoint is not an HTTP URL, which `authority` then says.
    pub fn client(&self, authority: Result<String, TransportError>) -> (result: Result<
        Client,
        TransportError,
    >)
        ensures
            client_outcome(result) == (match text_outcome(authority) {
                Ok(host) => Ok::<ClientView, Failure>(self@.client(host)),
                Err(failure) => Err(failure),
            }),
    {
        let client: Client = match Client::new(
            self.endpoint.as_str(),
            authority,
            self.region.as_str(),
            self.access_key.as_str(),
            self.secret_key.as_str(),
        ) {
            Ok(client) => client,
            Err(failure) => {
                return Err(failure);
            },
        };
        Ok(
            match self.timeout {
                Some(timeout) => client.timing_out_after(timeout),
                None => client,
            },
        )
    }

    /// A far end that holds this transport's credentials, for a test or a
    /// playground to run on loopback.
    #[must_use]
    pub fn session(&self) -> (session: Session)
        ensures
            session@ == self@.session(),
    {
        let session: Session = Session::new(
            self.region.as_str(),
            self.access_key.as_str(),
            self.secret_key.as_str(),
        );
        match self.timeout {
            Some(timeout) => session.timing_out_after(timeout),
            None => session,
        }
    }

    /// Takes one delivery: a notification as the Stream it carries; a
    /// confirmation, once it is confirmed by fetching its URL, as nothing yet.
    ///
    /// # Errors
    /// Where there was no delivery, which `delivery` then says.
    pub fn accept_one(&self, delivery: Result<Delivery, TransportError>) -> (result: Result<
        Taken,
        TransportError,
    >)
        ensures
            taken_outcome(result) == (match delivery_outcome(delivery) {
                Ok(delivered) => Ok::<TakenView, Failure>(taking(delivered)),
                Err(failure) => Err(failure),
            }),
    {
        match delivery {
            Ok(Delivery::Notification { topic_arn, message_id, message }) => {
                let mut list: Vec<Arrived> = Vec::new();
                list.push(
                    Arrived::new(
                        origin(topic_arn.as_str(), message_id.as_str()),
                        message.as_str().as_bytes_vec(),
                    ),
                );
                proof {
                    assert(streams(list@) =~= seq![list@[0]@]);
                }
                Ok(Taken::Streams(list))
            },
            Ok(Delivery::Confirmation { subscribe_url, .. }) => Ok(Taken::Confirm(subscribe_url)),
            Ok(Delivery::Other(_)) => {
                let list: Vec<Arrived> = Vec::new();
                proof {
                    assert(streams(list@) =~= Seq::empty());
                }
                Ok(Taken::Streams(list))
            },
            Err(failure) => Err(failure),
        }
    }

    /// What a delivery came to, once its confirmation was fetched: nothing
    /// arrived.
    ///
    /// # Errors
    /// Where the confirmation could not be fetched, which `confirmation` then
    /// says.
    pub fn confirmed(confirmation: Result<String, TransportError>) -> (result: Result<
        Vec<Arrived>,
        TransportError,
    >)
        ensures
            streams_outcome(result) == (match text_outcome(confirmation) {
                Ok(_) => Ok::<Seq<ArrivedView>, Failure>(Seq::empty()),
                Err(failure) => Err(failure),
            }),
    {
        match confirmation {
            Ok(_) => {
                let list: Vec<Arrived> = Vec::new();
                proof {
                    assert(streams(list@) =~= Seq::empty());
                }
                Ok(list)
            },
            Err(failure) => Err(failure),
        }
    }

    /// The topic a target names, or this transport's own where it names none.
    #[must_use]
    pub fn resolve<'a>(&'a self, target: &'a str) -> (topic_arn: &'a str)
        ensures
            topic_arn@ == self@.resolved(target@),
    {
        if target.is_empty() {
            self.topic_arn.as_str()
        } else {
            target
        }
    }

    /// The name of this transport.
    #[must_use]
    pub fn name(&self) -> (name: &'static str)
        ensures
            name@ == "aws-sns"@,
    {
        "aws-sns"
    }

    /// Streams travel both ways.
    #[must_use]
    pub fn directions(&self) -> (directions: Directions)
        ensures
            directions == (Directions { receives: true, sends: true }),
    {
        Directions { receives: true, sends: true }
    }

    /// What this transport claims: nothing, as a topic is not an artefact
    /// anyone claims.
    #[must_use]
    pub fn claims(&self) -> (claimed: Option<String>)
        ensures
            claimed is None,
    {
        None
    }

    /// Send `bytes` to the topic that `target` names: the call to sign and
    /// make. `authority` is the endpoint's `host:port`.
    ///
    /// # Errors
    /// Where the bytes are more than a message carries, the endpoint is not an
    /// HTTP URL, which `authority` then says, or the bytes are not a message
    /// body. There is no call to make then.
    pub fn send(
        &self,
        target: &str,
        bytes: &[u8],
        authority: Result<String, TransportError>,
    ) -> (result: Result<QueryCall, TransportError>)
        ensures
            query_outcome(result) == self@.sending(target@, bytes@, text_outcome(authority)),
    {
        if bytes.len() > ceiling() {
            let mut message: String = numeral_text(bytes.len() as u64, 10, false, 1);
            message.append(" bytes is over the ");
            message.append(numeral_text(ceiling() as u64, 10, false, 1).as_str());
            message.append(" one SNS message carries");
            return Err(TransportError::permanent(message));
        }
        match self.client(authority) {
            Ok(client) => client.publish(self.resolve(target), bytes),
            Err(failure) => Err(failure),
        }
    }

    /// A fresh near end aimed at the session at `address`, with this
    /// transport's credentials and topic.
    #[must_use]
    pub fn aimed_at(&self, address: &str) -> (near: SnsTransport)
        ensures
            near@ == self@.aimed_at(address@),
    {
        let endpoint: String = "http://".to_owned().concat(address);
        let near: SnsTransport = SnsTransport::new(
            endpoint.as_str(),
            self.region.as_str(),
            self.topic_arn.as_str(),
        ).with_credentials(self.access_key.as_str(), self.secret_key.as_str());
        match self.timeout {
            Some(timeout) => near.timing_out_after(timeout),
            None => near,
        }
    }

    /// Send `payload` to this transport's topic at the session at `address`:
    /// the call to sign and make. `authority` is the `host:port` of the
    /// session's URL.
    ///
    /// # Errors
    /// As [`SnsTransport::send`].
    pub fn send_to(
        &self,
        address: &str,
        payload: &[u8],
        authority: Result<String, TransportError>,
    ) -> (result: Result<QueryCall, TransportError>)
        ensures
            query_outcome(result) == self@.aimed_at(address@).sending(
                Seq::empty(),
                payload@,
                text_outcome(authority),
            ),
    {
        proof {
            reveal_strlit("");
            assert(""@ =~= Seq::empty());
        }
        self.aimed_at(address).send("", payload, authority)
    }

    /// The largest Stream this transport carries.
    #[must_use]
    pub fn ceiling(&self) -> (bytes: Option<usize>)
        ensures
            bytes == Some((256 * 1024) as usize),
    {
        Some(ceiling())
    }

    /// What SNS does not carry: a message is text, at least one character of
    /// it, every one permitted by XML 1.0.
    #[must_use]
    pub fn refuses(&self, payload: &[u8]) -> (why: Option<String>)
        ensures
            why is None <==> is_message(payload@),
            why matches Some(words) ==> words@ == reason(payload@),
    {
        refusal(payload)
    }
}

/// What SNS does not carry never leaves: there is a call only for a message
/// body of no more bytes than the ceiling, and it carries that body as it is,
/// to the topic that the target names or, where it names none, to the
/// transport's own, signed with the transport's credential.
pub proof fn law_only_a_message_is_sent(
    transport: TransportView,
    target: Seq<char>,
    bytes: Seq<u8>,
    authority: Result<Seq<char>, Failure>,
)
    ensures
        transport.sending(target, bytes, authority) is Ok <==> {
            &&& bytes.len() <= 256 * 1024
            &&& is_message(bytes)
            &&& authority is Ok
        },
        transport.sending(target, bytes, authority) matches Ok(call) ==> {
            &&& value_named(call.parameters, "Action"@) == Some("Publish"@)
            &&& value_named(call.parameters, "TopicArn"@) == Some(transport.resolved(target))
            &&& value_named(call.parameters, "Message"@) matches Some(message)
            &&& encode_utf8(message) == bytes
        },
        transport.sending(target, bytes, authority) matches Ok(call) ==> {
            &&& call.endpoint == transport.endpoint
            &&& call.signer == SignerView::sns(
                transport.region,
                transport.access_key,
                transport.secret_key,
            )
            &&& call.timeout == transport.timeout
        },
{
    if let Ok(call) = transport.sending(target, bytes, authority) {
        law_a_message_is_its_bytes(bytes);
        lemma_publish_parameters(transport.resolved(target), decode_utf8(bytes));
    }
}

/// What SNS does not carry fails for good: neither too many bytes nor a
/// payload that is no message body is worth another try.
pub proof fn law_a_refused_payload_is_refused_for_good(
    transport: TransportView,
    target: Seq<char>,
    bytes: Seq<u8>,
    host: Seq<char>,
)
    requires
        bytes.len() > 256 * 1024 || !is_message(bytes),
    ensures
        transport.sending(target, bytes, Ok(host)) matches Err(failure) && failure.cause
            is Permanent,
{
}

/// Too many bytes fail for good whatever the endpoint is, and the failure
/// says how many there were.
pub proof fn law_too_many_bytes_fail_for_good(
    transport: TransportView,
    target: Seq<char>,
    bytes: Seq<u8>,
    authority: Result<Seq<char>, Failure>,
)
    requires
        bytes.len() > 256 * 1024,
    ensures
        transport.sending(target, bytes, authority) == Err::<QueryCallView, Failure>(
            Failure::permanent(over_ceiling(bytes.len())),
        ),
{
}

/// Both ends of a loopback hold one credential and wait equally long: a near
/// end aimed anywhere signs as the session wants it, and speaks of the topic
/// of the transport it came from.
pub proof fn law_both_ends_hold_one_credential(
    transport: TransportView,
    address: Seq<char>,
    host: Seq<char>,
)
    ensures
        ({
            let near = transport.aimed_at(address);
            &&& near.client(host).signer == transport.session().signer
            &&& near.client(host).timeout == transport.session().timeout
            &&& near.resolved(Seq::empty()) == transport.topic_arn
        }),
{
}

/// A Stream goes to the topic that the target names, and where the target
/// names none, to the transport's own: what the call says of its topic is the
/// target itself, whatever it is, unless it is empty.
pub proof fn law_a_stream_goes_to_the_topic_it_is_aimed_at(
    transport: TransportView,
    target: Seq<char>,
    bytes: Seq<u8>,
    authority: Result<Seq<char>, Failure>,
)
    ensures
        transport.sending(target, bytes, authority) matches Ok(call) ==> {
            &&& target.len() > 0 ==> value_named(call.parameters, "TopicArn"@) == Some(target)
            &&& target.len() == 0 ==> value_named(call.parameters, "TopicArn"@) == Some(
                transport.topic_arn,
            )
        },
        target.len() > 0 ==> transport.resolved(target) == target,
        target.len() == 0 ==> transport.resolved(target) == transport.topic_arn,
{
    if let Ok(call) = transport.sending(target, bytes, authority) {
        lemma_publish_parameters(transport.resolved(target), decode_utf8(bytes));
    }
}

/// Whom a Stream is aimed at changes nothing of the call but the topic: two
/// transports that differ in their own topic alone send alike to a target
/// that names one.
pub proof fn law_a_named_topic_overrides_the_own(
    transport: TransportView,
    other_topic: Seq<char>,
    target: Seq<char>,
    bytes: Seq<u8>,
    authority: Result<Seq<char>, Failure>,
)
    requires
        target.len() > 0,
    ensures
        transport.sending(target, bytes, authority) == (TransportView {
            topic_arn: other_topic,
            ..transport
        }).sending(target, bytes, authority),
{
}

/// Every text that SNS carries leaves as it is: one signed call to the
/// transport's endpoint, with the action, the version, the topic and the text
/// for its parameters and no more, signed for SNS in the transport's region
/// with its credential, and waited for as long as the transport waits.
pub proof fn law_a_stream_leaves_whole(
    transport: TransportView,
    target: Seq<char>,
    text: Seq<char>,
    host: Seq<char>,
)
    requires
        is_message(encode_utf8(text)),
        encode_utf8(text).len() <= 262144,
    ensures
        transport.sending(target, encode_utf8(text), Ok(host)) matches Ok(call) && {
            &&& call.endpoint == transport.endpoint
            &&& call.path == "/"@
            &&& call.headers == seq![("Host"@, host)]
            &&& call.parameters == seq![
                ("Action"@, "Publish"@),
                ("Version"@, "2010-03-31"@),
                (
                    "TopicArn"@,
                    if target.len() > 0 {
                        target
                    } else {
                        transport.topic_arn
                    },
                ),
                ("Message"@, text),
            ]
            &&& call.signer == (SignerView {
                service: "sns"@,
                region: transport.region,
                access_key: transport.access_key,
                secret_key: transport.secret_key,
            })
            &&& call.timeout == transport.timeout
            &&& call.element == "MessageId"@
        },
{
    encode_utf8_decode_utf8(text);
}

/// What does not leave fails for the first of these that holds: there are
/// more than 262144 bytes, and the failure says how many; the endpoint is not
/// an HTTP URL, and the failure is the one it came with; the bytes are no
/// message body, and the failure is the reason.
pub proof fn law_a_stream_that_stays_says_why(
    transport: TransportView,
    target: Seq<char>,
    bytes: Seq<u8>,
    failure: Failure,
    host: Seq<char>,
    authority: Result<Seq<char>, Failure>,
)
    ensures
        bytes.len() > 262144 ==> transport.sending(target, bytes, authority) == Err::<
            QueryCallView,
            Failure,
        >(
            Failure {
                cause: Cause::Permanent,
                message: decimal(bytes.len())
                    + " bytes is over the 262144 one SNS message carries"@,
            },
        ),
        bytes.len() <= 262144 ==> transport.sending(target, bytes, Err(failure)) == Err::<
            QueryCallView,
            Failure,
        >(failure),
        bytes.len() <= 262144 && !is_message(bytes) ==> transport.sending(target, bytes, Ok(host))
            == Err::<QueryCallView, Failure>(
            Failure { cause: Cause::Permanent, message: reason(bytes) },
        ),
{
    law_decimal_is_written_digit_by_digit(26214, 4);
    law_decimal_is_written_digit_by_digit(2621, 4);
    law_decimal_is_written_digit_by_digit(262, 1);
    law_decimal_is_written_digit_by_digit(26, 2);
    law_decimal_is_written_digit_by_digit(2, 6);
    law_decimal_is_written_digit_by_digit(0, 2);
    reveal_strlit(" bytes is over the ");
    reveal_strlit(" one SNS message carries");
    reveal_strlit(" bytes is over the 262144 one SNS message carries");
    assert(decimal(262144) =~= seq!['2', '6', '2', '1', '4', '4']);
    assert(over_ceiling(bytes.len()) =~= decimal(bytes.len())
        + " bytes is over the 262144 one SNS message carries"@);
}

/// A notification comes to the one Stream it carries, the bytes of its text
/// under its topic and its id. A confirmation comes to the fetching of its
/// very URL. Any other kind comes to nothing.
pub proof fn law_a_delivery_comes_to_what_it_carries(
    topic_arn: Seq<char>,
    subscribe_url: Seq<char>,
    message_id: Seq<char>,
    message: Seq<char>,
    kind: Seq<char>,
)
    ensures
        taking(DeliveryView::Notification { topic_arn, message_id, message })
            == TakenView::Streams(
            seq![
                ArrivedView {
                    origin_uri: topic_arn + "#"@ + message_id,
                    bytes: encode_utf8(message),
                },
            ],
        ),
        taking(DeliveryView::Confirmation { topic_arn, subscribe_url }) == TakenView::Confirm(
            subscribe_url,
        ),
        taking(DeliveryView::Other(kind)) == TakenView::Streams(Seq::empty()),
{
}

/// A transport begins with no credential, listens on a free local port and
/// waits for ever; a near end aimed at an address differs from the transport
/// it came from in the endpoint it speaks to and in where it listens, and in
/// nothing else.
pub proof fn law_a_transport_begins_bare_and_aims_as_it_is(
    endpoint: Seq<char>,
    region: Seq<char>,
    topic_arn: Seq<char>,
    transport: TransportView,
    address: Seq<char>,
)
    ensures
        TransportView::bare(endpoint, region, topic_arn) == (TransportView {
            endpoint,
            region,
            topic_arn,
            access_key: Seq::empty(),
            secret_key: Seq::empty(),
            bind: "127.0.0.1:0"@,
            timeout: None,
        }),
        transport.aimed_at(address) == (TransportView {
            endpoint: "http://"@ + address,
            region: transport.region,
            topic_arn: transport.topic_arn,
            access_key: transport.access_key,
            secret_key: transport.secret_key,
            bind: "127.0.0.1:0"@,
            timeout: transport.timeout,
        }),
{
}

/// The client that a transport speaks through speaks to its endpoint, and the
/// far end it makes holds nothing yet; both have its region, its credential
/// and its patience.
pub proof fn law_a_transport_hands_on_what_it_has(transport: TransportView, host: Seq<char>)
    ensures
        ({
            let signer = SignerView {
                service: "sns"@,
                region: transport.region,
                access_key: transport.access_key,
                secret_key: transport.secret_key,
            };
            &&& transport.client(host) == (ClientView {
                endpoint: transport.endpoint,
                host,
                signer,
                timeout: transport.timeout,
            })
            &&& transport.session() == (SessionView {
                signer,
                published: Seq::empty(),
                timeout: transport.timeout,
            })
        }),
{
}

/// What was taken says each of its parts as it is, and so does its outcome.
pub proof fn law_what_was_taken_says_its_parts(
    list: Vec<Arrived>,
    url: String,
    taken: Taken,
    failure: TransportError,
)
    ensures
        streams(list@).len() == list@.len(),
        forall|i: int| 0 <= i < list@.len() ==> #[trigger] streams(list@)[i] == list@[i]@,
        Taken::Streams(list)@ == TakenView::Streams(streams(list@)),
        Taken::Confirm(url)@ == TakenView::Confirm(url@),
        taken_outcome(Ok(taken)) == Ok::<TakenView, Failure>(taken@),
        taken_outcome(Err(failure)) == Err::<TakenView, Failure>(failure@),
        streams_outcome(Ok(list)) == Ok::<Seq<ArrivedView>, Failure>(streams(list@)),
        streams_outcome(Err(failure)) == Err::<Seq<ArrivedView>, Failure>(failure@),
{
}

} // verus!
