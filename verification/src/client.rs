//! The near side: the two calls a Location makes (publish to a topic, and
//! confirm the subscription SNS offers), each one request over one
//! connection.
//!
//! The endpoint is the service, not the topic: `https://sns.eu-north-1.
//! amazonaws.com` in the cloud, `http://127.0.0.1:9911` for a stand-in. A
//! topic is named in the `TopicArn` parameter, and a request is a signed
//! `POST` to `/`. A confirmation is the one unsigned call: SNS hands the
//! endpoint a `SubscribeURL` carrying a token, and fetching it is the proof.
//!
//! A call is decided here and made elsewhere: what is to be sent comes out as
//! plain values, and what was answered comes back as plain values.

use std::time::Duration;

use vstd::prelude::*;
use vstd::utf8::*;

use crate::error::{text_outcome, Failure, TransportError};
use crate::exchange::{
    pairs, value_named, Call, CallView, HttpTarget, Pairs, Request, RequestView, Signer,
    SignerView, TargetView,
};
use crate::message::{is_message, reason, text};

verus! {

/// The Query API version every request names.
pub const VERSION: &'static str = "2010-03-31";

/// The element of an answer to a publish that holds the message's id.
pub const MESSAGE_ID: &'static str = "MessageId";

/// The element of an answer to a confirmation that holds the subscription's
/// ARN.
pub const SUBSCRIPTION_ARN: &'static str = "SubscriptionArn";

/// One Location's side of SNS.
pub struct Client {
    endpoint: String,
    host: String,
    signer: Signer,
    timeout: Option<Duration>,
}

/// What a [`Client`] says.
pub struct ClientView {
    pub endpoint: Seq<char>,
    pub host: Seq<char>,
    pub signer: SignerView,
    pub timeout: Option<Duration>,
}

impl View for Client {
    type V = ClientView;

    closed spec fn view(&self) -> ClientView {
        ClientView {
            endpoint: self.endpoint@,
            host: self.host@,
            signer: self.signer@,
            timeout: self.timeout,
        }
    }
}

/// What the result of making a client says.
pub open spec fn client_outcome(result: Result<Client, TransportError>) -> Result<
    ClientView,
    Failure,
> {
    match result {
        Ok(client) => Ok(client@),
        Err(failure) => Err(failure@),
    }
}

/// A call of the Query API: the endpoint and the path it goes to, the headers
/// and the parameters it carries, who signs it, how long to wait for an
/// answer, and the element of the answer whose text the call is made for.
#[derive(Clone, PartialEq, Eq)]
pub struct QueryCall {
    pub endpoint: String,
    pub path: String,
    pub headers: Vec<(String, String)>,
    pub parameters: Vec<(String, String)>,
    pub signer: Signer,
    pub timeout: Option<Duration>,
    pub element: String,
}

/// What a [`QueryCall`] says.
pub struct QueryCallView {
    pub endpoint: Seq<char>,
    pub path: Seq<char>,
    pub headers: Pairs,
    pub parameters: Pairs,
    pub signer: SignerView,
    pub timeout: Option<Duration>,
    pub element: Seq<char>,
}

impl View for QueryCall {
    type V = QueryCallView;

    open spec fn view(&self) -> QueryCallView {
        QueryCallView {
            endpoint: self.endpoint@,
            path: self.path@,
            headers: pairs(self.headers@),
            parameters: pairs(self.parameters@),
            signer: self.signer@,
            timeout: self.timeout,
            element: self.element@,
        }
    }
}

/// An unsigned call that is made for the text of one element of its answer.
#[derive(Clone, Debug, PartialEq, Eq)]
pub struct FetchCall {
    pub call: Call,
    pub element: String,
}

/// What a [`FetchCall`] says.
pub struct FetchCallView {
    pub call: CallView,
    pub element: Seq<char>,
}

impl View for FetchCall {
    type V = FetchCallView;

    open spec fn view(&self) -> FetchCallView {
        FetchCallView { call: self.call@, element: self.element@ }
    }
}

/// What the result of deciding on a fetch says.
pub open spec fn fetch_outcome(result: Result<FetchCall, TransportError>) -> Result<
    FetchCallView,
    Failure,
> {
    match result {
        Ok(fetch) => Ok(fetch@),
        Err(failure) => Err(failure@),
    }
}

/// What the result of deciding on a call says.
pub open spec fn query_outcome(result: Result<QueryCall, TransportError>) -> Result<
    QueryCallView,
    Failure,
> {
    match result {
        Ok(call) => Ok(call@),
        Err(failure) => Err(failure@),
    }
}

/// The parameters that publish `body` to the topic at `topic_arn`.
pub open spec fn publish_parameters(topic_arn: Seq<char>, body: Seq<char>) -> Pairs {
    seq![
        ("Action"@, "Publish"@),
        ("Version"@, VERSION@),
        ("TopicArn"@, topic_arn),
        ("Message"@, body),
    ]
}

/// What the parameters of a publish say, one by one.
pub(crate) proof fn lemma_publish_parameters(topic_arn: Seq<char>, body: Seq<char>)
    ensures
        ({
            let parameters = publish_parameters(topic_arn, body);
            &&& value_named(parameters, "Action"@) == Some("Publish"@)
            &&& value_named(parameters, "Version"@) == Some(VERSION@)
            &&& value_named(parameters, "TopicArn"@) == Some(topic_arn)
            &&& value_named(parameters, "Message"@) == Some(body)
        }),
{
    reveal_strlit("Action");
    reveal_strlit("Version");
    reveal_strlit("TopicArn");
    reveal_strlit("Message");
    assert("Action"@.len() == 6 && "Version"@.len() == 7 && "TopicArn"@.len() == 8);
    assert("Version"@[0] == 'V' && "Message"@[0] == 'M');
    reveal_with_fuel(value_named, 5);
}

impl ClientView {
    /// The call that publishes `bytes` to the topic at `topic_arn`. What is
    /// no message body is refused, and there is no call.
    pub open spec fn publishing(self, topic_arn: Seq<char>, bytes: Seq<u8>) -> Result<
        QueryCallView,
        Failure,
    > {
        if is_message(bytes) {
            Ok(
                QueryCallView {
                    endpoint: self.endpoint,
                    path: "/"@,
                    headers: seq![("Host"@, self.host)],
                    parameters: publish_parameters(topic_arn, decode_utf8(bytes)),
                    signer: self.signer,
                    timeout: self.timeout,
                    element: MESSAGE_ID@,
                },
            )
        } else {
            Err(Failure::permanent(reason(bytes)))
        }
    }

    /// The call that confirms a subscription by fetching the URL `target`.
    pub open spec fn fetching(self, target: TargetView) -> FetchCallView {
        FetchCallView {
            call: CallView {
                endpoint: target.endpoint(),
                request: RequestView::bare("GET"@, target.path).with_header(
                    "Host"@,
                    target.authority,
                ),
                timeout: self.timeout,
            },
            element: SUBSCRIPTION_ARN@,
        }
    }
}

impl Client {
    /// Speak to the SNS endpoint at `endpoint`, `http://host:port` or
    /// `https://host:port`, in `region`, signing as `access_key`. `authority`
    /// is the endpoint's `host:port`.
    ///
    /// # Errors
    /// Where `endpoint` is not an HTTP URL, which `authority` then says.
    pub fn new(
        endpoint: &str,
        authority: Result<String, TransportError>,
        region: &str,
        access_key: &str,
        secret_key: &str,
    ) -> (result: Result<Client, TransportError>)
        ensures
            client_outcome(result) == (match text_outcome(authority) {
                Ok(host) => Ok::<ClientView, Failure>(
                    ClientView {
                        endpoint: endpoint@,
                        host,
                        signer: SignerView::sns(region@, access_key@, secret_key@),
                        timeout: None,
                    },
                ),
                Err(failure) => Err(failure),
            }),
    {
        match authority {
            Ok(host) => Ok(
                Client {
                    endpoint: endpoint.to_owned(),
                    host,
                    signer: Signer::sns(region, access_key, secret_key),
                    timeout: None,
                },
            ),
            Err(failure) => Err(failure),
        }
    }

    /// Give up on an endpoint that stops answering after `timeout`.
    #[must_use]
    pub fn timing_out_after(self, timeout: Duration) -> (client: Client)
        ensures
            client@ == (ClientView { timeout: Some(timeout), ..self@ }),
    {
        let mut client: Client = self;
        client.timeout = Some(timeout);
        client
    }

    /// Publish `bytes` as one message to the topic at `topic_arn`: the call
    /// to sign and make. What is answered is read by [`answered`], which
    /// gives the message's id.
    ///
    /// # Errors
    /// Where the bytes are not a message body.
    pub fn publish(&self, topic_arn: &str, bytes: &[u8]) -> (result: Result<
        QueryCall,
        TransportError,
    >)
        ensures
            query_outcome(result) == self@.publishing(topic_arn@, bytes@),
    {
        let body: &str = match text(bytes) {
            Ok(body) => body,
            Err(failure) => {
                return Err(failure);
            },
        };
        let mut parameters: Vec<(String, String)> = Vec::new();
        parameters.push(("Action".to_owned(), "Publish".to_owned()));
        parameters.push(("Version".to_owned(), VERSION.to_owned()));
        parameters.push(("TopicArn".to_owned(), topic_arn.to_owned()));
        parameters.push(("Message".to_owned(), body.to_owned()));
        let mut headers: Vec<(String, String)> = Vec::new();
        headers.push(("Host".to_owned(), self.host.clone()));
        proof {
            assert(pairs(parameters@) =~= publish_parameters(topic_arn@, body@));
            assert(pairs(headers@) =~= seq![("Host"@, self@.host)]);
        }
        Ok(
            QueryCall {
                endpoint: self.endpoint.clone(),
                path: "/".to_owned(),
                headers,
                parameters,
                signer: self.signer.clone(),
                timeout: self.timeout,
                element: MESSAGE_ID.to_owned(),
            },
        )
    }

    /// Confirm a subscription by fetching the `SubscribeURL` SNS delivered, as
    /// SNS asks: one unsigned `GET`, the token in its query. What is answered
    /// is read by [`answered`], which gives the subscription's ARN.
    ///
    /// # Errors
    /// Where the URL is not an HTTP URL, which `target` then says.
    pub fn confirm(&self, target: Result<HttpTarget, TransportError>) -> (result: Result<
        FetchCall,
        TransportError,
    >)
        ensures
            match target {
                Ok(url) => fetch_outcome(result) == Ok::<FetchCallView, Failure>(
                    self@.fetching(url@),
                ),
                Err(failure) => fetch_outcome(result) == Err::<FetchCallView, Failure>(failure@),
            },
    {
        match target {
            Ok(url) => {
                let request: Request = Request::new("GET", url.path.as_str()).header(
                    "Host",
                    url.authority.as_str(),
                );
                let call = Call { endpoint: url.endpoint(), request, timeout: self.timeout };
                Ok(FetchCall { call, element: SUBSCRIPTION_ARN.to_owned() })
            },
            Err(failure) => Err(failure),
        }
    }
}

/// What a call learned: the text of the element it was made for, which is
/// `answer`, or no text where the answer has no such element.
///
/// # Errors
/// Where the endpoint refused or could not be reached, which `answer` then
/// says.
pub fn answered(answer: Result<Option<String>, TransportError>) -> (result: Result<
    String,
    TransportError,
>)
    ensures
        text_outcome(result) == (match answer {
            Ok(Some(found)) => Ok::<Seq<char>, Failure>(found@),
            Ok(None) => Ok(Seq::empty()),
            Err(failure) => Err(failure@),
        }),
{
    match answer {
        Ok(Some(found)) => Ok(found),
        Ok(None) => Ok(String::new()),
        Err(failure) => Err(failure),
    }
}

/// To confirm a subscription is to fetch its URL: whatever the client, and
/// over `http` and `https` alike, one `GET` that asks whom the URL names for
/// the very path and query of the URL, with no body and no signature, and
/// waits as long as the client does.
pub proof fn law_a_confirmation_fetches_the_url_itself(client: ClientView, target: TargetView)
    ensures
        ({
            let fetch = client.fetching(target);
            let request = fetch.call.request;
            &&& request.method == "GET"@
            &&& request.path == target.path
            &&& request.query.len() == 0
            &&& request.body.len() == 0
            &&& request.headers == seq![("Host"@, target.authority)]
            &&& target.secure ==> fetch.call.endpoint == "https://"@ + target.authority
            &&& !target.secure ==> fetch.call.endpoint == "http://"@ + target.authority
            &&& fetch.call.timeout == client.timeout
            &&& fetch.element == "SubscriptionArn"@
        }),
{
    assert(client.fetching(target).call.request.headers =~= seq![("Host"@, target.authority)]);
}

/// Which URL is fetched to confirm a subscription does not depend on whom the
/// client speaks to or signs as.
pub proof fn law_every_client_fetches_alike(
    client: ClientView,
    other: ClientView,
    target: TargetView,
)
    requires
        client.timeout == other.timeout,
    ensures
        client.fetching(target) == other.fetching(target),
{
}

/// A message body is published as it is, by one call to the client's own
/// endpoint that names the action, the version, the topic and the text, in
/// this order and no more, signed with the client's own credential; the
/// message's id is what the call is made for. What is no message body is
/// refused for good, and there is no call.
pub proof fn law_a_publish_carries_the_text_to_the_topic(
    client: ClientView,
    topic_arn: Seq<char>,
    text: Seq<char>,
    bytes: Seq<u8>,
)
    ensures
        is_message(encode_utf8(text)) ==> {
            &&& client.publishing(topic_arn, encode_utf8(text)) matches Ok(call)
            &&& call.endpoint == client.endpoint
            &&& call.path == "/"@
            &&& call.headers == seq![("Host"@, client.host)]
            &&& call.parameters == seq![
                ("Action"@, "Publish"@),
                ("Version"@, "2010-03-31"@),
                ("TopicArn"@, topic_arn),
                ("Message"@, text),
            ]
            &&& call.signer == client.signer
            &&& call.timeout == client.timeout
            &&& call.element == "MessageId"@
        },
        !is_message(bytes) ==> {
            &&& client.publishing(topic_arn, bytes) matches Err(failure)
            &&& failure.cause is Permanent
            &&& failure.message == reason(bytes)
        },
{
    encode_utf8_decode_utf8(text);
}

/// A decided call says each of its parts as it is, and so does its outcome.
pub proof fn law_a_decided_call_says_its_parts(
    query: QueryCall,
    fetch: FetchCall,
    client: Client,
    failure: TransportError,
)
    ensures
        query@.endpoint == query.endpoint@ && query@.path == query.path@,
        query@.headers == pairs(query.headers@) && query@.parameters == pairs(query.parameters@),
        query@.signer == query.signer@ && query@.timeout == query.timeout,
        query@.element == query.element@,
        fetch@.call == fetch.call@ && fetch@.element == fetch.element@,
        query_outcome(Ok(query)) == Ok::<QueryCallView, Failure>(query@),
        query_outcome(Err(failure)) == Err::<QueryCallView, Failure>(failure@),
        fetch_outcome(Ok(fetch)) == Ok::<FetchCallView, Failure>(fetch@),
        fetch_outcome(Err(failure)) == Err::<FetchCallView, Failure>(failure@),
        client_outcome(Ok(client)) == Ok::<ClientView, Failure>(client@),
        client_outcome(Err(failure)) == Err::<ClientView, Failure>(failure@),
{
}

} // verus!
