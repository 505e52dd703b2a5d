//! The HTTP endpoint a subscription delivers to: what SNS sends it, read and
//! written.
//!
//! SNS delivers by `POST`, the kind named in `x-amz-sns-message-type` and the
//! body a JSON document: a `SubscriptionConfirmation` carrying the
//! `SubscribeURL` to fetch, a `Notification` carrying the `Message` and its
//! `MessageId`, an `UnsubscribeConfirmation` carrying nothing a Location
//! wants. Both halves are here, so the two cannot drift: what [`deliver`]
//! writes, [`parse`] reads back.
//!
//! SNS also signs each delivery with a certificate it names in
//! `SigningCertURL`. That signature is not checked here: the endpoint trusts
//! the network it listens on.

use std::time::Duration;

use vstd::prelude::*;
use vstd::utf8::*;

use crate::error::{protocol_error, Cause, Failure, TransportError};
use crate::exchange::{
    header_named, string_view, Call, CallView, HttpTarget, Pairs, Request, RequestView, TargetView,
};
use crate::json::{
    all_text, insert_text, json_document, json_text, member_text, new_object, object_members,
    read_document, text_of, write_object, Members,
};
use crate::text::{decimal, numeral_text, same_text};

verus! {

/// The header that names the kind of a delivery.
pub const MESSAGE_TYPE: &'static str = "x-amz-sns-message-type";

/// What SNS delivered.
#[derive(Clone, Debug, PartialEq, Eq)]
pub enum Delivery {
    /// A subscription to confirm by fetching `subscribe_url`.
    Confirmation { topic_arn: String, subscribe_url: String },
    /// One message from `topic_arn`.
    Notification { topic_arn: String, message_id: String, message: String },
    /// A kind a Location has nothing to do with: an unsubscribe confirmation.
    Other(String),
}

/// What a [`Delivery`] says.
pub enum DeliveryView {
    Confirmation { topic_arn: Seq<char>, subscribe_url: Seq<char> },
    Notification { topic_arn: Seq<char>, message_id: Seq<char>, message: Seq<char> },
    Other(Seq<char>),
}

impl View for Delivery {
    type V = DeliveryView;

    open spec fn view(&self) -> DeliveryView {
        match self {
            Delivery::Confirmation { topic_arn, subscribe_url } => DeliveryView::Confirmation {
                topic_arn: topic_arn@,
                subscribe_url: subscribe_url@,
            },
            Delivery::Notification { topic_arn, message_id, message } => DeliveryView::Notification {
                topic_arn: topic_arn@,
                message_id: message_id@,
                message: message@,
            },
            Delivery::Other(kind) => DeliveryView::Other(kind@),
        }
    }
}

/// What the result of reading a delivery says.
pub open spec fn delivery_outcome(result: Result<Delivery, TransportError>) -> Result<
    DeliveryView,
    Failure,
> {
    match result {
        Ok(delivery) => Ok(delivery@),
        Err(failure) => Err(failure@),
    }
}

/// The fields of a document that some kind of delivery carries, each where
/// the document has it as text.
pub struct Fields {
    pub topic_arn: Option<String>,
    pub subscribe_url: Option<String>,
    pub message_id: Option<String>,
    pub message: Option<String>,
}

/// What [`Fields`] say.
pub struct FieldsView {
    pub topic_arn: Option<Seq<char>>,
    pub subscribe_url: Option<Seq<char>>,
    pub message_id: Option<Seq<char>>,
    pub message: Option<Seq<char>>,
}

impl View for Fields {
    type V = FieldsView;

    open spec fn view(&self) -> FieldsView {
        FieldsView {
            topic_arn: string_view(self.topic_arn),
            subscribe_url: string_view(self.subscribe_url),
            message_id: string_view(self.message_id),
            message: string_view(self.message),
        }
    }
}

/// The fields of the document with these members.
pub open spec fn fields_of(members: Members) -> FieldsView {
    FieldsView {
        topic_arn: member_text(members, "TopicArn"@),
        subscribe_url: member_text(members, "SubscribeURL"@),
        message_id: member_text(members, "MessageId"@),
        message: member_text(members, "Message"@),
    }
}

/// The failure of a delivery of this kind that lacks the field `name`.
pub open spec fn lacks(kind: Seq<char>, name: Seq<char>) -> Failure {
    Failure::protocol("a "@ + kind + " with no "@ + name)
}

/// The delivery of this kind with these fields, or the first field that its
/// kind carries and it lacks.
pub open spec fn delivery_with(kind: Seq<char>, fields: FieldsView) -> Result<
    DeliveryView,
    Failure,
> {
    if kind == "SubscriptionConfirmation"@ {
        match (fields.topic_arn, fields.subscribe_url) {
            (None, _) => Err(lacks(kind, "TopicArn"@)),
            (_, None) => Err(lacks(kind, "SubscribeURL"@)),
            (Some(topic_arn), Some(subscribe_url)) => Ok(
                DeliveryView::Confirmation { topic_arn, subscribe_url },
            ),
        }
    } else if kind == "Notification"@ {
        match (fields.topic_arn, fields.message_id, fields.message) {
            (None, _, _) => Err(lacks(kind, "TopicArn"@)),
            (_, None, _) => Err(lacks(kind, "MessageId"@)),
            (_, _, None) => Err(lacks(kind, "Message"@)),
            (Some(topic_arn), Some(message_id), Some(message)) => Ok(
                DeliveryView::Notification { topic_arn, message_id, message },
            ),
        }
    } else {
        Ok(DeliveryView::Other(kind))
    }
}

/// The delivery that `request` carries, or why it carries none.
pub open spec fn reading(request: RequestView) -> Result<DeliveryView, Failure> {
    match header_named(request.headers, MESSAGE_TYPE@) {
        None => Err(Failure::protocol("a request that is not an SNS delivery"@)),
        Some(kind) => match json_document(request.body) {
            Err(fault) => Err(Failure::protocol("a delivery that is not JSON: "@ + fault)),
            Ok(members) => delivery_with(kind, fields_of(members)),
        },
    }
}

/// The failure of a delivery of this kind that lacks the field `name`.
fn lacking(kind: &str, name: &str) -> (failure: TransportError)
    ensures
        failure@ == lacks(kind@, name@),
{
    let mut message: String = "a ".to_owned();
    message.append(kind);
    message.append(" with no ");
    message.append(name);
    protocol_error(message)
}

/// The delivery of this kind with these fields.
///
/// # Errors
/// Where a field is missing that the kind carries.
pub fn delivery(kind: &str, fields: Fields) -> (result: Result<Delivery, TransportError>)
    ensures
        delivery_outcome(result) == delivery_with(kind@, fields@),
{
    if same_text(kind, "SubscriptionConfirmation") {
        match (fields.topic_arn, fields.subscribe_url) {
            (None, _) => Err(lacking(kind, "TopicArn")),
            (Some(_), None) => Err(lacking(kind, "SubscribeURL")),
            (Some(topic_arn), Some(subscribe_url)) => Ok(
                Delivery::Confirmation { topic_arn, subscribe_url },
            ),
        }
    } else if same_text(kind, "Notification") {
        match (fields.topic_arn, fields.message_id, fields.message) {
            (None, _, _) => Err(lacking(kind, "TopicArn")),
            (Some(_), None, _) => Err(lacking(kind, "MessageId")),
            (Some(_), Some(_), None) => Err(lacking(kind, "Message")),
            (Some(topic_arn), Some(message_id), Some(message)) => Ok(
                Delivery::Notification { topic_arn, message_id, message },
            ),
        }
    } else {
        Ok(Delivery::Other(kind.to_owned()))
    }
}

/// The delivery `request` carries.
///
/// # Errors
/// Where the request is not a delivery: no kind, a body that is not JSON, or
/// a document missing what its kind carries.
pub fn parse(request: &Request) -> (result: Result<Delivery, TransportError>)
    ensures
        delivery_outcome(result) == reading(request@),
{
    let kind: &str = match request.header_value(MESSAGE_TYPE) {
        Some(kind) => kind,
        None => {
            return Err(protocol_error("a request that is not an SNS delivery".to_owned()));
        },
    };
    let document: serde_json::Value = match read_document(request.body.as_slice()) {
        Ok(document) => document,
        Err(fault) => {
            let message: String = "a delivery that is not JSON: ".to_owned();
            return Err(protocol_error(message.concat(fault.as_str())));
        },
    };
    let fields = Fields {
        topic_arn: text_of(&document, "TopicArn"),
        subscribe_url: text_of(&document, "SubscribeURL"),
        message_id: text_of(&document, "MessageId"),
        message: text_of(&document, "Message"),
    };
    delivery(kind, fields)
}

/// The name of the kind of `delivery`.
pub open spec fn kind_of(delivery: DeliveryView) -> Seq<char> {
    match delivery {
        DeliveryView::Confirmation { .. } => "SubscriptionConfirmation"@,
        DeliveryView::Notification { .. } => "Notification"@,
        DeliveryView::Other(kind) => kind,
    }
}

/// The members of the document that `delivery` travels as.
pub open spec fn members_of(delivery: DeliveryView) -> Members {
    let typed = Members::empty().insert("Type"@, Some(kind_of(delivery)));
    match delivery {
        DeliveryView::Confirmation { topic_arn, subscribe_url } => typed.insert(
            "TopicArn"@,
            Some(topic_arn),
        ).insert("SubscribeURL"@, Some(subscribe_url)).insert("Token"@, Some("xmip"@)),
        DeliveryView::Notification { topic_arn, message_id, message } => typed.insert(
            "TopicArn"@,
            Some(topic_arn),
        ).insert("MessageId"@, Some(message_id)).insert("Message"@, Some(message)),
        DeliveryView::Other(_) => typed,
    }
}

/// The request SNS makes to deliver `delivery` to an endpoint at `path`.
pub open spec fn delivering(path: Seq<char>, delivery: DeliveryView) -> RequestView {
    RequestView::bare("POST"@, path).with_header(MESSAGE_TYPE@, kind_of(delivery)).with_header(
        "Content-Type"@,
        "text/plain; charset=UTF-8"@,
    ).with_body(encode_utf8(json_text(members_of(delivery))))
}

/// Whether `delivery` is told apart by its kind: it is not some other kind
/// under the name of a confirmation or a notification.
pub open spec fn named_apart(delivery: DeliveryView) -> bool {
    match delivery {
        DeliveryView::Other(kind) => {
            &&& kind != "SubscriptionConfirmation"@
            &&& kind != "Notification"@
        },
        _ => true,
    }
}

/// Whether `body` begins as the text of a JSON object does.
pub open spec fn opens_with_brace(body: Seq<u8>) -> bool {
    body.len() > 0 && body[0] == '{' as u8
}

/// Text that begins with a brace does so in UTF-8 too.
proof fn lemma_brace_first(text: Seq<char>)
    requires
        text.len() > 0,
        text[0] == '{',
    ensures
        opens_with_brace(encode_utf8(text)),
{
    let code: u32 = '{' as u32;
    assert((0x7bu32 & 0x7f) as u8 == 0x7bu8) by (bit_vector);
    assert(encode_scalar(code) =~= seq![leading_byte_width_1(code)]);
}

/// A delivery is what its kind and its members say.
proof fn lemma_members_read_back(delivery: DeliveryView)
    requires
        named_apart(delivery),
    ensures
        delivery_with(kind_of(delivery), fields_of(members_of(delivery))) == Ok::<
            DeliveryView,
            Failure,
        >(delivery),
{
    reveal_strlit("Type");
    reveal_strlit("TopicArn");
    reveal_strlit("SubscribeURL");
    reveal_strlit("Token");
    reveal_strlit("MessageId");
    reveal_strlit("Message");
    reveal_strlit("SubscriptionConfirmation");
    reveal_strlit("Notification");
    assert("Type"@.len() == 4 && "TopicArn"@.len() == 8 && "SubscribeURL"@.len() == 12
        && "Token"@.len() == 5 && "MessageId"@.len() == 9 && "Message"@.len() == 7);
    assert("SubscriptionConfirmation"@.len() != "Notification"@.len());
}

/// The members of any delivery are text.
proof fn lemma_members_are_text(delivery: DeliveryView)
    ensures
        all_text(members_of(delivery)),
{
}

/// A header that stands first is the first of its name.
proof fn lemma_first_header(headers: Pairs, name: Seq<char>)
    requires
        headers.len() > 0,
        headers[0].0 == name,
    ensures
        header_named(headers, name) == Some(headers[0].1),
{
}

/// The far end's side: the request SNS makes to deliver `delivery` to an
/// endpoint at `path`. [`parse`] reads it back as `delivery`.
#[must_use]
pub fn deliver(path: &str, delivery: &Delivery) -> (request: Request)
    ensures
        request@ == delivering(path@, delivery@),
        json_document(request@.body) == Ok::<Members, Seq<char>>(members_of(delivery@)),
        opens_with_brace(request@.body),
        named_apart(delivery@) ==> reading(request@) == Ok::<DeliveryView, Failure>(delivery@),
{
    let mut object: serde_json::Map<String, serde_json::Value> = new_object();
    let kind: &str = match delivery {
        Delivery::Confirmation { topic_arn, subscribe_url } => {
            insert_text(&mut object, "Type", "SubscriptionConfirmation");
            insert_text(&mut object, "TopicArn", topic_arn.as_str());
            insert_text(&mut object, "SubscribeURL", subscribe_url.as_str());
            insert_text(&mut object, "Token", "xmip");
            "SubscriptionConfirmation"
        },
        Delivery::Notification { topic_arn, message_id, message } => {
            insert_text(&mut object, "Type", "Notification");
            insert_text(&mut object, "TopicArn", topic_arn.as_str());
            insert_text(&mut object, "MessageId", message_id.as_str());
            insert_text(&mut object, "Message", message.as_str());
            "Notification"
        },
        Delivery::Other(kind) => {
            insert_text(&mut object, "Type", kind.as_str());
            kind.as_str()
        },
    };
    proof {
        assert(object_members(object) == members_of(delivery@));
        lemma_members_are_text(delivery@);
    }
    let document: String = write_object(object);
    proof {
        lemma_brace_first(document@);
    }
    let request: Request = Request::new("POST", path).header(MESSAGE_TYPE, kind).header(
        "Content-Type",
        "text/plain; charset=UTF-8",
    ).body(document.as_str().as_bytes());
    proof {
        lemma_first_header(request@.headers, MESSAGE_TYPE@);
        if named_apart(delivery@) {
            lemma_members_read_back(delivery@);
        }
    }
    request
}

/// What a call's result says.
pub open spec fn call_outcome(result: Result<Call, TransportError>) -> Result<CallView, Failure> {
    match result {
        Ok(call) => Ok(call@),
        Err(failure) => Err(failure@),
    }
}

/// The call that pushes `delivery` to the endpoint that `target` names, and
/// waits for it as long as `timeout` says.
pub open spec fn pushing(
    target: TargetView,
    delivery: DeliveryView,
    timeout: Option<Duration>,
) -> CallView {
    CallView {
        endpoint: target.endpoint(),
        request: delivering(target.path, delivery).with_header("Host"@, target.authority),
        timeout,
    }
}

/// The call that pushes `delivery` to the endpoint whose URL is `target`, as
/// SNS does. What comes back is judged by [`pushed`].
///
/// # Errors
/// Where the URL is not HTTP, which `target` then says.
pub fn push(
    target: Result<HttpTarget, TransportError>,
    delivery: &Delivery,
    timeout: Option<Duration>,
) -> (result: Result<Call, TransportError>)
    ensures
        match target {
            Ok(url) => call_outcome(result) == Ok::<CallView, Failure>(
                pushing(url@, delivery@, timeout),
            ),
            Err(failure) => call_outcome(result) == Err::<CallView, Failure>(failure@),
        },
        result matches Ok(call) ==> json_document(call@.request.body) == Ok::<
            Members,
            Seq<char>,
        >(members_of(delivery@)),
        result matches Ok(call) ==> opens_with_brace(call@.request.body),
        result matches Ok(call) ==> (named_apart(delivery@) ==> reading(call@.request) == Ok::<
            DeliveryView,
            Failure,
        >(delivery@)),
{
    match target {
        Ok(url) => {
            let request: Request = deliver(url.path.as_str(), delivery).header(
                "Host",
                url.authority.as_str(),
            );
            proof {
                lemma_first_header(request@.headers, MESSAGE_TYPE@);
                lemma_first_header(delivering(url@.path, delivery@).headers, MESSAGE_TYPE@);
            }
            Ok(Call { endpoint: url.endpoint(), request, timeout })
        },
        Err(failure) => Err(failure),
    }
}

/// Whether a push that was answered with `status` was taken.
///
/// # Errors
/// Where the endpoint did not answer 2xx. SNS retries that, so it is
/// retryable.
pub fn pushed(status: u16) -> (result: Result<(), TransportError>)
    ensures
        result is Ok <==> 200 <= status < 300,
        result matches Err(failure) ==> failure@ == Failure::retryable(
            "the endpoint answered "@ + decimal(status as nat),
        ),
{
    if 200 <= status && status < 300 {
        Ok(())
    } else {
        let message: String = "the endpoint answered ".to_owned();
        let shown: String = numeral_text(status as u64, 10, false, 1);
        Err(TransportError::retryable(message.concat(shown.as_str())))
    }
}

/// What came of one connection to the endpoint: the status to answer it with,
/// where it is answered at all, and what it delivered.
pub struct Acceptance {
    pub status: Option<u16>,
    pub delivery: Result<Delivery, TransportError>,
}

/// Takes what one connection sent. What is no delivery is answered 400.
pub fn accept_one(request: Option<Request>) -> (acceptance: Acceptance)
    ensures
        match request {
            None => {
                &&& acceptance.status is None
                &&& delivery_outcome(acceptance.delivery) == Err::<DeliveryView, Failure>(
                    Failure::protocol("a connection that sent no request"@),
                )
            },
            Some(sent) => {
                &&& acceptance.status == (if reading(sent@) is Ok {
                    Some(200u16)
                } else {
                    Some(400u16)
                })
                &&& delivery_outcome(acceptance.delivery) == reading(sent@)
            },
        },
{
    match request {
        None => Acceptance {
            status: None,
            delivery: Err(protocol_error("a connection that sent no request".to_owned())),
        },
        Some(sent) => {
            let delivery: Result<Delivery, TransportError> = parse(&sent);
            let status: u16 = if delivery.is_ok() {
                200
            } else {
                400
            };
            Acceptance { status: Some(status), delivery }
        },
    }
}

/// Whether the document with these members holds the text `text` under
/// `name`.
pub open spec fn holds(members: Members, name: Seq<char>, text: Seq<char>) -> bool {
    members.contains_key(name) && members[name] == Some(text)
}

/// Whether the document with these members holds no text under `name`.
pub open spec fn holds_none(members: Members, name: Seq<char>) -> bool {
    !members.contains_key(name) || members[name] is None
}

/// What it is for a document to hold text under a name, or none.
pub proof fn law_a_document_holds_text_or_none(
    members: Members,
    name: Seq<char>,
    text: Seq<char>,
)
    ensures
        holds(members, name, text) <==> members.contains_pair(name, Some(text)),
        holds_none(members, name) <==> forall|any: Seq<char>| !#[trigger] members.contains_pair(
            name,
            Some(any),
        ),
{
    if !holds_none(members, name) {
        assert(members.contains_pair(name, Some(members[name]->Some_0)));
    }
}

/// The kind of a delivery says what is read of its document, whatever else
/// the document holds: a `SubscriptionConfirmation` is its topic and the URL
/// to fetch, a `Notification` is its topic, its id and its text, and any other
/// kind is nothing but its name.
pub proof fn law_a_delivery_is_read_by_its_kind(
    request: RequestView,
    kind: Seq<char>,
    members: Members,
    topic_arn: Seq<char>,
    subscribe_url: Seq<char>,
    message_id: Seq<char>,
    message: Seq<char>,
)
    requires
        header_named(request.headers, "x-amz-sns-message-type"@) == Some(kind),
        json_document(request.body) == Ok::<Members, Seq<char>>(members),
    ensures
        kind == "SubscriptionConfirmation"@ && holds(members, "TopicArn"@, topic_arn) && holds(
            members,
            "SubscribeURL"@,
            subscribe_url,
        ) ==> reading(request) == Ok::<DeliveryView, Failure>(
            DeliveryView::Confirmation { topic_arn, subscribe_url },
        ),
        kind == "Notification"@ && holds(members, "TopicArn"@, topic_arn) && holds(
            members,
            "MessageId"@,
            message_id,
        ) && holds(members, "Message"@, message) ==> reading(request) == Ok::<
            DeliveryView,
            Failure,
        >(DeliveryView::Notification { topic_arn, message_id, message }),
        kind != "SubscriptionConfirmation"@ && kind != "Notification"@ ==> reading(request) == Ok::<
            DeliveryView,
            Failure,
        >(DeliveryView::Other(kind)),
{
    reveal_strlit("SubscriptionConfirmation");
    reveal_strlit("Notification");
    assert("SubscriptionConfirmation"@.len() != "Notification"@.len());
}

/// A confirmation or a notification that lacks what its kind carries is no
/// delivery, and the failure names the first thing it lacks: the topic before
/// all else, the id before the text.
pub proof fn law_what_a_delivery_lacks_is_named(
    request: RequestView,
    kind: Seq<char>,
    members: Members,
)
    requires
        header_named(request.headers, "x-amz-sns-message-type"@) == Some(kind),
        json_document(request.body) == Ok::<Members, Seq<char>>(members),
        kind == "SubscriptionConfirmation"@ || kind == "Notification"@,
    ensures
        holds_none(members, "TopicArn"@) ==> reading(request) == Err::<DeliveryView, Failure>(
            Failure { cause: Cause::Protocol, message: "a "@ + kind + " with no "@ + "TopicArn"@ },
        ),
        kind == "SubscriptionConfirmation"@ && !holds_none(members, "TopicArn"@) && holds_none(
            members,
            "SubscribeURL"@,
        ) ==> reading(request) == Err::<DeliveryView, Failure>(
            Failure {
                cause: Cause::Protocol,
                message: "a "@ + kind + " with no "@ + "SubscribeURL"@,
            },
        ),
        kind == "Notification"@ && !holds_none(members, "TopicArn"@) && holds_none(
            members,
            "MessageId"@,
        ) ==> reading(request) == Err::<DeliveryView, Failure>(
            Failure { cause: Cause::Protocol, message: "a "@ + kind + " with no "@ + "MessageId"@ },
        ),
        kind == "Notification"@ && !holds_none(members, "TopicArn"@) && !holds_none(
            members,
            "MessageId"@,
        ) && holds_none(members, "Message"@) ==> reading(request) == Err::<DeliveryView, Failure>(
            Failure { cause: Cause::Protocol, message: "a "@ + kind + " with no "@ + "Message"@ },
        ),
{
    reveal_strlit("SubscriptionConfirmation");
    reveal_strlit("Notification");
    assert("SubscriptionConfirmation"@.len() != "Notification"@.len());
}

/// A request that names no kind is no delivery, whatever its body; nor is one
/// whose body is no JSON, whatever its kind, and then the failure says what is
/// wrong with the body.
pub proof fn law_what_is_no_delivery_says_why(
    request: RequestView,
    kind: Seq<char>,
    fault: Seq<char>,
)
    ensures
        header_named(request.headers, "x-amz-sns-message-type"@) is None ==> reading(request)
            == Err::<DeliveryView, Failure>(
            Failure {
                cause: Cause::Protocol,
                message: "a request that is not an SNS delivery"@,
            },
        ),
        header_named(request.headers, "x-amz-sns-message-type"@) == Some(kind) && json_document(
            request.body,
        ) == Err::<Members, Seq<char>>(fault) ==> reading(request) == Err::<DeliveryView, Failure>(
            Failure { cause: Cause::Protocol, message: "a delivery that is not JSON: "@ + fault },
        ),
{
}

/// What is read of a request rests on nothing but its headers and its body.
pub proof fn law_reading_rests_on_headers_and_body(request: RequestView, other: RequestView)
    requires
        request.headers == other.headers,
        request.body == other.body,
    ensures
        reading(request) == reading(other),
{
}

/// A delivery travels as a document with just these members, all of them
/// text: what kind it is, and what its kind carries.
pub proof fn law_a_document_has_just_these_members(
    topic_arn: Seq<char>,
    subscribe_url: Seq<char>,
    message_id: Seq<char>,
    message: Seq<char>,
    kind: Seq<char>,
)
    ensures
        members_of(DeliveryView::Confirmation { topic_arn, subscribe_url }) == map![
            "Type"@ => Some("SubscriptionConfirmation"@),
            "TopicArn"@ => Some(topic_arn),
            "SubscribeURL"@ => Some(subscribe_url),
            "Token"@ => Some("xmip"@),
        ],
        members_of(DeliveryView::Notification { topic_arn, message_id, message }) == map![
            "Type"@ => Some("Notification"@),
            "TopicArn"@ => Some(topic_arn),
            "MessageId"@ => Some(message_id),
            "Message"@ => Some(message),
        ],
        members_of(DeliveryView::Other(kind)) == map!["Type"@ => Some(kind)],
{
}

/// A delivery is a `POST` to the path of the endpoint, its kind in a header
/// before the type of its body, which is its document.
pub proof fn law_a_delivery_is_posted_under_its_kind(
    path: Seq<char>,
    delivery: DeliveryView,
    kind: Seq<char>,
)
    requires
        delivery is Confirmation ==> kind == "SubscriptionConfirmation"@,
        delivery is Notification ==> kind == "Notification"@,
        delivery matches DeliveryView::Other(name) ==> kind == name,
    ensures
        ({
            let request = delivering(path, delivery);
            &&& request.method == "POST"@
            &&& request.path == path
            &&& request.query.len() == 0
            &&& request.headers == seq![
                ("x-amz-sns-message-type"@, kind),
                ("Content-Type"@, "text/plain; charset=UTF-8"@),
            ]
            &&& request.body == encode_utf8(json_text(members_of(delivery)))
        }),
{
    assert(delivering(path, delivery).headers =~= seq![
        ("x-amz-sns-message-type"@, kind),
        ("Content-Type"@, "text/plain; charset=UTF-8"@),
    ]);
}

/// A push is the delivery itself, posted to the path of the URL at whom the
/// URL names, over `http` and `https` alike, with whom it names in one header
/// more, and waits as long as it is told to.
pub proof fn law_a_push_posts_to_the_url_itself(
    target: TargetView,
    delivery: DeliveryView,
    timeout: Option<Duration>,
)
    ensures
        ({
            let call = pushing(target, delivery, timeout);
            let plain = delivering(target.path, delivery);
            &&& call.request.method == "POST"@
            &&& call.request.path == target.path
            &&& call.request.query.len() == 0
            &&& call.request.body == plain.body
            &&& call.request.headers == plain.headers + seq![("Host"@, target.authority)]
            &&& target.secure ==> call.endpoint == "https://"@ + target.authority
            &&& !target.secure ==> call.endpoint == "http://"@ + target.authority
            &&& call.timeout == timeout
        }),
{
    assert(pushing(target, delivery, timeout).request.headers =~= delivering(
        target.path,
        delivery,
    ).headers + seq![("Host"@, target.authority)]);
}

/// Every confirmation and every notification is told apart by its kind, and
/// so is every other kind but one that goes under either's name. A body begins
/// with a brace where its first byte is one.
pub proof fn law_kinds_tell_deliveries_apart(
    topic_arn: Seq<char>,
    subscribe_url: Seq<char>,
    message_id: Seq<char>,
    message: Seq<char>,
    kind: Seq<char>,
    body: Seq<u8>,
)
    ensures
        named_apart(DeliveryView::Confirmation { topic_arn, subscribe_url }),
        named_apart(DeliveryView::Notification { topic_arn, message_id, message }),
        named_apart(DeliveryView::Other(kind)) <==> kind != "SubscriptionConfirmation"@ && kind
            != "Notification"@,
        opens_with_brace(body) <==> body.len() > 0 && body[0] == 0x7b,
{
}

/// A delivery says each of its parts as it is, and so do the fields it is
/// read from and its outcome.
pub proof fn law_a_delivery_says_its_parts(
    topic_arn: String,
    subscribe_url: String,
    message_id: String,
    message: String,
    kind: String,
    fields: Fields,
    delivery: Delivery,
    call: Call,
    failure: TransportError,
)
    ensures
        (Delivery::Confirmation { topic_arn, subscribe_url })@ == (DeliveryView::Confirmation {
            topic_arn: topic_arn@,
            subscribe_url: subscribe_url@,
        }),
        (Delivery::Notification { topic_arn, message_id, message })@ == (
        DeliveryView::Notification {
            topic_arn: topic_arn@,
            message_id: message_id@,
            message: message@,
        }),
        Delivery::Other(kind)@ == DeliveryView::Other(kind@),
        fields.topic_arn matches Some(text) ==> fields@.topic_arn == Some(text@),
        fields.topic_arn is None ==> fields@.topic_arn is None,
        fields.subscribe_url matches Some(text) ==> fields@.subscribe_url == Some(text@),
        fields.subscribe_url is None ==> fields@.subscribe_url is None,
        fields.message_id matches Some(text) ==> fields@.message_id == Some(text@),
        fields.message_id is None ==> fields@.message_id is None,
        fields.message matches Some(text) ==> fields@.message == Some(text@),
        fields.message is None ==> fields@.message is None,
        delivery_outcome(Ok(delivery)) == Ok::<DeliveryView, Failure>(delivery@),
        delivery_outcome(Err(failure)) == Err::<DeliveryView, Failure>(failure@),
        call_outcome(Ok(call)) == Ok::<CallView, Failure>(call@),
        call_outcome(Err(failure)) == Err::<CallView, Failure>(failure@),
{
}

} // verus!
