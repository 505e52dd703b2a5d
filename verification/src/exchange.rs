//! What is exchanged: requests, responses, and the Streams they carry, as
//! plain values.

use std::time::Duration;

use vstd::prelude::*;
use vstd::slice::slice_to_vec;

use crate::text::{lowered, same_name, same_text};

verus! {

/// Names with their values, in order.
pub type Pairs = Seq<(Seq<char>, Seq<char>)>;

/// What a list of names and values says.
pub open spec fn pairs(list: Seq<(String, String)>) -> Pairs {
    list.map_values(|pair: (String, String)| (pair.0@, pair.1@))
}

/// The value that the first pair named `name` holds.
pub open spec fn value_named(list: Pairs, name: Seq<char>) -> Option<Seq<char>>
    decreases list.len(),
{
    if list.len() == 0 {
        None
    } else if list[0].0 == name {
        Some(list[0].1)
    } else {
        value_named(list.drop_first(), name)
    }
}

/// The value of the first header named `name`, whatever the case of its name.
pub open spec fn header_named(list: Pairs, name: Seq<char>) -> Option<Seq<char>>
    decreases list.len(),
{
    if list.len() == 0 {
        None
    } else if lowered(list[0].0) == lowered(name) {
        Some(list[0].1)
    } else {
        header_named(list.drop_first(), name)
    }
}

/// What an optional string says.
pub open spec fn text_view(text: Option<&str>) -> Option<Seq<char>> {
    match text {
        Some(shown) => Some(shown@),
        None => None,
    }
}

/// What an optional string says.
pub open spec fn string_view(text: Option<String>) -> Option<Seq<char>> {
    match text {
        Some(shown) => Some(shown@),
        None => None,
    }
}

/// The value of the first of `parameters` named `name`.
pub fn parameter<'a>(parameters: &'a [(String, String)], name: &str) -> (value: Option<&'a str>)
    ensures
        text_view(value) == value_named(pairs(parameters@), name@),
{
    let mut i: usize = 0;
    proof {
        assert(pairs(parameters@).skip(0) =~= pairs(parameters@));
    }
    while i < parameters.len()
        invariant
            i <= parameters@.len(),
            value_named(pairs(parameters@), name@) == value_named(
                pairs(parameters@).skip(i as int),
                name@,
            ),
        decreases parameters@.len() - i,
    {
        proof {
            let rest = pairs(parameters@).skip(i as int);
            assert(rest[0] == (parameters@[i as int].0@, parameters@[i as int].1@));
            assert(rest.drop_first() =~= pairs(parameters@).skip(i + 1));
        }
        if same_text(parameters[i].0.as_str(), name) {
            return Some(parameters[i].1.as_str());
        }
        i += 1;
    }
    None
}

/// A request: its method, the path it names, its query as names and values,
/// its headers and its body.
#[derive(Clone, Debug, PartialEq, Eq)]
pub struct Request {
    pub method: String,
    pub path: String,
    pub query: Vec<(String, String)>,
    pub headers: Vec<(String, String)>,
    pub body: Vec<u8>,
}

/// What a [`Request`] says.
pub struct RequestView {
    pub method: Seq<char>,
    pub path: Seq<char>,
    pub query: Pairs,
    pub headers: Pairs,
    pub body: Seq<u8>,
}

impl View for Request {
    type V = RequestView;

    open spec fn view(&self) -> RequestView {
        RequestView {
            method: self.method@,
            path: self.path@,
            query: pairs(self.query@),
            headers: pairs(self.headers@),
            body: self.body@,
        }
    }
}

impl RequestView {
    /// A request of this method for this path, with nothing more to it.
    pub open spec fn bare(method: Seq<char>, path: Seq<char>) -> RequestView {
        RequestView { method, path, query: seq![], headers: seq![], body: seq![] }
    }

    /// This request with one more header.
    pub open spec fn with_header(self, name: Seq<char>, value: Seq<char>) -> RequestView {
        RequestView { headers: self.headers.push((name, value)), ..self }
    }

    /// This request with another body.
    pub open spec fn with_body(self, body: Seq<u8>) -> RequestView {
        RequestView { body, ..self }
    }
}

impl Request {
    /// A request of this method for this path, with nothing more to it.
    #[must_use]
    pub fn new(method: &str, path: &str) -> (request: Request)
        ensures
            request@ == RequestView::bare(method@, path@),
    {
        let request = Request {
            method: method.to_owned(),
            path: path.to_owned(),
            query: Vec::new(),
            headers: Vec::new(),
            body: Vec::new(),
        };
        proof {
            assert(request@.query =~= Pairs::empty());
            assert(request@.headers =~= Pairs::empty());
            assert(request@.body =~= Seq::<u8>::empty());
        }
        request
    }

    /// This request with one more header.
    #[must_use]
    pub fn header(self, name: &str, value: &str) -> (request: Request)
        ensures
            request@ == self@.with_header(name@, value@),
    {
        let mut request: Request = self;
        request.headers.push((name.to_owned(), value.to_owned()));
        proof {
            assert(request@.headers =~= self@.headers.push((name@, value@)));
        }
        request
    }

    /// This request with `body` for its body.
    #[must_use]
    pub fn body(self, body: &[u8]) -> (request: Request)
        ensures
            request@ == self@.with_body(body@),
    {
        let mut request: Request = self;
        request.body = slice_to_vec(body);
        request
    }

    /// The value of the first header named `name`, whatever the case of its
    /// name.
    #[must_use]
    pub fn header_value(&self, name: &str) -> (value: Option<&str>)
        ensures
            text_view(value) == header_named(self@.headers, name@),
    {
        let mut i: usize = 0;
        proof {
            assert(self@.headers.skip(0) =~= self@.headers);
        }
        while i < self.headers.len()
            invariant
                i <= self.headers@.len(),
                header_named(self@.headers, name@) == header_named(
                    self@.headers.skip(i as int),
                    name@,
                ),
            decreases self.headers@.len() - i,
        {
            proof {
                let rest = self@.headers.skip(i as int);
                assert(rest[0] == (self.headers@[i as int].0@, self.headers@[i as int].1@));
                assert(rest.drop_first() =~= self@.headers.skip(i + 1));
            }
            if same_name(self.headers[i].0.as_str(), name) {
                return Some(self.headers[i].1.as_str());
            }
            i += 1;
        }
        None
    }

    /// The value of the first part of the query named `name`.
    #[must_use]
    pub fn query_value(&self, name: &str) -> (value: Option<&str>)
        ensures
            text_view(value) == value_named(self@.query, name@),
    {
        parameter(self.query.as_slice(), name)
    }
}

/// A response: its status, its headers and its body.
#[derive(Clone, Debug, PartialEq, Eq)]
pub struct Response {
    pub status: u16,
    pub headers: Vec<(String, String)>,
    pub body: Vec<u8>,
}

/// What a [`Response`] says.
pub struct ResponseView {
    pub status: u16,
    pub headers: Pairs,
    pub body: Seq<u8>,
}

impl View for Response {
    type V = ResponseView;

    open spec fn view(&self) -> ResponseView {
        ResponseView { status: self.status, headers: pairs(self.headers@), body: self.body@ }
    }
}

/// How a request is answered: with a response, or with an error that the
/// Query API shapes from its status, its code and its message.
#[derive(Clone, Debug, PartialEq, Eq)]
pub enum Reply {
    Answer(Response),
    Error { status: u16, code: String, message: String },
}

/// What a [`Reply`] says.
pub enum ReplyView {
    Answer(ResponseView),
    Error { status: u16, code: Seq<char>, message: Seq<char> },
}

impl View for Reply {
    type V = ReplyView;

    open spec fn view(&self) -> ReplyView {
        match self {
            Reply::Answer(response) => ReplyView::Answer(response@),
            Reply::Error { status, code, message } => ReplyView::Error {
                status: *status,
                code: code@,
                message: message@,
            },
        }
    }
}

impl ReplyView {
    /// The status the reply goes out with.
    pub open spec fn status(self) -> u16 {
        match self {
            ReplyView::Answer(response) => response.status,
            ReplyView::Error { status, .. } => status,
        }
    }
}

impl Reply {
    /// The status the reply goes out with.
    #[must_use]
    pub fn status(&self) -> (status: u16)
        ensures
            status == self@.status(),
    {
        match self {
            Reply::Answer(response) => response.status,
            Reply::Error { status, .. } => *status,
        }
    }
}

/// A Stream that arrived, and where it came from.
#[derive(Clone, Debug, PartialEq, Eq)]
pub struct Arrived {
    pub origin_uri: String,
    pub bytes: Vec<u8>,
}

/// What an [`Arrived`] says.
pub struct ArrivedView {
    pub origin_uri: Seq<char>,
    pub bytes: Seq<u8>,
}

impl View for Arrived {
    type V = ArrivedView;

    open spec fn view(&self) -> ArrivedView {
        ArrivedView { origin_uri: self.origin_uri@, bytes: self.bytes@ }
    }
}

impl Arrived {
    /// The Stream `bytes`, from `origin_uri`.
    #[must_use]
    pub fn new(origin_uri: String, bytes: Vec<u8>) -> (arrived: Arrived)
        ensures
            arrived@ == (ArrivedView { origin_uri: origin_uri@, bytes: bytes@ }),
    {
        Arrived { origin_uri, bytes }
    }
}

/// An HTTP URL taken apart: whether it is `https`, whom it names, and what it
/// asks them for.
#[derive(Clone, Debug, PartialEq, Eq)]
pub struct HttpTarget {
    pub secure: bool,
    pub authority: String,
    pub path: String,
}

/// What an [`HttpTarget`] says.
pub struct TargetView {
    pub secure: bool,
    pub authority: Seq<char>,
    pub path: Seq<char>,
}

impl View for HttpTarget {
    type V = TargetView;

    open spec fn view(&self) -> TargetView {
        TargetView { secure: self.secure, authority: self.authority@, path: self.path@ }
    }
}

impl TargetView {
    /// The URL of the endpoint alone.
    pub open spec fn endpoint(self) -> Seq<char> {
        if self.secure {
            "https://"@ + self.authority
        } else {
            "http://"@ + self.authority
        }
    }
}

impl HttpTarget {
    /// The URL of the endpoint alone: the scheme and the authority.
    #[must_use]
    pub fn endpoint(&self) -> (url: String)
        ensures
            url@ == self@.endpoint(),
    {
        let scheme: &str = if self.secure {
            "https://"
        } else {
            "http://"
        };
        scheme.to_owned().concat(self.authority.as_str())
    }
}

/// A request to make, the endpoint to make it of, and how long to wait for
/// it to answer.
#[derive(Clone, Debug, PartialEq, Eq)]
pub struct Call {
    pub endpoint: String,
    pub request: Request,
    pub timeout: Option<Duration>,
}

/// What a [`Call`] says.
pub struct CallView {
    pub endpoint: Seq<char>,
    pub request: RequestView,
    pub timeout: Option<Duration>,
}

impl View for Call {
    type V = CallView;

    open spec fn view(&self) -> CallView {
        CallView { endpoint: self.endpoint@, request: self.request@, timeout: self.timeout }
    }
}

/// Who signs requests: the service and the region they are for, and the
/// credential they are signed with.
#[derive(PartialEq, Eq)]
pub struct Signer {
    pub service: String,
    pub region: String,
    pub access_key: String,
    pub secret_key: String,
}

/// What a [`Signer`] says.
pub struct SignerView {
    pub service: Seq<char>,
    pub region: Seq<char>,
    pub access_key: Seq<char>,
    pub secret_key: Seq<char>,
}

impl View for Signer {
    type V = SignerView;

    open spec fn view(&self) -> SignerView {
        SignerView {
            service: self.service@,
            region: self.region@,
            access_key: self.access_key@,
            secret_key: self.secret_key@,
        }
    }
}

impl SignerView {
    /// Who signs for SNS in `region`.
    pub open spec fn sns(
        region: Seq<char>,
        access_key: Seq<char>,
        secret_key: Seq<char>,
    ) -> SignerView {
        SignerView { service: "sns"@, region, access_key, secret_key }
    }
}

impl Clone for Signer {
    fn clone(&self) -> (signer: Signer)
        ensures
            signer@ == self@,
    {
        Signer {
            service: self.service.clone(),
            region: self.region.clone(),
            access_key: self.access_key.clone(),
            secret_key: self.secret_key.clone(),
        }
    }
}

impl Signer {
    /// Who signs for SNS in `region`, as `access_key` with `secret_key`.
    #[must_use]
    pub fn sns(region: &str, access_key: &str, secret_key: &str) -> (signer: Signer)
        ensures
            signer@ == SignerView::sns(region@, access_key@, secret_key@),
    {
        Signer {
            service: "sns".to_owned(),
            region: region.to_owned(),
            access_key: access_key.to_owned(),
            secret_key: secret_key.to_owned(),
        }
    }
}

/// A list says each name with its value, in order.
pub proof fn law_a_list_says_its_pairs(list: Seq<(String, String)>)
    ensures
        pairs(list).len() == list.len(),
        forall|i: int|
            0 <= i < list.len() ==> (#[trigger] pairs(list)[i]).0 == list[i].0@ && pairs(list)[i].1
                == list[i].1@,
{
}

/// A name has the value that the first pair of that very name gives it, and
/// none where no pair has that name.
pub proof fn law_the_first_of_a_name_gives_its_value(list: Pairs, name: Seq<char>)
    ensures
        forall|at: int|
            0 <= at < list.len() && (#[trigger] list[at]).0 == name && (forall|i: int|
                0 <= i < at ==> (#[trigger] list[i]).0 != name) ==> value_named(list, name) == Some(
                list[at].1,
            ),
        value_named(list, name) is None <==> forall|i: int|
            0 <= i < list.len() ==> (#[trigger] list[i]).0 != name,
    decreases list.len(),
{
    if list.len() > 0 && list[0].0 != name {
        let rest = list.drop_first();
        law_the_first_of_a_name_gives_its_value(rest, name);
        assert forall|at: int|
            0 <= at < list.len() && (#[trigger] list[at]).0 == name && (forall|i: int|
                0 <= i < at ==> (#[trigger] list[i]).0 != name) implies value_named(list, name)
            == Some(list[at].1) by {
            assert(rest[at - 1] == list[at]);
            assert forall|i: int| 0 <= i < at - 1 implies (#[trigger] rest[i]).0 != name by {
                assert(rest[i] == list[i + 1]);
            }
        }
        if forall|i: int| 0 <= i < list.len() ==> (#[trigger] list[i]).0 != name {
            assert forall|i: int| 0 <= i < rest.len() implies (#[trigger] rest[i]).0 != name by {
                assert(rest[i] == list[i + 1]);
            }
        }
        if value_named(list, name) is None {
            assert forall|i: int| 0 <= i < list.len() implies (#[trigger] list[i]).0 != name by {
                if i > 0 {
                    assert(rest[i - 1] == list[i]);
                }
            }
        }
    }
}

/// A header has the value that the first header of its name gives it, in
/// whatever case the name is written, and none where no header has that name.
pub proof fn law_the_first_header_of_a_name_gives_its_value(list: Pairs, name: Seq<char>)
    ensures
        forall|at: int|
            0 <= at < list.len() && lowered((#[trigger] list[at]).0) == lowered(name) && (forall|
                i: int,
            |
                0 <= i < at ==> lowered((#[trigger] list[i]).0) != lowered(name)) ==> header_named(
                list,
                name,
            ) == Some(list[at].1),
        header_named(list, name) is None <==> forall|i: int|
            0 <= i < list.len() ==> lowered((#[trigger] list[i]).0) != lowered(name),
    decreases list.len(),
{
    if list.len() > 0 && lowered(list[0].0) != lowered(name) {
        let rest = list.drop_first();
        law_the_first_header_of_a_name_gives_its_value(rest, name);
        assert forall|at: int|
            0 <= at < list.len() && lowered((#[trigger] list[at]).0) == lowered(name) && (forall|
                i: int,
            |
                0 <= i < at ==> lowered((#[trigger] list[i]).0) != lowered(
                    name,
                )) implies header_named(list, name) == Some(list[at].1) by {
            assert(rest[at - 1] == list[at]);
            assert forall|i: int| 0 <= i < at - 1 implies lowered((#[trigger] rest[i]).0)
                != lowered(name) by {
                assert(rest[i] == list[i + 1]);
            }
        }
        if forall|i: int|
            0 <= i < list.len() ==> lowered((#[trigger] list[i]).0) != lowered(name) {
            assert forall|i: int| 0 <= i < rest.len() implies lowered((#[trigger] rest[i]).0)
                != lowered(name) by {
                assert(rest[i] == list[i + 1]);
            }
        }
        if header_named(list, name) is None {
            assert forall|i: int| 0 <= i < list.len() implies lowered((#[trigger] list[i]).0)
                != lowered(name) by {
                if i > 0 {
                    assert(rest[i - 1] == list[i]);
                }
            }
        }
    }
}

/// A request is made of what it was given: its method and its path, then each
/// header behind those before it, and the body it was given last.
pub proof fn law_a_request_is_made_of_what_it_was_given(
    method: Seq<char>,
    path: Seq<char>,
    request: RequestView,
    name: Seq<char>,
    value: Seq<char>,
    body: Seq<u8>,
)
    ensures
        ({
            let bare = RequestView::bare(method, path);
            &&& bare.method == method && bare.path == path
            &&& bare.query.len() == 0 && bare.headers.len() == 0 && bare.body.len() == 0
        }),
        ({
            let grown = request.with_header(name, value);
            &&& grown.method == request.method && grown.path == request.path
            &&& grown.query == request.query && grown.body == request.body
            &&& grown.headers == request.headers + seq![(name, value)]
        }),
        ({
            let filled = request.with_body(body);
            &&& filled.method == request.method && filled.path == request.path
            &&& filled.query == request.query && filled.headers == request.headers
            &&& filled.body == body
        }),
{
    assert(request.with_header(name, value).headers =~= request.headers + seq![(name, value)]);
}

/// What is exchanged says each of its parts as it is.
pub proof fn law_what_is_exchanged_says_its_parts(
    request: Request,
    response: Response,
    arrived: Arrived,
    target: HttpTarget,
    call: Call,
    signer: Signer,
)
    ensures
        request@.method == request.method@ && request@.path == request.path@,
        request@.query == pairs(request.query@) && request@.headers == pairs(request.headers@),
        request@.body == request.body@,
        response@.status == response.status && response@.headers == pairs(response.headers@),
        response@.body == response.body@,
        arrived@.origin_uri == arrived.origin_uri@ && arrived@.bytes == arrived.bytes@,
        target@.secure == target.secure && target@.authority == target.authority@,
        target@.path == target.path@,
        call@.endpoint == call.endpoint@ && call@.request == call.request@,
        call@.timeout == call.timeout,
        signer@.service == signer.service@ && signer@.region == signer.region@,
        signer@.access_key == signer.access_key@ && signer@.secret_key == signer.secret_key@,
{
}

/// A reply goes out with the status of the answer or of the error that it is.
pub proof fn law_a_reply_goes_out_with_its_status(
    response: Response,
    status: u16,
    code: String,
    message: String,
)
    ensures
        Reply::Answer(response)@ == ReplyView::Answer(response@),
        Reply::Answer(response)@.status() == response.status,
        (Reply::Error { status, code, message })@ == (ReplyView::Error {
            status,
            code: code@,
            message: message@,
        }),
        (Reply::Error { status, code, message })@.status() == status,
{
}

/// The endpoint of a URL is its own scheme and whom it names.
pub proof fn law_an_endpoint_is_scheme_and_authority(authority: Seq<char>, path: Seq<char>)
    ensures
        (TargetView { secure: true, authority, path }).endpoint() == "https://"@ + authority,
        (TargetView { secure: false, authority, path }).endpoint() == "http://"@ + authority,
{
}

/// Who signs for SNS signs for that service, in the region and with the
/// credential that were given.
pub proof fn law_who_signs_for_sns(
    region: Seq<char>,
    access_key: Seq<char>,
    secret_key: Seq<char>,
)
    ensures
        ({
            let signer = SignerView::sns(region, access_key, secret_key);
            &&& signer.service == "sns"@
            &&& signer.region == region
            &&& signer.access_key == access_key
            &&& signer.secret_key == secret_key
        }),
{
}

/// Text that may be missing is told as it is where it is there, and as
/// nothing where it is not.
pub proof fn law_missing_text_is_told_as_nothing(part: &str, whole: String)
    ensures
        text_view(Some(part)) == Some(part@),
        text_view(None) is None,
        string_view(Some(whole)) == Some(whole@),
        string_view(None) is None,
{
}

} // verus!
