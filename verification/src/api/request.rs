//! The request pipeline.
//!
//! One HTTP call passes through three decisions, each a function of plain
//! values. [`api_request`] turns a verb, a URL and an optional body into the
//! request to send, or rejects the verb before anything reaches the network.
//! [`receive`] classifies what came back from the network: a status of 400
//! or more and a failed exchange both end the call with a transport error,
//! anything else yields a [`DecodeTicket`]. [`finish`] takes that ticket and
//! the result of decoding the body and produces the caller's result. A
//! ticket cannot be made in any other way, so a body is never decoded for a
//! response that was classified as a failure.

use vstd::prelude::*;
use vstd::string::*;
use crate::utils::text::{decimal, str_eq, u32_to_decimal};

verus! {

/// The five verbs the pipeline sends.
#[derive(Clone, Copy, Debug, PartialEq, Eq, Structural)]
pub enum Method {
    Get,
    Post,
    Put,
    Delete,
    Patch,
}

/// The verb that a piece of text names, if it names one. Verbs are written
/// in upper case; nothing else is accepted.
pub open spec fn parse_verb(text: Seq<char>) -> Option<Method> {
    if text == "GET"@ {
        Some(Method::Get)
    } else if text == "POST"@ {
        Some(Method::Post)
    } else if text == "PUT"@ {
        Some(Method::Put)
    } else if text == "DELETE"@ {
        Some(Method::Delete)
    } else if text == "PATCH"@ {
        Some(Method::Patch)
    } else {
        None
    }
}

impl Method {
    /// The verb as it is written on the wire.
    pub open spec fn verb(self) -> Seq<char> {
        match self {
            Method::Get => "GET"@,
            Method::Post => "POST"@,
            Method::Put => "PUT"@,
            Method::Delete => "DELETE"@,
            Method::Patch => "PATCH"@,
        }
    }

    /// Whether a request with this verb carries the body it was given.
    pub open spec fn carries_body(self) -> bool {
        self == Method::Post || self == Method::Put || self == Method::Patch
    }

    /// Reads a verb.
    pub fn parse(text: &str) -> (method: Option<Method>)
        ensures
            method == parse_verb(text@),
    {
        if str_eq(text, "GET") {
            Some(Method::Get)
        } else if str_eq(text, "POST") {
            Some(Method::Post)
        } else if str_eq(text, "PUT") {
            Some(Method::Put)
        } else if str_eq(text, "DELETE") {
            Some(Method::Delete)
        } else if str_eq(text, "PATCH") {
            Some(Method::Patch)
        } else {
            None
        }
    }

    /// The verb as it is written on the wire.
    pub fn as_str(self) -> (text: &'static str)
        ensures
            text@ == self.verb(),
    {
        match self {
            Method::Get => "GET",
            Method::Post => "POST",
            Method::Put => "PUT",
            Method::Delete => "DELETE",
            Method::Patch => "PATCH",
        }
    }

    /// Whether a request with this verb carries the body it was given.
    pub fn has_body(self) -> (carries: bool)
        ensures
            carries == self.carries_body(),
    {
        match self {
            Method::Post | Method::Put | Method::Patch => true,
            Method::Get | Method::Delete => false,
        }
    }
}

/// Reading a verb's own spelling gives that verb back.
pub proof fn lemma_parse_verb_of_verb(method: Method)
    ensures
        parse_verb(method.verb()) == Some(method),
{
    reveal_strlit("GET");
    reveal_strlit("POST");
    reveal_strlit("PUT");
    reveal_strlit("DELETE");
    reveal_strlit("PATCH");
    // The five spellings differ in length, but for GET and PUT, which
    // differ in their first letter.
    assert("GET"@.len() == 3 && "POST"@.len() == 4 && "PUT"@.len() == 3 && "DELETE"@.len() == 6
        && "PATCH"@.len() == 5);
    assert("GET"@[0] != "PUT"@[0]);
}

/// Why a call did not produce a value.
///
/// There are three kinds. A status of 400 or more is a transport error that
/// carries the status; it is not a kind of its own.
#[derive(Clone, Debug, PartialEq, Eq)]
pub enum ApiError {
    /// The verb is none of the five supported ones. Nothing was sent.
    UnsupportedMethod { method: String },
    /// The exchange failed at or below the HTTP layer. With a status, the
    /// server answered with that status (400 or more) and `detail` is its
    /// status text; without one, no response arrived and `detail` says why.
    Transport { status: Option<u16>, detail: String },
    /// The server answered with a status below 400, but its body did not
    /// decode into the expected shape.
    Decode { detail: String },
}

/// An [`ApiError`] as a mathematical value.
pub enum ApiErrorView {
    UnsupportedMethod { method: Seq<char> },
    Transport { status: Option<u16>, detail: Seq<char> },
    Decode { detail: Seq<char> },
}

impl View for ApiError {
    type V = ApiErrorView;

    open spec fn view(&self) -> ApiErrorView {
        match self {
            ApiError::UnsupportedMethod { method } => ApiErrorView::UnsupportedMethod {
                method: method@,
            },
            ApiError::Transport { status, detail } => ApiErrorView::Transport {
                status: *status,
                detail: detail@,
            },
            ApiError::Decode { detail } => ApiErrorView::Decode { detail: detail@ },
        }
    }
}

impl ApiErrorView {
    /// The line shown to a user for this error.
    pub open spec fn message(self) -> Seq<char> {
        match self {
            ApiErrorView::UnsupportedMethod { method } => "Unsupported HTTP method: "@ + method,
            ApiErrorView::Transport { status: Some(code), detail } => "HTTP "@ + decimal(
                code as nat,
            ) + " "@ + detail,
            ApiErrorView::Transport { status: None, detail } => "network request failed"@,
            ApiErrorView::Decode { detail } => "failed to parse JSON response"@,
        }
    }
}

impl ApiError {
    /// The line shown to a user for this error.
    pub fn message(&self) -> (text: String)
        ensures
            text@ == self@.message(),
    {
        match self {
            ApiError::UnsupportedMethod { method } => {
                let mut text = String::from_str("Unsupported HTTP method: ");
                text.append(method.as_str());
                text
            },
            ApiError::Transport { status: Some(code), detail } => {
                let mut text = String::from_str("HTTP ");
                let digits = u32_to_decimal(*code as u32);
                text.append(digits.as_str());
                text.append(" ");
                text.append(detail.as_str());
                text
            },
            ApiError::Transport { status: None, detail: _ } => String::from_str(
                "network request failed",
            ),
            ApiError::Decode { detail: _ } => String::from_str("failed to parse JSON response"),
        }
    }
}

/// One header of a request.
#[derive(Clone, Debug, PartialEq, Eq)]
pub struct Header {
    pub name: &'static str,
    pub value: &'static str,
}

/// A [`Header`] as a mathematical value.
pub struct HeaderView {
    pub name: Seq<char>,
    pub value: Seq<char>,
}

impl View for Header {
    type V = HeaderView;

    open spec fn view(&self) -> HeaderView {
        HeaderView { name: self.name@, value: self.value@ }
    }
}

/// The header that every request carries.
pub open spec fn json_content_type() -> HeaderView {
    HeaderView { name: "Content-Type"@, value: "application/json"@ }
}

/// A request that is ready to be sent. `body` is the value to serialise as
/// the JSON payload; without one the request is sent with an empty payload.
#[derive(Debug, PartialEq, Eq)]
pub struct RequestDescriptor<B> {
    pub method: Method,
    pub url: String,
    pub headers: Vec<Header>,
    pub body: Option<B>,
}

/// A [`RequestDescriptor`] as a mathematical value.
pub struct RequestView<B> {
    pub method: Method,
    pub url: Seq<char>,
    pub headers: Seq<HeaderView>,
    pub body: Option<B>,
}

impl<B> View for RequestDescriptor<B> {
    type V = RequestView<B>;

    open spec fn view(&self) -> RequestView<B> {
        RequestView {
            method: self.method,
            url: self.url@,
            headers: self.headers@.map_values(|h: Header| h@),
            body: self.body,
        }
    }
}

impl<B> RequestView<B> {
    /// What holds of every request the pipeline sends: it carries the JSON
    /// content type and nothing else, and it has a body only where its verb
    /// carries one.
    pub open spec fn well_formed(self) -> bool {
        &&& self.headers == seq![json_content_type()]
        &&& self.body is Some ==> self.method.carries_body()
    }
}

/// The request that the pipeline sends for a verb, a URL and an optional
/// body: the body is kept for POST, PUT and PATCH and dropped for GET and
/// DELETE.
pub open spec fn planned_request<B>(method: Method, url: Seq<char>, body: Option<B>) -> RequestView<
    B,
> {
    RequestView {
        method,
        url,
        headers: seq![json_content_type()],
        body: if method.carries_body() {
            body
        } else {
            None
        },
    }
}

impl<B> RequestDescriptor<B> {
    /// Builds the request for a verb, a URL and an optional body.
    pub fn new(method: Method, url: &str, body: Option<B>) -> (request: Self)
        ensures
            request@ == planned_request(method, url@, body),
    {
        let mut headers: Vec<Header> = Vec::new();
        headers.push(Header { name: "Content-Type", value: "application/json" });
        let body = if method.has_body() {
            body
        } else {
            None
        };
        let request = RequestDescriptor { method, url: String::from_str(url), headers, body };
        assert(request@.headers =~= seq![json_content_type()]);
        request
    }
}

/// What the first stage of the pipeline decides for a verb given as text, a
/// URL and an optional body.
pub open spec fn plan_request<B>(method: Seq<char>, url: Seq<char>, body: Option<B>) -> Result<
    RequestView<B>,
    ApiErrorView,
> {
    match parse_verb(method) {
        Some(verb) => Ok(planned_request(verb, url, body)),
        None => Err(ApiErrorView::UnsupportedMethod { method }),
    }
}

/// First stage of the pipeline: the request to send for `method`, `url` and
/// `body`, or the refusal of a verb that is not supported. Nothing has been
/// sent when this returns.
pub fn api_request<B>(method: &str, url: &str, body: Option<B>) -> (planned: Result<
    RequestDescriptor<B>,
    ApiError,
>)
    ensures
        match planned {
            Ok(request) => plan_request(method@, url@, body) == Ok::<_, ApiErrorView>(request@),
            Err(error) => plan_request(method@, url@, body) == Err::<RequestView<B>, _>(error@),
        },
{
    match Method::parse(method) {
        Some(verb) => Ok(RequestDescriptor::new(verb, url, body)),
        None => Err(ApiError::UnsupportedMethod { method: String::from_str(method) }),
    }
}

/// What came back from sending a request.
#[derive(Clone, Debug, PartialEq, Eq)]
pub enum NetworkReply {
    /// A response arrived, with this status line.
    Response { status: u16, status_text: String },
    /// No response arrived; `detail` says what the transport reported.
    Failed { detail: String },
}

/// A [`NetworkReply`] as a mathematical value.
pub enum NetworkReplyView {
    Response { status: u16, status_text: Seq<char> },
    Failed { detail: Seq<char> },
}

impl View for NetworkReply {
    type V = NetworkReplyView;

    open spec fn view(&self) -> NetworkReplyView {
        match self {
            NetworkReply::Response { status, status_text } => NetworkReplyView::Response {
                status: *status,
                status_text: status_text@,
            },
            NetworkReply::Failed { detail } => NetworkReplyView::Failed { detail: detail@ },
        }
    }
}

/// What the second stage of the pipeline decides for a reply: the status of
/// a response whose body is to be decoded, or the transport error that ends
/// the call.
pub open spec fn classify(reply: NetworkReplyView) -> Result<u16, ApiErrorView> {
    match reply {
        NetworkReplyView::Response { status, status_text } => if status >= 400 {
            Err(ApiErrorView::Transport { status: Some(status), detail: status_text })
        } else {
            Ok(status)
        },
        NetworkReplyView::Failed { detail } => Err(
            ApiErrorView::Transport { status: None, detail },
        ),
    }
}

/// The right to decode the body of one response. Only [`receive`] makes
/// one, and only for a status below 400.
#[derive(Debug)]
pub struct DecodeTicket {
    status: u16,
}

impl View for DecodeTicket {
    type V = u16;

    closed spec fn view(&self) -> u16 {
        self.status
    }
}

impl DecodeTicket {
    #[verifier::type_invariant]
    spec fn accepted(self) -> bool {
        self.status < 400
    }

    /// The status of the response that this ticket was made for.
    pub fn status(&self) -> (status: u16)
        ensures
            status == self@,
            status < 400,
    {
        proof {
            use_type_invariant(self);
        }
        self.status
    }
}

/// Second stage of the pipeline: classifies what came back from the
/// network. A response with a status below 400 yields the ticket for
/// decoding its body. A status of 400 or more yields a transport error with
/// that status and the status text, and a failed exchange a transport error
/// without a status; in both cases there is no ticket, so no body is
/// decoded.
pub fn receive(reply: NetworkReply) -> (next: Result<DecodeTicket, ApiError>)
    ensures
        match next {
            Ok(ticket) => classify(reply@) == Ok::<_, ApiErrorView>(ticket@),
            Err(error) => classify(reply@) == Err::<u16, _>(error@),
        },
{
    match reply {
        NetworkReply::Response { status, status_text } => {
            if status >= 400 {
                Err(ApiError::Transport { status: Some(status), detail: status_text })
            } else {
                Ok(DecodeTicket { status })
            }
        },
        NetworkReply::Failed { detail } => Err(ApiError::Transport { status: None, detail }),
    }
}

/// What the last stage of the pipeline decides for the result of decoding a
/// body.
pub open spec fn conclude<T>(decoded: Result<T, Seq<char>>) -> Result<T, ApiErrorView> {
    match decoded {
        Ok(value) => Ok(value),
        Err(detail) => Err(ApiErrorView::Decode { detail }),
    }
}

/// The same result with its error text as a mathematical value.
pub open spec fn decoded_view<T>(decoded: Result<T, String>) -> Result<T, Seq<char>> {
    match decoded {
        Ok(value) => Ok(value),
        Err(detail) => Err(detail@),
    }
}

/// The same result with its error as a mathematical value.
pub open spec fn outcome_view<T>(outcome: Result<T, ApiError>) -> Result<T, ApiErrorView> {
    match outcome {
        Ok(value) => Ok(value),
        Err(error) => Err(error@),
    }
}

/// Last stage of the pipeline: the caller's result for a response whose
/// status was accepted. A decoded value is handed on unchanged; a body that
/// did not decode is a decode error, never a value.
pub fn finish<T>(ticket: DecodeTicket, decoded: Result<T, String>) -> (outcome: Result<
    T,
    ApiError,
>)
    ensures
        ticket@ < 400,
        outcome_view(outcome) == conclude(decoded_view(decoded)),
{
    proof {
        use_type_invariant(&ticket);
    }
    match decoded {
        Ok(value) => Ok(value),
        Err(detail) => Err(ApiError::Decode { detail }),
    }
}

/// The result of one whole call: of sending what [`api_request`] planned
/// for `method`, `url` and `body`, getting `reply` from the network and, if
/// the body was decoded, `decoded` from the decoder.
pub open spec fn pipeline_outcome<B, T>(
    method: Seq<char>,
    url: Seq<char>,
    body: Option<B>,
    reply: NetworkReplyView,
    decoded: Result<T, Seq<char>>,
) -> Result<T, ApiErrorView> {
    match plan_request(method, url, body) {
        Err(error) => Err(error),
        Ok(_) => match classify(reply) {
            Err(error) => Err(error),
            Ok(_) => conclude(decoded),
        },
    }
}

/// Every request that the pipeline plans carries the JSON content type and
/// no other header, goes to the URL it was given, and has no body unless
/// one was supplied; a request with GET or DELETE never has one. A verb is
/// refused exactly when it is none of the five.
pub proof fn lemma_planned_request_shape<B>(method: Seq<char>, url: Seq<char>, body: Option<B>)
    ensures
        match plan_request(method, url, body) {
            Ok(request) => {
                &&& parse_verb(method) == Some(request.method)
                &&& request.url == url
                &&& request.headers == seq![json_content_type()]
                &&& request.well_formed()
                &&& body is None ==> request.body is None
                &&& request.method == Method::Get || request.method == Method::Delete
                    ==> request.body is None
            },
            Err(error) => {
                &&& parse_verb(method) is None
                &&& error == ApiErrorView::UnsupportedMethod { method }
            },
        },
{
}

/// For POST, PUT and PATCH the body that was supplied is the payload, and
/// leaving it out plans a request with an empty payload, not an error.
pub proof fn lemma_body_is_payload<B>(method: Method, url: Seq<char>, body: Option<B>)
    requires
        method == Method::Post || method == Method::Put || method == Method::Patch,
    ensures
        plan_request(method.verb(), url, body) == Ok::<_, ApiErrorView>(
            RequestView { method, url, headers: seq![json_content_type()], body },
        ),
{
    lemma_parse_verb_of_verb(method);
}

/// A response with a status of 400 or more ends the call with a transport
/// error that holds the status and the status text, and whose message
/// spells both out. The result does not depend on what a decoder would have
/// made of the body.
pub proof fn lemma_failure_status_is_transport_error<B, T>(
    method: Seq<char>,
    url: Seq<char>,
    body: Option<B>,
    status: u16,
    status_text: Seq<char>,
    decoded: Result<T, Seq<char>>,
)
    requires
        parse_verb(method) is Some,
        status >= 400,
    ensures
        ({
            let reply = NetworkReplyView::Response { status, status_text };
            let error = ApiErrorView::Transport { status: Some(status), detail: status_text };
            &&& pipeline_outcome(method, url, body, reply, decoded) == Err::<T, _>(error)
            &&& error.message() == "HTTP "@ + decimal(status as nat) + " "@ + status_text
        }),
{
}

/// A response with a status below 400 has its body decoded: a decoded
/// value is the result of the call, and a body that did not decode is a
/// decode error.
pub proof fn lemma_accepted_status_is_decoded<B, T>(
    method: Seq<char>,
    url: Seq<char>,
    body: Option<B>,
    status: u16,
    status_text: Seq<char>,
    decoded: Result<T, Seq<char>>,
)
    requires
        parse_verb(method) is Some,
        status < 400,
    ensures
        ({
            let reply = NetworkReplyView::Response { status, status_text };
            pipeline_outcome(method, url, body, reply, decoded) == (match decoded {
                Ok(value) => Ok(value),
                Err(detail) => Err(ApiErrorView::Decode { detail }),
            })
        }),
{
}

/// A call succeeds only if its verb is supported, a response arrived with a
/// status below 400, and its body decoded; and then it does succeed, with
/// the decoded value.
pub proof fn lemma_success_exactly_when_accepted_and_decoded<B, T>(
    method: Seq<char>,
    url: Seq<char>,
    body: Option<B>,
    reply: NetworkReplyView,
    decoded: Result<T, Seq<char>>,
)
    ensures
        pipeline_outcome(method, url, body, reply, decoded) is Ok <==> {
            &&& parse_verb(method) is Some
            &&& reply matches NetworkReplyView::Response { status, .. } && status < 400
            &&& decoded is Ok
        },
        pipeline_outcome(method, url, body, reply, decoded) matches Ok(value) ==> decoded == Ok::<
            _,
            Seq<char>,
        >(value),
{
}

} // verus!
