//! The execution pipeline: build a request from a descriptor, let the client
//! adjust it, and turn a transport outcome into a typed result.
//!
//! The transport itself (connection handling, the actual send, the await of
//! the body) is an outside collaborator and runs elsewhere; everything the
//! pipeline decides is here, as functions from plain values to plain values.

use vstd::prelude::*;

use crate::BodyOutcome;
use crate::FromApiState;
use crate::Queryable;
use crate::RequestMethod;

verus! {

/// An error that may happen with an API query
#[derive(Debug)]
pub enum ApiError {
    /// An error happened with serialization
    Serialization(serde_json::Error),
    /// An error happened with the request itself
    Transport(TransportFailure),
}

/// The transport-side failure an [`ApiError::Transport`] carries.
#[derive(Debug, Clone, PartialEq, Eq)]
pub enum TransportFailure {
    /// The response carried a status outside the success range.
    Status(u16),
    /// The transport failed to send or receive (network, TLS, timeout),
    /// with its own description of the failure.
    Failed(String),
}

/// The shape of a [`TransportFailure`], over mathematical values.
pub enum TransportKind {
    /// A response status outside the success range.
    Status(u16),
    /// A send or receive failure, with its description.
    Failed(Seq<char>),
}

/// The shape of an [`ApiError`]: which of the two failure domains it belongs
/// to, with the opaque codec cause abstracted away.
pub enum ApiErrorKind {
    /// A serialization failure.
    Serialization,
    /// A transport failure.
    Transport(TransportKind),
}

impl View for TransportFailure {
    type V = TransportKind;

    open spec fn view(&self) -> TransportKind {
        match self {
            TransportFailure::Status(s) => TransportKind::Status(*s),
            TransportFailure::Failed(m) => TransportKind::Failed(m@),
        }
    }
}

impl View for ApiError {
    type V = ApiErrorKind;

    open spec fn view(&self) -> ApiErrorKind {
        match self {
            ApiError::Serialization(_) => ApiErrorKind::Serialization,
            ApiError::Transport(t) => ApiErrorKind::Transport(t@),
        }
    }
}

/// A transport-neutral request: everything the pipeline decides about one
/// request, ready to be handed to a transport.
pub struct HttpRequest {
    /// The method of the request.
    pub method: RequestMethod,
    /// The complete request target.
    pub url: String,
    /// The raw body, where the request carries one.
    pub body: Option<Vec<u8>>,
    /// Whether a `Content-Type: application/json` header is attached; set
    /// exactly when a body is.
    pub content_type_json: bool,
}

/// The mathematical account of an [`HttpRequest`].
pub struct RequestModel {
    /// The method of the request.
    pub method: RequestMethod,
    /// The complete request target.
    pub url: Seq<char>,
    /// The raw body, where the request carries one.
    pub body: Option<Seq<u8>>,
    /// Whether the JSON content-type header is attached.
    pub content_type_json: bool,
}

impl View for HttpRequest {
    type V = RequestModel;

    open spec fn view(&self) -> RequestModel {
        RequestModel {
            method: self.method,
            url: self.url@,
            body: match self.body {
                Some(v) => Some(v@),
                None => None,
            },
            content_type_json: self.content_type_json,
        }
    }
}

/// What a transport hands back for one sent request: a status and the full
/// raw response body.
pub struct HttpResponse {
    /// The response status.
    pub status: u16,
    /// The full raw response body.
    pub body: Vec<u8>,
}

/// Whether a status is a success status.
pub open spec fn is_success(status: u16) -> bool {
    200 <= status < 300
}

/// The request a descriptor describes for a given narrowed state, assuming
/// its body does not fail to encode.
pub open spec fn request_spec<S, R, Q: Queryable<S, R>>(queryable: &Q, state: S) -> RequestModel {
    RequestModel {
        method: queryable.method_spec(state),
        url: queryable.url_spec(state),
        body: match queryable.body_spec(state) {
            BodyOutcome::Bytes(b) => Some(b),
            _ => None,
        },
        content_type_json: queryable.body_spec(state) is Bytes,
    }
}

/// An API client that can be used to create queries: it holds the full state
/// and may adjust each request right before it is sent.
pub trait ApiClient<State>: Sized {
    /// The full state the client holds.
    spec fn state_spec(&self) -> State;

    /// What `before_request` does to a request: the adjusted request, or the
    /// shape of the error it rejects the request with.
    spec fn hook_spec(&self, req: RequestModel) -> Result<RequestModel, ApiErrorKind>;

    /// Gets the API state
    fn state(&self) -> (r: &State)
        ensures
            *r == self.state_spec(),
    ;

    /// A way to modify the request right before sending it
    ///
    /// Can for example be used to inject auth headers or implement rate
    /// limits. Its failure is propagated by the pipeline without any further
    /// stage running.
    fn before_request(&self, req: HttpRequest) -> (r: Result<HttpRequest, ApiError>)
        ensures
            match r {
                Ok(q) => self.hook_spec(req@) == Ok::<RequestModel, ApiErrorKind>(q@),
                Err(e) => self.hook_spec(req@) == Err::<RequestModel, ApiErrorKind>(e@),
            },
    ;
}

/// The slice of client state that URL-building descriptors commonly need:
/// the base URL that request targets are appended to.
pub struct BaseUrl {
    /// The prefix, scheme and host included, of every request target.
    pub base: String,
}

impl<Rest> FromApiState<(BaseUrl, Rest)> for BaseUrl {
    open spec fn from_state_spec(state: (BaseUrl, Rest)) -> BaseUrl {
        state.0
    }

    fn from_state(state: &(BaseUrl, Rest)) -> (r: &BaseUrl) {
        &state.0
    }
}

/// A ready-made client around a bare state value: its `before_request` hands
/// every request on unchanged.
pub struct BasicClient<State> {
    /// The full state of the client.
    pub state: State,
}

impl<State> ApiClient<State> for BasicClient<State> {
    open spec fn state_spec(&self) -> State {
        self.state
    }

    open spec fn hook_spec(&self, req: RequestModel) -> Result<RequestModel, ApiErrorKind> {
        Ok(req)
    }

    fn state(&self) -> (r: &State) {
        &self.state
    }

    fn before_request(&self, req: HttpRequest) -> (r: Result<HttpRequest, ApiError>) {
        Ok(req)
    }
}

/// Builds the base request: method, URL and body come from the descriptor,
/// and a body is attached together with the JSON content-type header.
///
/// A failing body encode comes back as a [`ApiError::Serialization`] before
/// any request value exists, so nothing can be sent for it.
pub fn build_request<S, R, Q: Queryable<S, R>>(api_state: &S, queryable: &Q) -> (r: Result<
    HttpRequest,
    ApiError,
>)
    ensures
        match r {
            Ok(req) => !(queryable.body_spec(*api_state) is Fails) && req@ == request_spec(
                queryable,
                *api_state,
            ),
            Err(e) => queryable.body_spec(*api_state) is Fails && e@
                == ApiErrorKind::Serialization,
        },
{
    let method = queryable.method(api_state);
    let url = queryable.url(api_state);
    match queryable.body(api_state) {
        None => Ok(HttpRequest { method, url, body: None, content_type_json: false }),
        Some(Ok(bytes)) => Ok(
            HttpRequest { method, url, body: Some(bytes), content_type_json: true },
        ),
        Some(Err(cause)) => Err(ApiError::Serialization(cause)),
    }
}

/// The request `query_request` hands the transport, or the shape of the error
/// it stops with instead.
pub open spec fn prepared_spec<State, C: ApiClient<State>, FS: FromApiState<State>, R, Q: Queryable<
    FS,
    R,
>>(client: &C, queryable: &Q) -> Result<RequestModel, ApiErrorKind> {
    let narrowed = FS::from_state_spec(client.state_spec());
    if queryable.body_spec(narrowed) is Fails {
        Err(ApiErrorKind::Serialization)
    } else {
        client.hook_spec(request_spec(queryable, narrowed))
    }
}

/// Everything of a query up to the send: narrows the client's state, builds
/// the request, and lets the client's `before_request` adjust it. The first
/// error short-circuits: after one, there is no request to send.
pub fn query_request<State, C, FS, R, Q>(client: &C, queryable: &Q) -> (r: Result<
    HttpRequest,
    ApiError,
>) where C: ApiClient<State>, FS: FromApiState<State>, Q: Queryable<FS, R>
    ensures
        match r {
            Ok(req) => prepared_spec(client, queryable) == Ok::<RequestModel, ApiErrorKind>(req@),
            Err(e) => prepared_spec(client, queryable) == Err::<RequestModel, ApiErrorKind>(e@),
        },
{
    let narrowed = FS::from_state(client.state());
    match build_request::<FS, R, Q>(narrowed, queryable) {
        Ok(built) => client.before_request(built),
        Err(e) => Err(e),
    }
}

/// What `handle_response` decides for one response: the decoded value, a
/// decode failure, or a rejection of the status.
pub enum ResponseVerdict<R> {
    /// The body decoded to this value.
    Value(R),
    /// The status was a success, but the body did not decode.
    DecodeFailure,
    /// The status was no success; the body was never looked at.
    BadStatus(u16),
}

/// The verdict on a response with the given status and raw body.
pub open spec fn handled_spec<S, R, Q: Queryable<S, R>>(
    queryable: &Q,
    status: u16,
    body: Seq<u8>,
) -> ResponseVerdict<R> {
    if !is_success(status) {
        ResponseVerdict::BadStatus(status)
    } else {
        match queryable.response_spec(body) {
            Some(v) => ResponseVerdict::Value(v),
            None => ResponseVerdict::DecodeFailure,
        }
    }
}

/// Turns a received response into the typed result: errors on a status
/// outside the success range without touching the body, and otherwise
/// deserializes the full raw body using the queryable.
pub fn handle_response<S, R, Q: Queryable<S, R>>(queryable: &Q, response: HttpResponse) -> (r:
    Result<R, ApiError>)
    ensures
        match handled_spec(queryable, response.status, response.body@) {
            ResponseVerdict::Value(v) => r == Ok::<R, ApiError>(v),
            ResponseVerdict::DecodeFailure => r matches Err(e) && e@ == ApiErrorKind::Serialization,
            ResponseVerdict::BadStatus(s) => r == Err::<R, ApiError>(
                ApiError::Transport(TransportFailure::Status(s)),
            ),
        },
{
    if response.status < 200 || response.status >= 300 {
        Err(ApiError::Transport(TransportFailure::Status(response.status)))
    } else {
        match queryable.deserialize(response.body.as_slice()) {
            Ok(v) => Ok(v),
            Err(cause) => Err(ApiError::Serialization(cause)),
        }
    }
}

/// Everything of a query after the send: a transport failure is wrapped
/// verbatim as [`ApiError::Transport`], and a delivered response goes through
/// [`handle_response`].
pub fn query_response<S, R, Q: Queryable<S, R>>(
    queryable: &Q,
    outcome: Result<HttpResponse, TransportFailure>,
) -> (r: Result<R, ApiError>)
    ensures
        match outcome {
            Err(t) => r == Err::<R, ApiError>(ApiError::Transport(t)),
            Ok(response) => match handled_spec(queryable, response.status, response.body@) {
                ResponseVerdict::Value(v) => r == Ok::<R, ApiError>(v),
                ResponseVerdict::DecodeFailure => r matches Err(e) && e@
                    == ApiErrorKind::Serialization,
                ResponseVerdict::BadStatus(s) => r == Err::<R, ApiError>(
                    ApiError::Transport(TransportFailure::Status(s)),
                ),
            },
        },
{
    match outcome {
        Err(t) => Err(ApiError::Transport(t)),
        Ok(response) => handle_response(queryable, response),
    }
}

/// The final observable of one whole query, given what the transport would
/// answer for the prepared request: `outcome` is the status and raw body of a
/// delivered response, or the transport's own failure.
pub open spec fn query_spec<State, C: ApiClient<State>, FS: FromApiState<State>, R, Q: Queryable<
    FS,
    R,
>>(client: &C, queryable: &Q, outcome: Result<(u16, Seq<u8>), TransportKind>) -> Result<
    R,
    ApiErrorKind,
> {
    match prepared_spec(client, queryable) {
        Err(k) => Err(k),
        Ok(_req) => match outcome {
            Err(t) => Err(ApiErrorKind::Transport(t)),
            Ok((status, body)) => match handled_spec(queryable, status, body) {
                ResponseVerdict::Value(v) => Ok(v),
                ResponseVerdict::DecodeFailure => Err(ApiErrorKind::Serialization),
                ResponseVerdict::BadStatus(s) => Err(
                    ApiErrorKind::Transport(TransportKind::Status(s)),
                ),
            },
        },
    }
}

} // verus!
