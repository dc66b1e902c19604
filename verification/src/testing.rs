//! Descriptors and clients with fixed outcomes.
//!
//! Callers exercising a pipeline or their own error handling need the failure
//! paths on demand, without a transport that actually fails: a descriptor
//! whose body never encodes, and a client whose hook rejects every request.

use vstd::prelude::*;

use crate::client::ApiClient;
use crate::client::ApiError;
use crate::client::ApiErrorKind;
use crate::client::HttpRequest;
use crate::client::RequestModel;
use crate::json::json_error_value;
use crate::json::json_unit_ok;
use crate::BodyOutcome;
use crate::Queryable;
use crate::RequestMethod;

verus! {

/// A descriptor whose body always fails to encode: every query made of it
/// ends in a serialization error before anything is sent.
pub struct FailingBody {
    /// The URL the request would target.
    pub url: String,
}

impl<S> Queryable<S, ()> for FailingBody {
    open spec fn url_spec(&self, state: S) -> Seq<char> {
        self.url@
    }

    open spec fn method_spec(&self, state: S) -> RequestMethod {
        RequestMethod::Post
    }

    open spec fn body_spec(&self, state: S) -> BodyOutcome {
        BodyOutcome::Fails
    }

    open spec fn response_spec(&self, data: Seq<u8>) -> Option<()> {
        if json_unit_ok(data) {
            Some(())
        } else {
            None
        }
    }

    fn url(&self, state: &S) -> (r: String) {
        self.url.clone()
    }

    fn method(&self, state: &S) -> (m: RequestMethod) {
        RequestMethod::Post
    }

    fn body(&self, state: &S) -> (b: Option<Result<Vec<u8>, serde_json::Error>>) {
        Some(Err(json_error_value()))
    }

    fn deserialize(&self, data: &[u8]) -> (r: Result<(), serde_json::Error>) {
        crate::json::json_decode_unit(data)
    }
}

/// A client whose hook rejects every request with a serialization failure:
/// what a hook that must encode something into each request comes to when
/// that encoding cannot succeed.
pub struct RejectingClient<State> {
    /// The full state of the client.
    pub state: State,
}

impl<State> ApiClient<State> for RejectingClient<State> {
    open spec fn state_spec(&self) -> State {
        self.state
    }

    open spec fn hook_spec(&self, req: RequestModel) -> Result<RequestModel, ApiErrorKind> {
        Err(ApiErrorKind::Serialization)
    }

    fn state(&self) -> (r: &State) {
        &self.state
    }

    fn before_request(&self, req: HttpRequest) -> (r: Result<HttpRequest, ApiError>) {
        Err(ApiError::Serialization(json_error_value()))
    }
}

} // verus!
