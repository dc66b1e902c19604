//! A minimal abstraction for describing typed HTTP API requests.
//!
//! A request type implements [`Queryable`]: it knows its URL, its method, an
//! optional JSON body, and how to turn a raw response body into its response
//! type. [`FromApiState`] narrows a client's full state to the slice a request
//! needs. The [`client`] module holds the execution pipeline and its error
//! type; the [`json`] module holds ready-made JSON-backed descriptors; the
//! [`testing`] module holds descriptors and clients with fixed outcomes; the
//! [`laws`] module states what holds of every descriptor and client.

use vstd::prelude::*;

pub mod client;
pub mod json;
pub mod laws;
pub mod testing;

verus! {

/// Possible request methods
#[derive(Debug, Clone, Copy, PartialEq, Eq, Structural)]
pub enum RequestMethod {
    /// The request should use the `HEAD` method
    Head,
    /// The request should use the `GET` method
    Get,
    /// The request should use the `POST` method
    Post,
    /// The request should use the `PUT` method
    Put,
    /// The request should use the `PATCH` method
    Patch,
    /// The request should use the `DELETE` method
    Delete,
}

/// What a descriptor's `body` yields, at the specification level: no body at
/// all, a body of fixed bytes, or a failing encode.
pub enum BodyOutcome {
    /// The request carries no body.
    Absent,
    /// The request carries exactly these bytes.
    Bytes(Seq<u8>),
    /// Producing the body fails with a serialization error.
    Fails,
}

/// Data for a HTTP request & response.
///
/// The four `spec` members are the mathematical account of a descriptor: the
/// executable members are pinned to them, so everything the pipeline does with
/// a descriptor is stated in terms of `url_spec`, `method_spec`, `body_spec`
/// and `response_spec`.
pub trait Queryable<RequiredApiState, ResponseType>: Sized {
    /// The URL of the request, as a function of the narrowed state.
    spec fn url_spec(&self, state: RequiredApiState) -> Seq<char>;

    /// The method of the request, as a function of the narrowed state.
    spec fn method_spec(&self, state: RequiredApiState) -> RequestMethod;

    /// The body of the request, as a function of the narrowed state.
    spec fn body_spec(&self, state: RequiredApiState) -> BodyOutcome;

    /// Which raw response bodies decode, and to what value; `None` where
    /// decoding fails.
    spec fn response_spec(&self, data: Seq<u8>) -> Option<ResponseType>;

    /// The URL of the request
    fn url(&self, state: &RequiredApiState) -> (r: String)
        ensures
            r@ == self.url_spec(*state),
    ;

    /// The method to use for the request
    fn method(&self, state: &RequiredApiState) -> (m: RequestMethod)
        ensures
            m == self.method_spec(*state),
    ;

    /// Creates a JSON body for the request
    fn body(&self, state: &RequiredApiState) -> (b: Option<
        Result<Vec<u8>, serde_json::Error>,
    >)
        ensures
            match b {
                None => self.body_spec(*state) is Absent,
                Some(Ok(v)) => self.body_spec(*state) == BodyOutcome::Bytes(v@),
                Some(Err(_)) => self.body_spec(*state) is Fails,
            },
    ;

    /// Deserializes the API response into the response type
    ///
    /// # Errors
    ///
    /// If deserializing fails
    fn deserialize(&self, data: &[u8]) -> (r: Result<ResponseType, serde_json::Error>)
        ensures
            match r {
                Ok(v) => self.response_spec(data@) == Some(v),
                Err(_) => self.response_spec(data@) is None,
            },
    ;
}

/// A trait that should be implemented for API states,
/// to support giving access to the API state to the queryables.
pub trait FromApiState<ApiState>: Sized {
    /// The narrowed state that `from_state` hands out.
    spec fn from_state_spec(state: ApiState) -> Self;

    /// Gets the wanted state (`Self`) from the current `ApiState`,
    /// by borrowing: never a copy, never a new allocation.
    fn from_state(state: &ApiState) -> (r: &Self)
        ensures
            *r == Self::from_state_spec(*state),
    ;
}

impl<State> FromApiState<State> for State {
    open spec fn from_state_spec(state: State) -> State {
        state
    }

    fn from_state(state: &State) -> (r: &State) {
        state
    }
}

} // verus!
