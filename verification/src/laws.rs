//! The pipeline's laws: what holds of every descriptor and every client,
//! proved once from the contracts of the pipeline's pieces.

use vstd::prelude::*;

use crate::client::is_success;
use crate::client::prepared_spec;
use crate::client::query_spec;
use crate::client::request_spec;
use crate::client::ApiClient;
use crate::client::ApiErrorKind;
use crate::client::RequestModel;
use crate::client::TransportKind;
use crate::BodyOutcome;
use crate::FromApiState;
use crate::Queryable;
use crate::RequestMethod;

verus! {

/// A descriptor that keeps the default `GET` method issues a `GET` request:
/// with a method of `Get`, a body that encodes, and a hook that passes the
/// built request on, the request handed to the transport carries `Get`.
pub proof fn lemma_default_method_is_get<State, C: ApiClient<State>, FS: FromApiState<State>, R, Q: Queryable<FS, R>>(
    client: &C,
    queryable: &Q,
    narrowed: FS,
)
    requires
        narrowed == FS::from_state_spec(client.state_spec()),
        queryable.method_spec(narrowed) == RequestMethod::Get,
        !(queryable.body_spec(narrowed) is Fails),
        client.hook_spec(request_spec(queryable, narrowed)) == Ok::<RequestModel, ApiErrorKind>(
            request_spec(queryable, narrowed),
        ),
    ensures
        prepared_spec(client, queryable) is Ok,
        prepared_spec(client, queryable)->Ok_0.method == RequestMethod::Get,
{
}

/// A descriptor that keeps the default body sends none: with an absent body
/// and a hook that passes the built request on, the request handed to the
/// transport carries no body and no JSON content-type header.
pub proof fn lemma_default_body_is_empty<State, C: ApiClient<State>, FS: FromApiState<State>, R, Q: Queryable<FS, R>>(
    client: &C,
    queryable: &Q,
    narrowed: FS,
)
    requires
        narrowed == FS::from_state_spec(client.state_spec()),
        queryable.body_spec(narrowed) is Absent,
        client.hook_spec(request_spec(queryable, narrowed)) == Ok::<RequestModel, ApiErrorKind>(
            request_spec(queryable, narrowed),
        ),
    ensures
        prepared_spec(client, queryable) is Ok,
        prepared_spec(client, queryable)->Ok_0.body is None,
        !prepared_spec(client, queryable)->Ok_0.content_type_json,
{
}

/// A failing body encode decides the query alone: the result is a
/// serialization error whatever the transport would have answered, so the
/// transport cannot influence such a query and nothing is sent for it.
pub proof fn lemma_body_failure_skips_transport<State, C: ApiClient<State>, FS: FromApiState<State>, R, Q: Queryable<FS, R>>(
    client: &C,
    queryable: &Q,
    narrowed: FS,
)
    requires
        narrowed == FS::from_state_spec(client.state_spec()),
        queryable.body_spec(narrowed) is Fails,
    ensures
        forall|outcome: Result<(u16, Seq<u8>), TransportKind>|
            #[trigger] query_spec(client, queryable, outcome) == Err::<R, ApiErrorKind>(
                ApiErrorKind::Serialization,
            ),
{
}

/// A rejecting hook decides the query alone: its error shape is the result
/// whatever the transport would have answered, so nothing is sent for such a
/// query.
pub proof fn lemma_hook_failure_skips_transport<State, C: ApiClient<State>, FS: FromApiState<State>, R, Q: Queryable<FS, R>>(
    client: &C,
    queryable: &Q,
    narrowed: FS,
    kind: ApiErrorKind,
)
    requires
        narrowed == FS::from_state_spec(client.state_spec()),
        !(queryable.body_spec(narrowed) is Fails),
        client.hook_spec(request_spec(queryable, narrowed)) == Err::<RequestModel, ApiErrorKind>(
            kind,
        ),
    ensures
        forall|outcome: Result<(u16, Seq<u8>), TransportKind>|
            #[trigger] query_spec(client, queryable, outcome) == Err::<R, ApiErrorKind>(kind),
{
}

/// A response status outside the success range decides the query alone: the
/// result is a transport error carrying that status, whatever bytes the body
/// holds, so the descriptor's decoder is never consulted.
pub proof fn lemma_bad_status_hides_body<State, C: ApiClient<State>, FS: FromApiState<State>, R, Q: Queryable<FS, R>>(
    client: &C,
    queryable: &Q,
    status: u16,
)
    requires
        prepared_spec(client, queryable) is Ok,
        !is_success(status),
    ensures
        forall|body: Seq<u8>|
            #[trigger] query_spec(client, queryable, Ok((status, body))) == Err::<
                R,
                ApiErrorKind,
            >(ApiErrorKind::Transport(TransportKind::Status(status))),
{
}

/// On a delivered success response, the query returns exactly what the
/// descriptor's decoder makes of the full raw body: the decoded value, or a
/// serialization error where the body does not decode.
pub proof fn lemma_success_is_deserialize<State, C: ApiClient<State>, FS: FromApiState<State>, R, Q: Queryable<FS, R>>(
    client: &C,
    queryable: &Q,
    status: u16,
    body: Seq<u8>,
)
    requires
        prepared_spec(client, queryable) is Ok,
        is_success(status),
    ensures
        query_spec(client, queryable, Ok((status, body))) == (match queryable.response_spec(
            body,
        ) {
            Some(v) => Ok::<R, ApiErrorKind>(v),
            None => Err::<R, ApiErrorKind>(ApiErrorKind::Serialization),
        }),
{
}

/// Round trip: where the descriptor's body encodes a value its own decoder
/// accepts back, a transport that echoes the body with a success status
/// yields exactly that value.
pub proof fn lemma_round_trip<State, C: ApiClient<State>, FS: FromApiState<State>, R, Q: Queryable<FS, R>>(
    client: &C,
    queryable: &Q,
    narrowed: FS,
    bytes: Seq<u8>,
    value: R,
)
    requires
        narrowed == FS::from_state_spec(client.state_spec()),
        queryable.body_spec(narrowed) == BodyOutcome::Bytes(bytes),
        queryable.response_spec(bytes) == Some(value),
        client.hook_spec(request_spec(queryable, narrowed)) == Ok::<RequestModel, ApiErrorKind>(
            request_spec(queryable, narrowed),
        ),
    ensures
        query_spec(client, queryable, Ok((200u16, bytes))) == Ok::<R, ApiErrorKind>(value),
{
}

} // verus!
