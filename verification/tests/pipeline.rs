//! Scenario tests for the query pipeline, run against the library's own
//! descriptors and clients with a hand-rolled transport outcome.

use racal::client::build_request;
use racal::client::handle_response;
use racal::client::query_request;
use racal::client::query_response;
use racal::client::ApiError;
use racal::client::BaseUrl;
use racal::client::BasicClient;
use racal::client::HttpResponse;
use racal::client::TransportFailure;
use racal::json::BoolQuery;
use racal::json::NoContent;
use racal::json::Ping;
use racal::json::PingAt;
use racal::json::PingResponse;
use racal::testing::FailingBody;
use racal::testing::RejectingClient;
use racal::FromApiState;
use racal::RequestMethod;

fn ping() -> Ping {
    Ping {
        url: String::from("/ping"),
    }
}

fn plain_client() -> BasicClient<()> {
    BasicClient { state: () }
}

#[test]
fn ping_success_decodes_ok_field() {
    let client = plain_client();
    let req = query_request::<(), BasicClient<()>, (), PingResponse, Ping>(&client, &ping())
        .expect("building a ping request cannot fail");
    assert_eq!(req.url, "/ping");
    let response = HttpResponse {
        status: 200,
        body: b"{\"ok\":true}".to_vec(),
    };
    let out = query_response::<(), PingResponse, Ping>(&ping(), Ok(response));
    assert_eq!(out.unwrap(), PingResponse { ok: true });
}

#[test]
fn ping_bad_status_is_transport_error() {
    let client = plain_client();
    let req = query_request::<(), BasicClient<()>, (), PingResponse, Ping>(&client, &ping())
        .expect("building a ping request cannot fail");
    let response = HttpResponse {
        status: 503,
        body: req.body.unwrap_or_default(),
    };
    let out = query_response::<(), PingResponse, Ping>(&ping(), Ok(response));
    match out {
        Err(ApiError::Transport(TransportFailure::Status(status))) => assert_eq!(status, 503),
        other => panic!("expected a transport error, got {:?}", other),
    }
}

#[test]
fn ping_rejects_noncanonical_document() {
    let out = handle_response::<(), PingResponse, Ping>(
        &ping(),
        HttpResponse {
            status: 200,
            body: b"{\"ok\": true}".to_vec(),
        },
    );
    assert!(matches!(out, Err(ApiError::Serialization(_))));
    let out = handle_response::<(), PingResponse, Ping>(
        &ping(),
        HttpResponse {
            status: 200,
            body: b"{\"ok\":false}".to_vec(),
        },
    );
    assert_eq!(out.unwrap(), PingResponse { ok: false });
}

#[test]
fn default_method_is_get() {
    let req = build_request::<(), PingResponse, Ping>(&(), &ping()).unwrap();
    assert!(matches!(req.method, RequestMethod::Get));
}

#[test]
fn default_body_attaches_nothing() {
    let req = build_request::<(), PingResponse, Ping>(&(), &ping()).unwrap();
    assert!(req.body.is_none());
    assert!(!req.content_type_json);
}

#[test]
fn failing_body_is_serialization_error() {
    let client = plain_client();
    let descriptor = FailingBody {
        url: String::from("/broken"),
    };
    let out = query_request::<(), BasicClient<()>, (), (), FailingBody>(&client, &descriptor);
    assert!(matches!(out, Err(ApiError::Serialization(_))));
}

#[test]
fn rejecting_hook_error_comes_back_verbatim() {
    let client = RejectingClient { state: () };
    let out = query_request::<(), RejectingClient<()>, (), PingResponse, Ping>(&client, &ping());
    assert!(matches!(out, Err(ApiError::Serialization(_))));
}

#[test]
fn transport_failure_is_wrapped_verbatim() {
    let out = query_response::<(), PingResponse, Ping>(
        &ping(),
        Err(TransportFailure::Failed(String::from("connection reset"))),
    );
    match out {
        Err(ApiError::Transport(TransportFailure::Failed(message))) => {
            assert_eq!(message, "connection reset");
        }
        other => panic!("expected a transport error, got {:?}", other),
    }
}

#[test]
fn empty_success_body_decodes_to_unit() {
    let probe = NoContent::new(String::from("/health"));
    let response = HttpResponse {
        status: 200,
        body: Vec::new(),
    };
    let out = handle_response::<(), (), NoContent>(&probe, response);
    assert_eq!(out.unwrap(), ());
}

#[test]
fn null_success_body_decodes_to_unit() {
    let probe = NoContent::new(String::from("/health"));
    let response = HttpResponse {
        status: 200,
        body: b"null".to_vec(),
    };
    let out = handle_response::<(), (), NoContent>(&probe, response);
    assert_eq!(out.unwrap(), ());
}

#[test]
fn garbage_success_body_is_serialization_error() {
    let probe = NoContent::new(String::from("/health"));
    let response = HttpResponse {
        status: 200,
        body: b"{not json".to_vec(),
    };
    let out = handle_response::<(), (), NoContent>(&probe, response);
    assert!(matches!(out, Err(ApiError::Serialization(_))));
}

#[test]
fn bool_round_trip_over_echo_transport() {
    for value in [true, false] {
        let client = plain_client();
        let descriptor = BoolQuery {
            url: String::from("/echo"),
            value,
        };
        let req = query_request::<(), BasicClient<()>, (), bool, BoolQuery>(&client, &descriptor)
            .expect("encoding a boolean cannot fail");
        assert!(matches!(req.method, RequestMethod::Post));
        assert!(req.content_type_json);
        let echoed = req.body.expect("a boolean body is always attached");
        assert_eq!(
            echoed,
            if value {
                b"true".to_vec()
            } else {
                b"false".to_vec()
            }
        );
        let out = query_response::<(), bool, BoolQuery>(
            &descriptor,
            Ok(HttpResponse {
                status: 200,
                body: echoed,
            }),
        );
        assert_eq!(out.unwrap(), value);
    }
}

#[test]
fn bool_decode_rejects_garbage() {
    let descriptor = BoolQuery {
        url: String::from("/echo"),
        value: true,
    };
    let out = handle_response::<(), bool, BoolQuery>(
        &descriptor,
        HttpResponse {
            status: 200,
            body: b"maybe".to_vec(),
        },
    );
    assert!(matches!(out, Err(ApiError::Serialization(_))));
    let out = handle_response::<(), bool, BoolQuery>(
        &descriptor,
        HttpResponse {
            status: 200,
            body: b"false".to_vec(),
        },
    );
    assert_eq!(out.unwrap(), false);
}

#[test]
fn status_edges_of_the_success_range() {
    let probe = NoContent::new(String::from("/health"));
    for status in [199u16, 300u16, 404u16] {
        let out = handle_response::<(), (), NoContent>(
            &probe,
            HttpResponse {
                status,
                body: Vec::new(),
            },
        );
        match out {
            Err(ApiError::Transport(TransportFailure::Status(s))) => assert_eq!(s, status),
            other => panic!("expected a status error, got {:?}", other),
        }
    }
    for status in [200u16, 204u16, 299u16] {
        let out = handle_response::<(), (), NoContent>(
            &probe,
            HttpResponse {
                status,
                body: Vec::new(),
            },
        );
        assert_eq!(out.unwrap(), ());
    }
}

#[test]
fn url_is_built_from_narrowed_state() {
    let state = (
        BaseUrl {
            base: String::from("https://api.example.test"),
        },
        42u8,
    );
    let client = BasicClient { state };
    let descriptor = PingAt {
        path: String::from("/ping"),
    };
    let req = query_request::<(BaseUrl, u8), BasicClient<(BaseUrl, u8)>, BaseUrl, PingResponse, PingAt>(
        &client,
        &descriptor,
    )
    .expect("building the request cannot fail");
    assert_eq!(req.url, "https://api.example.test/ping");
    assert!(matches!(req.method, RequestMethod::Get));
}

#[test]
fn state_narrowing_borrows_the_same_value() {
    let state: u32 = 7;
    let narrowed: &u32 = <u32 as FromApiState<u32>>::from_state(&state);
    assert_eq!(*narrowed, 7);
}
