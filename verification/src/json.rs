//! JSON-backed building blocks: the serialization collaborator's error type,
//! trusted wrappers around the JSON codec, and ready-made descriptors.

use vstd::prelude::*;

use crate::client::BaseUrl;
use crate::BodyOutcome;
use crate::Queryable;
use crate::RequestMethod;

verus! {

/// Relies on serde_json::Error as the opaque failure type of the JSON codec.
#[verifier::external_type_specification]
#[verifier::external_body]
pub struct ExJsonError(serde_json::Error);

/// The exact bytes the JSON codec writes for a boolean.
pub open spec fn json_bool_bytes(b: bool) -> Seq<u8> {
    if b {
        seq![116u8, 114u8, 117u8, 101u8]
    } else {
        seq![102u8, 97u8, 108u8, 115u8, 101u8]
    }
}

/// The bytes of the JSON `null` document.
pub open spec fn json_null_bytes() -> Seq<u8> {
    seq![110u8, 117u8, 108u8, 108u8]
}

/// The boolean a JSON document decodes to, or `None` where it is not a
/// boolean document.
pub uninterp spec fn json_bool_of(data: Seq<u8>) -> Option<bool>;

/// Whether a JSON document decodes as the unit value.
pub uninterp spec fn json_unit_ok(data: Seq<u8>) -> bool;

/// Relies on serde_json::to_vec for bool: it writes exactly `true` or
/// `false`, and writing into a fresh vector cannot fail.
#[verifier::external_body]
pub fn json_encode_bool(b: bool) -> (r: Result<Vec<u8>, serde_json::Error>)
    ensures
        r is Ok,
        r->Ok_0@ == json_bool_bytes(b),
{
    serde_json::to_vec(&b)
}

/// Relies on serde_json::from_slice for bool: the result depends on the bytes
/// alone, and the documents `true` and `false` decode to those booleans.
#[verifier::external_body]
pub fn json_decode_bool(data: &[u8]) -> (r: Result<bool, serde_json::Error>)
    ensures
        r is Ok ==> r->Ok_0 == json_bool_of(data@)->Some_0,
        (r is Ok <==> json_bool_of(data@) is Some),
        data@ == json_bool_bytes(true) ==> r is Ok && r->Ok_0 == true,
        data@ == json_bool_bytes(false) ==> r is Ok && r->Ok_0 == false,
{
    serde_json::from_slice(data)
}

/// Relies on serde_json::from_slice for the unit type: the result depends on
/// the bytes alone, the document `null` decodes to unit, and an empty input is
/// rejected as not being a JSON document at all.
#[verifier::external_body]
pub fn json_decode_unit(data: &[u8]) -> (r: Result<(), serde_json::Error>)
    ensures
        (r is Ok <==> json_unit_ok(data@)),
        data@ == json_null_bytes() ==> r is Ok,
        data@ == Seq::<u8>::empty() ==> r is Err,
{
    serde_json::from_slice(data)
}

/// An error value of the codec, for decoders of the library's own: an empty
/// input is no JSON document, so decoding it always yields one.
pub(crate) fn json_error_value() -> serde_json::Error {
    let empty: [u8; 0] = [];
    proof {
        assert(empty@ =~= Seq::<u8>::empty());
    }
    match json_decode_unit(empty.as_slice()) {
        Err(cause) => cause,
        Ok(_) => unreached(),
    }
}

/// The canonical flag document: `{"ok":true}` or `{"ok":false}`, with no
/// surrounding whitespace.
pub open spec fn flag_doc(ok: bool) -> Seq<u8> {
    if ok {
        seq![123u8, 34u8, 111u8, 107u8, 34u8, 58u8, 116u8, 114u8, 117u8, 101u8, 125u8]
    } else {
        seq![123u8, 34u8, 111u8, 107u8, 34u8, 58u8, 102u8, 97u8, 108u8, 115u8, 101u8, 125u8]
    }
}

/// The canonical flag document, as bytes a caller can compare against.
pub fn flag_doc_vec(ok: bool) -> (v: Vec<u8>)
    ensures
        v@ == flag_doc(ok),
{
    let mut v: Vec<u8> = Vec::new();
    v.push(123u8);
    v.push(34u8);
    v.push(111u8);
    v.push(107u8);
    v.push(34u8);
    v.push(58u8);
    if ok {
        v.push(116u8);
        v.push(114u8);
        v.push(117u8);
        v.push(101u8);
    } else {
        v.push(102u8);
        v.push(97u8);
        v.push(108u8);
        v.push(115u8);
        v.push(101u8);
    }
    v.push(125u8);
    proof {
        assert(v@ =~= flag_doc(ok));
    }
    v
}

/// Whether a slice holds exactly the given bytes.
pub fn slice_matches(data: &[u8], expected: &Vec<u8>) -> (r: bool)
    ensures
        r <==> data@ == expected@,
{
    if data.len() != expected.len() {
        return false;
    }
    let mut i: usize = 0;
    while i < data.len()
        invariant
            0 <= i <= data@.len(),
            data@.len() == expected@.len(),
            forall|j: int| 0 <= j < i ==> data@[j] == expected@[j],
        decreases data@.len() - i,
    {
        if data[i] != expected[i] {
            return false;
        }
        i = i + 1;
    }
    proof {
        assert(data@ =~= expected@);
    }
    true
}

/// The value the canonical flag documents decode to; `None` for any other
/// bytes.
pub open spec fn flag_response_spec(data: Seq<u8>) -> Option<PingResponse> {
    if data == flag_doc(true) {
        Some(PingResponse { ok: true })
    } else if data == flag_doc(false) {
        Some(PingResponse { ok: false })
    } else {
        None
    }
}

/// Decodes exactly the canonical flag documents; anything else is a
/// serialization error.
pub fn decode_flag(data: &[u8]) -> (r: Result<PingResponse, serde_json::Error>)
    ensures
        match r {
            Ok(v) => flag_response_spec(data@) == Some(v),
            Err(_) => flag_response_spec(data@) is None,
        },
{
    let yes = flag_doc_vec(true);
    if slice_matches(data, &yes) {
        return Ok(PingResponse { ok: true });
    }
    let no = flag_doc_vec(false);
    if slice_matches(data, &no) {
        Ok(PingResponse { ok: false })
    } else {
        Err(json_error_value())
    }
}

/// The response of a flag endpoint: a single `ok` field.
#[derive(Debug, Clone, Copy, PartialEq, Eq, Structural)]
pub struct PingResponse {
    /// Whether the endpoint reported itself well.
    pub ok: bool,
}

/// A descriptor for a flag endpoint: the default `GET` method, no body, and a
/// response of the canonical `{"ok":...}` shape.
///
/// Its `deserialize` accepts exactly the canonical documents; anything else
/// is a serialization error.
pub struct Ping {
    /// The URL the request targets.
    pub url: String,
}

impl<S> Queryable<S, PingResponse> for Ping {
    open spec fn url_spec(&self, state: S) -> Seq<char> {
        self.url@
    }

    open spec fn method_spec(&self, state: S) -> RequestMethod {
        RequestMethod::Get
    }

    open spec fn body_spec(&self, state: S) -> BodyOutcome {
        BodyOutcome::Absent
    }

    open spec fn response_spec(&self, data: Seq<u8>) -> Option<PingResponse> {
        flag_response_spec(data)
    }

    fn url(&self, state: &S) -> (r: String) {
        self.url.clone()
    }

    fn method(&self, state: &S) -> (m: RequestMethod) {
        RequestMethod::Get
    }

    fn body(&self, state: &S) -> (b: Option<Result<Vec<u8>, serde_json::Error>>) {
        None
    }

    fn deserialize(&self, data: &[u8]) -> (r: Result<PingResponse, serde_json::Error>) {
        decode_flag(data)
    }
}

/// A flag-endpoint descriptor whose target is computed from the client's
/// state: the base URL comes out of the narrowed [`BaseUrl`] slice, with this
/// descriptor's path appended.
pub struct PingAt {
    /// The path appended to the state's base URL.
    pub path: String,
}

impl Queryable<BaseUrl, PingResponse> for PingAt {
    open spec fn url_spec(&self, state: BaseUrl) -> Seq<char> {
        state.base@ + self.path@
    }

    open spec fn method_spec(&self, state: BaseUrl) -> RequestMethod {
        RequestMethod::Get
    }

    open spec fn body_spec(&self, state: BaseUrl) -> BodyOutcome {
        BodyOutcome::Absent
    }

    open spec fn response_spec(&self, data: Seq<u8>) -> Option<PingResponse> {
        flag_response_spec(data)
    }

    fn url(&self, state: &BaseUrl) -> (r: String) {
        state.base.clone().concat(self.path.as_str())
    }

    fn method(&self, state: &BaseUrl) -> (m: RequestMethod) {
        RequestMethod::Get
    }

    fn body(&self, state: &BaseUrl) -> (b: Option<Result<Vec<u8>, serde_json::Error>>) {
        None
    }

    fn deserialize(&self, data: &[u8]) -> (r: Result<PingResponse, serde_json::Error>) {
        decode_flag(data)
    }
}

/// A descriptor for endpoints whose interesting answer is only the status:
/// it sends no body and accepts an empty or `null` response body as unit.
///
/// Its `deserialize` maps empty bytes to the unit value directly, because an
/// empty payload is not a standalone JSON document.
pub struct NoContent {
    /// The URL the request targets.
    pub url: String,
    /// The method of the request.
    pub method: RequestMethod,
}

impl NoContent {
    /// A descriptor for `url` with the default `GET` method.
    pub fn new(url: String) -> (r: NoContent)
        ensures
            r.url == url,
            r.method == RequestMethod::Get,
    {
        NoContent { url, method: RequestMethod::Get }
    }
}

impl<S> Queryable<S, ()> for NoContent {
    open spec fn url_spec(&self, state: S) -> Seq<char> {
        self.url@
    }

    open spec fn method_spec(&self, state: S) -> RequestMethod {
        self.method
    }

    open spec fn body_spec(&self, state: S) -> BodyOutcome {
        BodyOutcome::Absent
    }

    open spec fn response_spec(&self, data: Seq<u8>) -> Option<()> {
        if data.len() == 0 || json_unit_ok(data) {
            Some(())
        } else {
            None
        }
    }

    fn url(&self, state: &S) -> (r: String) {
        self.url.clone()
    }

    fn method(&self, state: &S) -> (m: RequestMethod) {
        self.method
    }

    fn body(&self, state: &S) -> (b: Option<Result<Vec<u8>, serde_json::Error>>) {
        None
    }

    fn deserialize(&self, data: &[u8]) -> (r: Result<(), serde_json::Error>) {
        if data.len() == 0 {
            Ok(())
        } else {
            json_decode_unit(data)
        }
    }
}

/// A descriptor that sends a boolean as a JSON body and expects a JSON
/// boolean back.
pub struct BoolQuery {
    /// The URL the request targets.
    pub url: String,
    /// The boolean the request carries.
    pub value: bool,
}

impl<S> Queryable<S, bool> for BoolQuery {
    open spec fn url_spec(&self, state: S) -> Seq<char> {
        self.url@
    }

    open spec fn method_spec(&self, state: S) -> RequestMethod {
        RequestMethod::Post
    }

    open spec fn body_spec(&self, state: S) -> BodyOutcome {
        BodyOutcome::Bytes(json_bool_bytes(self.value))
    }

    open spec fn response_spec(&self, data: Seq<u8>) -> Option<bool> {
        json_bool_of(data)
    }

    fn url(&self, state: &S) -> (r: String) {
        self.url.clone()
    }

    fn method(&self, state: &S) -> (m: RequestMethod) {
        RequestMethod::Post
    }

    fn body(&self, state: &S) -> (b: Option<Result<Vec<u8>, serde_json::Error>>) {
        Some(json_encode_bool(self.value))
    }

    fn deserialize(&self, data: &[u8]) -> (r: Result<bool, serde_json::Error>) {
        json_decode_bool(data)
    }
}

} // verus!
