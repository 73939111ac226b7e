use vstd::prelude::*;

verus! {

/// A JSON document as serde_json holds it; opaque to proofs.
#[verifier::external_type_specification]
#[verifier::external_body]
pub struct ExValue(serde_json::Value);

/// serde_json's parse error; opaque to proofs.
#[verifier::external_type_specification]
#[verifier::external_body]
pub struct ExJsonError(serde_json::Error);

/// Whether a text is one well-formed JSON document, as serde_json decides it.
pub uninterp spec fn is_json_text(s: Seq<char>) -> bool;

/// The JSON value that a well-formed text stands for, as serde_json reads it.
pub uninterp spec fn json_of(s: Seq<char>) -> serde_json::Value;

/// The member of a JSON object under a key, as serde_json looks it up.
pub uninterp spec fn member_of(v: serde_json::Value, key: Seq<char>) -> Option<serde_json::Value>;

/// The compact JSON text of a value, as serde_json writes it.
pub uninterp spec fn text_of(v: serde_json::Value) -> Seq<char>;

/// Relies on serde_json::from_str::<Value>: it succeeds exactly on well-formed
/// JSON text, and what it returns depends on the text alone.
#[verifier::external_body]
pub(crate) fn parse_json(s: &str) -> (r: Result<serde_json::Value, serde_json::Error>)
    ensures
        r is Ok <==> is_json_text(s@),
        r is Ok ==> r->Ok_0 == json_of(s@),
{
    serde_json::from_str::<serde_json::Value>(s)
}

/// Relies on serde_json::Value::get with a string key: the member of an object
/// under that key, if there is one; it depends on the value and the key alone.
#[verifier::external_body]
pub(crate) fn json_member<'a>(v: &'a serde_json::Value, key: &str) -> (r: Option<&'a serde_json::Value>)
    ensures
        r is Some <==> member_of(*v, key@) is Some,
        r is Some ==> *r->Some_0 == member_of(*v, key@)->Some_0,
{
    v.get(key)
}

/// Relies on serde_json::Value's `Display`: the value's compact JSON text, so
/// that a string keeps its quote characters; it depends on the value alone.
#[verifier::external_body]
pub(crate) fn json_text(v: &serde_json::Value) -> (r: String)
    ensures
        r@ == text_of(*v),
{
    v.to_string()
}

/// What can go wrong when the CI server is asked something.
#[derive(PartialEq, Eq, Structural, Clone, Copy, Debug)]
pub enum ApiError {
    /// The server could not be reached (name lookup, connection, timeout).
    Transport,
    /// The server answered with a status code outside `200..300`.
    UpstreamStatus { code: u16 },
    /// The body of a successful answer is not JSON.
    Decode,
    /// A build carries a `status` but no `number`.
    MissingNumber,
}

/// An answer of the CI server, as it came over the wire.
pub struct RawResponse {
    pub status: u16,
    pub body: String,
}

/// A status code of success.
pub open spec fn is_success(code: u16) -> bool {
    200 <= code < 300
}

/// Turns what a request brought back into JSON: an earlier failure is passed
/// on, a status outside `200..300` becomes `UpstreamStatus`, a body that is not
/// JSON becomes `Decode`.
pub fn api_json(arb: Result<RawResponse, ApiError>) -> (r: Result<serde_json::Value, ApiError>)
    ensures
        arb is Err ==> r == Err::<serde_json::Value, ApiError>(arb->Err_0),
        arb is Ok && !is_success(arb->Ok_0.status) ==> r == Err::<serde_json::Value, ApiError>(
            ApiError::UpstreamStatus { code: arb->Ok_0.status },
        ),
        arb is Ok && is_success(arb->Ok_0.status) ==> (r is Ok <==> is_json_text(arb->Ok_0.body@)),
        arb is Ok && is_success(arb->Ok_0.status) && is_json_text(arb->Ok_0.body@) ==> r
            == Ok::<serde_json::Value, ApiError>(json_of(arb->Ok_0.body@)),
        arb is Ok && is_success(arb->Ok_0.status) && !is_json_text(arb->Ok_0.body@) ==> r
            == Err::<serde_json::Value, ApiError>(ApiError::Decode),
{
    match arb {
        Err(e) => Err(e),
        Ok(raw) => {
            if raw.status < 200 || raw.status >= 300 {
                Err(ApiError::UpstreamStatus { code: raw.status })
            } else {
                match parse_json(raw.body.as_str()) {
                    Ok(v) => Ok(v),
                    Err(_) => Err(ApiError::Decode),
                }
            }
        },
    }
}

} // verus!
