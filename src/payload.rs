//! The payload of the root route and the reply that carries it.

use vstd::prelude::*;
use crate::json::{decimal_text, field_object, is_plain, object_of};

verus! {

/// The value of the `data` member, the same on every request.
pub const ANSWER: i64 = 42;

/// The HTTP status of a reply that carries the payload.
pub const STATUS_OK: u16 = 200;

/// The payload of the root route: a JSON object with one integer member.
#[derive(Debug, Clone, Copy, PartialEq, Eq, Structural)]
pub struct Payload {
    pub data: i64,
}

/// The key of the payload's one member.
pub open spec fn data_key() -> Seq<char> {
    seq!['d', 'a', 't', 'a']
}

/// The compact JSON text of a payload whose member holds `data`.
pub open spec fn payload_body(data: int) -> Seq<char> {
    object_of(seq!['"'] + data_key() + seq!['"'], decimal_text(data))
}

/// The exact body of every reply of the root route.
pub open spec fn answer_body() -> Seq<char> {
    seq!['{', '"', 'd', 'a', 't', 'a', '"', ':', '4', '2', '}']
}

/// A reply to a request: its status, the media type of its body, and the body.
#[derive(Debug, Clone, PartialEq, Eq)]
pub struct Reply {
    pub status: u16,
    pub content_type: String,
    pub body: String,
}

/// What a reply of the root route is: status 200, a JSON body, and that body
/// the compact text of the payload.
pub open spec fn is_answer_reply(r: Reply) -> bool {
    &&& r.status == STATUS_OK
    &&& r.content_type@ == "application/json"@
    &&& r.body@ == answer_body()
}

/// The handler of the root route: it reads nothing of the request and makes
/// the same payload every time.
pub fn root() -> (r: Payload)
    ensures
        r.data == ANSWER,
{
    Payload { data: ANSWER }
}

impl Payload {
    /// The compact JSON text of the payload.
    pub fn to_json(&self) -> (r: String)
        ensures
            r@ == payload_body(self.data as int),
    {
        let key = "data";
        proof {
            reveal_strlit("data");
            assert(key@ =~= data_key());
            assert(is_plain(key@));
        }
        field_object(key, self.data)
    }
}

/// The reply to a GET of the root path, whatever the request's headers, query
/// or body hold.
pub fn respond() -> (r: Reply)
    ensures
        is_answer_reply(r),
{
    let payload = root();
    let body = payload.to_json();
    proof {
        answer_text();
    }
    Reply { status: STATUS_OK, content_type: "application/json".to_owned(), body }
}

/// The payload's text is the object `{"data":42}`: the member is the integer
/// 42, written without quotes.
pub proof fn answer_text()
    ensures
        payload_body(ANSWER as int) == answer_body(),
{
    reveal_with_fuel(crate::json::digits, 3);
    assert(payload_body(ANSWER as int) =~= answer_body());
}

/// Any two replies of the root route are identical, byte for byte: the same
/// status, the same media type and the same body.
pub proof fn replies_identical(a: Reply, b: Reply)
    requires
        is_answer_reply(a),
        is_answer_reply(b),
    ensures
        a.status == b.status,
        a.content_type@ == b.content_type@,
        a.body@ == b.body@,
{
}

} // verus!
