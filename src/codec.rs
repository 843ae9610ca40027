//! Request and response envelopes of JSON-RPC 2.0.
use vstd::prelude::*;

use crate::json::{Json, json_parse, json_text, parse_json, json_to_bytes};

verus! {

/// Why a response body could not be read.
#[derive(Debug, PartialEq, Eq, Structural)]
pub enum CodecError {
    /// The body is no JSON text, or no object holding exactly one of
    /// `result` and a well-formed `error`.
    Malformed,
    /// The `result` value does not have the shape that the caller expects.
    ShapeMismatch,
}

/// The kind of a server-reported error: a number, or a symbolic name.
#[derive(Debug, PartialEq)]
pub enum ErrorCode {
    Numeric(serde_json::Number),
    Symbolic(String),
}

/// An error that the server reported in the `error` member of a response.
#[derive(Debug, PartialEq)]
pub struct StructuredError {
    pub code: ErrorCode,
    pub message: String,
    pub data: Option<Json>,
}

/// A response envelope: exactly one of a result and a structured error.
#[derive(Debug, PartialEq)]
pub enum ParsedEnvelope {
    Success { id: Option<Json>, result: Json },
    Failure { id: Option<Json>, error: StructuredError },
}

/// The value of the first member named `key`, if any.
pub open spec fn member(fields: Seq<(String, Json)>, key: Seq<char>) -> Option<Json>
    decreases fields.len(),
{
    if fields.len() == 0 {
        None
    } else if fields[0].0@ == key {
        Some(fields[0].1)
    } else {
        member(fields.drop_first(), key)
    }
}

/// The error kind that a `code` value denotes: a number or a string.
pub open spec fn code_of(value: Option<Json>) -> Option<ErrorCode> {
    match value {
        Some(Json::Number(n)) => Some(ErrorCode::Numeric(n)),
        Some(Json::Str(s)) => Some(ErrorCode::Symbolic(s)),
        _ => None,
    }
}

/// The structured error that an `error` value denotes: an object with a
/// numeric or string `code` and a string `message`, and optionally `data`.
pub open spec fn error_of(value: Json) -> Option<StructuredError> {
    match value {
        Json::Object(fields) => match (code_of(member(fields@, "code"@)), member(fields@, "message"@)) {
            (Some(code), Some(Json::Str(message))) => Some(
                StructuredError { code, message, data: member(fields@, "data"@) },
            ),
            _ => None,
        },
        _ => None,
    }
}

/// The envelope that a response body denotes.
pub open spec fn envelope_of(body: Json) -> Result<ParsedEnvelope, CodecError> {
    match body {
        Json::Object(fields) => {
            let id = member(fields@, "id"@);
            match (member(fields@, "result"@), member(fields@, "error"@)) {
                (Some(result), None) => Ok(ParsedEnvelope::Success { id, result }),
                (None, Some(e)) => match error_of(e) {
                    Some(error) => Ok(ParsedEnvelope::Failure { id, error }),
                    None => Err(CodecError::Malformed),
                },
                _ => Err(CodecError::Malformed),
            }
        },
        _ => Err(CodecError::Malformed),
    }
}

/// What decoding the bytes of a response yields.
pub open spec fn decoded(bytes: Seq<u8>) -> Result<ParsedEnvelope, CodecError> {
    match json_parse(bytes) {
        Some(body) => envelope_of(body),
        None => Err(CodecError::Malformed),
    }
}

/// `req` is the request envelope of a call of `method` with `params`, under
/// the identifier `id`: its members, in this order, are `jsonrpc` ("2.0"),
/// `id`, `method` and `params`.
pub open spec fn is_request(req: Json, id: Seq<char>, method: Seq<char>, params: Json) -> bool {
    match req {
        Json::Object(fields) => {
            &&& fields@.len() == 4
            &&& fields@[0].0@ == "jsonrpc"@
            &&& (fields@[0].1 matches Json::Str(v) && v@ == "2.0"@)
            &&& fields@[1].0@ == "id"@
            &&& (fields@[1].1 matches Json::Str(v) && v@ == id)
            &&& fields@[2].0@ == "method"@
            &&& (fields@[2].1 matches Json::Str(v) && v@ == method)
            &&& fields@[3].0@ == "params"@
            &&& fields@[3].1 == params
        },
        _ => false,
    }
}

/// The `params` member of a request envelope.
pub open spec fn params_member(req: Json) -> Option<Json> {
    match req {
        Json::Object(fields) => member(fields@, "params"@),
        _ => None,
    }
}

/// The `params` member of the request that the bytes hold.
pub open spec fn request_params(bytes: Seq<u8>) -> Option<Json> {
    match json_parse(bytes) {
        Some(req) => params_member(req),
        None => None,
    }
}

/// An empty array: the parameters of a call that takes no arguments.
pub open spec fn is_empty_array(value: Json) -> bool {
    value matches Json::Array(items) && items@.len() == 0
}

proof fn lemma_member_step(fields: Seq<(String, Json)>, j: int, key: Seq<char>)
    requires
        0 <= j < fields.len(),
    ensures
        member(fields.subrange(j, fields.len() as int), key) == if fields[j].0@ == key {
            Some(fields[j].1)
        } else {
            member(fields.subrange(j + 1, fields.len() as int), key)
        },
{
    assert(fields.subrange(j, fields.len() as int).drop_first() =~= fields.subrange(
        j + 1,
        fields.len() as int,
    ));
}

/// Takes apart an object's members, keeping the values of the first members
/// named by three distinct keys.
fn take_members(fields: Vec<(String, Json)>, k0: &String, k1: &String, k2: &String) -> (r: (
    Option<Json>,
    Option<Json>,
    Option<Json>,
))
    requires
        k0@ != k1@,
        k0@ != k2@,
        k1@ != k2@,
    ensures
        r.0 == member(fields@, k0@),
        r.1 == member(fields@, k1@),
        r.2 == member(fields@, k2@),
{
    let ghost all = fields@;
    let mut rest = fields;
    let mut v0: Option<Json> = None;
    let mut v1: Option<Json> = None;
    let mut v2: Option<Json> = None;
    assert(all.subrange(all.len() as int, all.len() as int) =~= Seq::<(String, Json)>::empty());
    while rest.len() > 0
        invariant
            k0@ != k1@,
            k0@ != k2@,
            k1@ != k2@,
            rest@.len() <= all.len(),
            rest@ == all.subrange(0, rest@.len() as int),
            v0 == member(all.subrange(rest@.len() as int, all.len() as int), k0@),
            v1 == member(all.subrange(rest@.len() as int, all.len() as int), k1@),
            v2 == member(all.subrange(rest@.len() as int, all.len() as int), k2@),
        decreases rest@.len(),
    {
        let ghost j = rest@.len() - 1;
        proof {
            lemma_member_step(all, j, k0@);
            lemma_member_step(all, j, k1@);
            lemma_member_step(all, j, k2@);
        }
        match rest.pop() {
            Some((k, v)) => {
                if k == *k0 {
                    v0 = Some(v);
                } else if k == *k1 {
                    v1 = Some(v);
                } else if k == *k2 {
                    v2 = Some(v);
                }
            },
            None => {},
        }
    }
    assert(all.subrange(0, all.len() as int) =~= all);
    (v0, v1, v2)
}

/// Reads a structured error from the value of an `error` member.
fn error_from_json(value: Json) -> (r: Option<StructuredError>)
    ensures
        r == error_of(value),
{
    match value {
        Json::Object(fields) => {
            let code_key = "code".to_owned();
            let message_key = "message".to_owned();
            let data_key = "data".to_owned();
            proof {
                reveal_strlit("code");
                reveal_strlit("message");
                reveal_strlit("data");
                assert("code"@[0] != "data"@[0]);
                assert("code"@.len() != "message"@.len());
                assert("data"@.len() != "message"@.len());
            }
            let (code, message, data) = take_members(fields, &code_key, &message_key, &data_key);
            let kind = match code {
                Some(Json::Number(n)) => Some(ErrorCode::Numeric(n)),
                Some(Json::Str(s)) => Some(ErrorCode::Symbolic(s)),
                _ => None,
            };
            match (kind, message) {
                (Some(code), Some(Json::Str(message))) => Some(
                    StructuredError { code, message, data },
                ),
                _ => None,
            }
        },
        _ => None,
    }
}

/// Classifies a response body as a success or a failure.
pub fn envelope_from_json(body: Json) -> (r: Result<ParsedEnvelope, CodecError>)
    ensures
        r == envelope_of(body),
{
    match body {
        Json::Object(fields) => {
            let id_key = "id".to_owned();
            let result_key = "result".to_owned();
            let error_key = "error".to_owned();
            proof {
                reveal_strlit("id");
                reveal_strlit("result");
                reveal_strlit("error");
                assert("id"@.len() != "result"@.len());
                assert("id"@.len() != "error"@.len());
                assert("result"@.len() != "error"@.len());
            }
            let (id, result, error) = take_members(fields, &id_key, &result_key, &error_key);
            match (result, error) {
                (Some(result), None) => Ok(ParsedEnvelope::Success { id, result }),
                (None, Some(e)) => match error_from_json(e) {
                    Some(error) => Ok(ParsedEnvelope::Failure { id, error }),
                    None => Err(CodecError::Malformed),
                },
                _ => Err(CodecError::Malformed),
            }
        },
        _ => Err(CodecError::Malformed),
    }
}

/// Parses the bytes of a response into its envelope.
pub fn decode(bytes: &[u8]) -> (r: Result<ParsedEnvelope, CodecError>)
    ensures
        r == decoded(bytes@),
{
    match parse_json(bytes) {
        Some(body) => envelope_from_json(body),
        None => Err(CodecError::Malformed),
    }
}

/// The parameters of a call that takes no arguments: an empty array, never null.
pub fn no_params() -> (r: Json)
    ensures
        is_empty_array(r),
{
    Json::Array(Vec::new())
}

/// Builds the request envelope of a call of `method` with `params`.
pub fn request_envelope(id: &str, method: &str, params: Json) -> (r: Json)
    ensures
        is_request(r, id@, method@, params),
{
    let mut fields: Vec<(String, Json)> = Vec::new();
    fields.push(("jsonrpc".to_owned(), Json::Str("2.0".to_owned())));
    fields.push(("id".to_owned(), Json::Str(id.to_owned())));
    fields.push(("method".to_owned(), Json::Str(method.to_owned())));
    fields.push(("params".to_owned(), params));
    proof {
        reveal_strlit("jsonrpc");
        reveal_strlit("2.0");
        reveal_strlit("id");
        reveal_strlit("method");
        reveal_strlit("params");
    }
    Json::Object(fields)
}

proof fn lemma_request_params(req: Json, id: Seq<char>, method: Seq<char>, params: Json)
    requires
        is_request(req, id, method, params),
    ensures
        params_member(req) == Some(params),
{
    reveal_strlit("jsonrpc");
    reveal_strlit("id");
    reveal_strlit("method");
    reveal_strlit("params");
    if let Json::Object(fields) = req {
        let f = fields@;
        reveal_with_fuel(member, 4);
        assert(f.drop_first()[0] == f[1]);
        assert(f.drop_first().drop_first()[0] == f[2]);
        assert(f.drop_first().drop_first().drop_first()[0] == f[3]);
        assert(f[0].0@ != "params"@) by {
            assert(f[0].0@.len() != "params"@.len());
        }
        assert(f[1].0@ != "params"@) by {
            assert(f[1].0@.len() != "params"@.len());
        }
        assert(f[2].0@ != "params"@) by {
            assert(f[2].0@[0] != "params"@[0]);
        }
    }
}

/// The value of the member `key` of an object.
pub open spec fn member_of(value: Json, key: Seq<char>) -> Option<Json> {
    match value {
        Json::Object(fields) => member(fields@, key),
        _ => None,
    }
}

/// Round trip: where the text of a request envelope reads back as an object
/// whose every member has the value it has in the envelope (in whatever
/// order the members come), the `params` that an echo of those bytes holds
/// are the parameters the call was made with.
pub proof fn law_params_round_trip(req: Json, id: Seq<char>, method: Seq<char>, params: Json)
    requires
        is_request(req, id, method, params),
        forall|key: Seq<char>| #[trigger] body_member(json_text(req), key) == member_of(req, key),
    ensures
        request_params(json_text(req)) == Some(params),
{
    lemma_request_params(req, id, method, params);
    assert(body_member(json_text(req), "params"@) == member_of(req, "params"@));
}

/// A call without arguments sends an empty array as its `params`, never null
/// and never an absent member.
pub proof fn law_no_arguments_send_empty_array(req: Json, id: Seq<char>, method: Seq<char>, params: Json)
    requires
        is_request(req, id, method, params),
        is_empty_array(params),
    ensures
        params_member(req) matches Some(p) && is_empty_array(p),
        params_member(req) != Some(Json::Null),
{
    lemma_request_params(req, id, method, params);
}

/// Whether the bytes are the text of a JSON object.
pub open spec fn is_object_text(bytes: Seq<u8>) -> bool {
    json_parse(bytes) matches Some(Json::Object(_))
}

/// The value of the member `key` of the object that the bytes hold.
pub open spec fn body_member(bytes: Seq<u8>, key: Seq<char>) -> Option<Json> {
    match json_parse(bytes) {
        Some(Json::Object(fields)) => member(fields@, key),
        _ => None,
    }
}

/// A body whose object holds `result` and no `error` decodes to a success;
/// one that holds a well-formed `error` and no `result` decodes to a failure;
/// one that is no JSON object, or holds neither member, is malformed.
pub proof fn law_response_variants(bytes: Seq<u8>)
    ensures
        is_object_text(bytes) && body_member(bytes, "result"@) is Some && body_member(bytes, "error"@) is None
            ==> decoded(bytes) == Ok::<ParsedEnvelope, CodecError>(ParsedEnvelope::Success {
                id: body_member(bytes, "id"@),
                result: body_member(bytes, "result"@).unwrap(),
            }),
        is_object_text(bytes) && body_member(bytes, "error"@) is Some && body_member(bytes, "result"@) is None
            && error_of(body_member(bytes, "error"@).unwrap()) is Some
            ==> decoded(bytes) == Ok::<ParsedEnvelope, CodecError>(ParsedEnvelope::Failure {
                id: body_member(bytes, "id"@),
                error: error_of(body_member(bytes, "error"@).unwrap()).unwrap(),
            }),
        !is_object_text(bytes) ==> decoded(bytes) == Err::<ParsedEnvelope, CodecError>(CodecError::Malformed),
        body_member(bytes, "result"@) is None && body_member(bytes, "error"@) is None
            ==> decoded(bytes) == Err::<ParsedEnvelope, CodecError>(CodecError::Malformed),
{
}

/// Serializes the request envelope of a call of `method` with `params`.
pub fn encode(id: &str, method: &str, params: Json) -> (r: Vec<u8>)
    ensures
        exists|req: Json| is_request(req, id@, method@, params) && r@ == json_text(req),
{
    let req = request_envelope(id, method, params);
    json_to_bytes(&req)
}

} // verus!
