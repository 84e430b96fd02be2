use vstd::prelude::*;

use crate::classify::classify;
use crate::classify::spec_classify;
use crate::classify::KdlError;
use crate::endpoint::OperationId;
use crate::json::obj_lookup;
use crate::json::pairs_view;
use crate::json::parse_json;
use crate::json::spec_lookup_from;
use crate::json::spec_obj_lookup;
use crate::json::spec_parse_json;
use crate::json::JsonModel;
use crate::json::JsonValue;

verus! {

/// The universal wire wrapper of every response: `{code, msg, data}`.
/// `code == 0` means success; any other code is classified as an API error.
#[derive(Debug)]
pub struct Envelope {
    pub code: i64,
    pub msg: String,
    pub data: JsonValue,
}

/// The envelope fields of a parsed document: the top level must be an object
/// holding an integer `code`, a string `msg`, and `data` of any shape.
pub open spec fn spec_envelope_of(m: JsonModel) -> Option<(int, Seq<char>, JsonModel)> {
    match m {
        JsonModel::Obj(pairs) => match (
            spec_obj_lookup(pairs, "code"@),
            spec_obj_lookup(pairs, "msg"@),
            spec_obj_lookup(pairs, "data"@),
        ) {
            (Some(JsonModel::Int(c)), Some(JsonModel::Str(ms)), Some(d)) => Some((c, ms, d)),
            _ => None,
        },
        _ => None,
    }
}

/// The envelope carried by a response body: the body must be a well-formed
/// document of the wire grammar whose top level has the envelope fields.
pub open spec fn spec_decode_envelope(s: Seq<char>) -> Option<(int, Seq<char>, JsonModel)> {
    match spec_parse_json(s) {
        Some(m) => spec_envelope_of(m),
        None => None,
    }
}

fn lookup_index_from(pairs: &Vec<(String, JsonValue)>, key: &str, i: usize) -> (r: Option<usize>)
    requires
        i <= pairs@.len(),
    ensures
        (r matches Some(idx) ==> (i <= idx && (idx as int) < pairs@.len() && spec_lookup_from(
            pairs_view(pairs@),
            key@,
            i as int,
        ) == Some(pairs_view(pairs@)[idx as int].1))),
        (r is None ==> (spec_lookup_from(pairs_view(pairs@), key@, i as int) is None)),
    decreases pairs@.len() - i,
{
    if i >= pairs.len() {
        None
    } else if crate::json::str_eq(pairs[i].0.as_str(), key) {
        Some(i)
    } else {
        lookup_index_from(pairs, key, i + 1)
    }
}

fn deserialize_error() -> (e: KdlError)
    ensures
        e matches KdlError::DeserializeError { .. },
{
    KdlError::DeserializeError { message: "the response is not a well-formed envelope".to_owned() }
}

/// Decode a response body into its envelope. Returns the envelope exactly
/// when the body parses under the wire grammar and its top level holds the
/// three envelope fields; any other body is a deserialization failure,
/// distinct from an API-level error.
pub fn decode_envelope(body: &str) -> (r: Result<Envelope, KdlError>)
    ensures
        (r matches Ok(env) ==> spec_decode_envelope(body@) == Some(
            (env.code as int, env.msg@, env.data@),
        )),
        (r matches Err(e) ==> (spec_decode_envelope(body@) is None) && (e
            matches KdlError::DeserializeError { .. })),
{
    match parse_json(body) {
        None => Err(deserialize_error()),
        Some(v) => match v {
            JsonValue::Obj(pairs) => {
                let code: i64 = match obj_lookup(&pairs, "code") {
                    Some(cv) => match cv {
                        JsonValue::Int(c) => *c,
                        _ => {
                            return Err(deserialize_error());
                        },
                    },
                    None => {
                        return Err(deserialize_error());
                    },
                };
                let msg: String = match obj_lookup(&pairs, "msg") {
                    Some(mv) => match mv {
                        JsonValue::Str(s) => s.clone(),
                        _ => {
                            return Err(deserialize_error());
                        },
                    },
                    None => {
                        return Err(deserialize_error());
                    },
                };
                let mut pairs = pairs;
                let data: JsonValue = match lookup_index_from(&pairs, "data", 0) {
                    Some(idx) => {
                        let ghost pv = pairs_view(pairs@);
                        let entry = pairs.remove(idx);
                        proof {
                            assert(pv[idx as int] == (entry.0@, entry.1@));
                        }
                        entry.1
                    },
                    None => {
                        return Err(deserialize_error());
                    },
                };
                Ok(Envelope { code, msg, data })
            },
            _ => Err(deserialize_error()),
        },
    }
}

/// The success/error decision of the pipeline: a zero code hands out `data`;
/// any other code is classified under the calling operation, the message
/// carried through unmodified.
pub fn envelope_to_result(env: Envelope, op: OperationId) -> (r: Result<JsonValue, KdlError>)
    ensures
        env.code == 0 ==> r == Ok::<JsonValue, KdlError>(env.data),
        env.code != 0 ==> r == Err::<JsonValue, KdlError>(
            KdlError::Api(spec_classify(env.code, env.msg, op)),
        ),
{
    if env.code == 0 {
        Ok(env.data)
    } else {
        Err(KdlError::Api(classify(env.code, env.msg, op)))
    }
}

/// Decode a response body under the operation that issued the call: the
/// `data` value on a zero code, the classified API error on any other code,
/// and a deserialization failure when the body is not a well-formed envelope.
pub fn decode_response(body: &str, op: OperationId) -> (r: Result<JsonValue, KdlError>)
    ensures
        ((spec_decode_envelope(body@) is None) ==> (r matches Err(e) && (e
            matches KdlError::DeserializeError { .. }))),
        (spec_decode_envelope(body@) matches Some((code, msg, data)) ==> ((code == 0 ==> (r
            matches Ok(d) && d@ == data)) && (code != 0 ==> (r matches Err(e) && (exists|ms: String|
            ms@ == msg && e == KdlError::Api(#[trigger] spec_classify(code as i64, ms, op))))))),
{
    match decode_envelope(body) {
        Err(e) => Err(e),
        Ok(env) => {
            let ghost env_code = env.code;
            let ghost env_msg = env.msg;
            let r = envelope_to_result(env, op);
            proof {
                if spec_decode_envelope(body@) is Some {
                    let (code, msg, data) = spec_decode_envelope(body@)->0;
                    if code != 0 {
                        assert(env_msg@ == msg);
                        assert(code as i64 == env_code);
                        assert(r == Err::<JsonValue, KdlError>(
                            KdlError::Api(spec_classify(code as i64, env_msg, op)),
                        ));
                    }
                }
            }
            r
        },
    }
}

/// What the embedding program reports back after performing the network
/// call: the response body, or a transport-level failure it describes.
#[derive(Debug)]
pub enum TransportOutcome {
    Body(String),
    Failure(String),
}

/// Turn a transport outcome into the operation's raw result. A transport
/// failure becomes a network error at once, without any attempt to decode;
/// a body goes through envelope decoding and code classification.
pub fn response_data(op: OperationId, outcome: TransportOutcome) -> (r: Result<JsonValue, KdlError>)
    ensures
        (outcome matches TransportOutcome::Failure(m) ==> r == Err::<JsonValue, KdlError>(
            KdlError::NetworkError { message: m },
        )),
        (outcome matches TransportOutcome::Body(b) ==> (((spec_decode_envelope(b@) is None) ==> (r
            matches Err(e) && (e matches KdlError::DeserializeError { .. })))
            && (spec_decode_envelope(b@) matches Some((code, msg, data)) ==> ((code == 0 ==> (r
            matches Ok(d) && d@ == data)) && (code != 0 ==> (r matches Err(e) && (exists|ms: String|
            ms@ == msg && e == KdlError::Api(#[trigger] spec_classify(code as i64, ms, op))))))))),
{
    match outcome {
        TransportOutcome::Failure(m) => Err(KdlError::NetworkError { message: m }),
        TransportOutcome::Body(b) => decode_response(b.as_str(), op),
    }
}

/// The `data` of a successful response: the body must decode to an envelope
/// whose code is zero.
pub open spec fn spec_envelope_success(body: Seq<char>) -> Option<JsonModel> {
    match spec_decode_envelope(body) {
        Some((code, msg, data)) => if code == 0 {
            Some(data)
        } else {
            None
        },
        None => None,
    }
}

/// The error the pipeline yields when a body does not reach the operation's
/// data decoding: a deserialization failure for a body without a well-formed
/// envelope, the classified API error for a non-zero code.
pub open spec fn spec_pipeline_err(body: Seq<char>, op: OperationId, e: KdlError) -> bool {
    match spec_decode_envelope(body) {
        None => e matches KdlError::DeserializeError { .. },
        Some((code, msg, data)) => code != 0 && (exists|ms: String|
            ms@ == msg && e == KdlError::Api(#[trigger] spec_classify(code as i64, ms, op))),
    }
}

} // verus!
