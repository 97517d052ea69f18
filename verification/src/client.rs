//! The response-interpretation pipeline of one API call: compose the URL
//! and the request body, parse the response text, classify an API-reported
//! error envelope, and decode a success payload into the requested model.
//!
//! The HTTPS transport is not here: a caller posts the composed body to the
//! composed URL itself and hands the response text to
//! [`interpret_response`].

use vstd::prelude::*;
use vstd::string::*;
use vstd::arithmetic::div_mod::{lemma_div_decreases, lemma_div_denominator};
use crate::error::{GetModelError, GetModelErrorView};
use crate::graph::{Edge, spec_body_of};
use crate::json::{JsonValue, spec_lookup, lookup};
use crate::model::FBModel;

verus! {

/// What `serde_json` parses a response text into, mapped onto the
/// library's tree: `None` where the text is not valid JSON.
pub uninterp spec fn parsed_json(s: Seq<char>) -> Option<JsonValue>;

#[verifier::external_type_specification]
#[verifier::external_body]
pub struct ExValue(serde_json::Value);

/// Relies on the public variants of `serde_json::Value`: each one is moved
/// onto the corresponding node of the library's tree, one arm per variant.
/// A number that is not a signed 64-bit integer becomes `Null`, which no
/// decode rule of this library accepts where a number is expected.
#[verifier::external_body]
fn tree_of_value(v: serde_json::Value) -> JsonValue {
    match v {
        serde_json::Value::Null => JsonValue::Null,
        serde_json::Value::Bool(b) => JsonValue::Bool(b),
        serde_json::Value::Number(n) => match n.as_i64() {
            Some(i) => JsonValue::Int(i),
            None => JsonValue::Null,
        },
        serde_json::Value::String(s) => JsonValue::Str(s),
        serde_json::Value::Array(a) => JsonValue::Array(
            a.into_iter().map(tree_of_value).collect(),
        ),
        serde_json::Value::Object(m) => JsonValue::Object(
            m.into_iter().map(|(k, val)| (k, tree_of_value(val))).collect(),
        ),
    }
}

/// Relies on `serde_json::from_str::<serde_json::Value>`: the parse is a
/// function of the text alone — the parsed document, or an error exactly
/// when the text is not one valid JSON value.
#[verifier::external_body]
fn parse_json(s: &str) -> (r: Option<JsonValue>)
    ensures
        r == parsed_json(s@),
{
    serde_json::from_str::<serde_json::Value>(s).ok().map(tree_of_value)
}

/// The decimal digit characters of a number, most significant first.
pub open spec fn spec_dec(n: int) -> Seq<char>
    recommends
        0 <= n,
    decreases n,
{
    if n < 10 {
        seq![spec_digit(n)]
    } else {
        spec_dec(n / 10) + seq![spec_digit(n % 10)]
    }
}

/// The character of one decimal digit.
pub open spec fn spec_digit(d: int) -> char {
    if d == 0 {
        '0'
    } else if d == 1 {
        '1'
    } else if d == 2 {
        '2'
    } else if d == 3 {
        '3'
    } else if d == 4 {
        '4'
    } else if d == 5 {
        '5'
    } else if d == 6 {
        '6'
    } else if d == 7 {
        '7'
    } else if d == 8 {
        '8'
    } else {
        '9'
    }
}

fn digit_str(d: u8) -> (r: &'static str)
    requires
        d < 10,
    ensures
        r@ == seq![spec_digit(d as int)],
{
    let r: &'static str = match d {
        0 => "0",
        1 => "1",
        2 => "2",
        3 => "3",
        4 => "4",
        5 => "5",
        6 => "6",
        7 => "7",
        8 => "8",
        _ => "9",
    };
    proof {
        reveal_strlit("0");
        reveal_strlit("1");
        reveal_strlit("2");
        reveal_strlit("3");
        reveal_strlit("4");
        reveal_strlit("5");
        reveal_strlit("6");
        reveal_strlit("7");
        reveal_strlit("8");
        reveal_strlit("9");
        assert(r@ =~= seq![spec_digit(d as int)]);
    }
    r
}

/// The decimal spelling of a byte-sized number, as a version component of
/// the URL.
fn u8_dec_str(n: u8) -> (r: String)
    ensures
        r@ == spec_dec(n as int),
{
    let ghost m = n as int;
    if n >= 100 {
        let mut s = String::from_str(digit_str(n / 100));
        s.append(digit_str((n / 10) % 10));
        s.append(digit_str(n % 10));
        proof {
            lemma_div_denominator(m, 10, 10);
            assert(m / 10 >= 10);
            assert(m / 100 < 10);
            assert(spec_dec(m / 10) == spec_dec(m / 100) + seq![spec_digit((m / 10) % 10)]);
            assert(spec_dec(m / 100) == seq![spec_digit(m / 100)]);
            assert(s@ =~= spec_dec(m));
        }
        s
    } else if n >= 10 {
        let mut s = String::from_str(digit_str(n / 10));
        s.append(digit_str(n % 10));
        proof {
            assert(spec_dec(m / 10) == seq![spec_digit(m / 10)]);
            assert(s@ =~= spec_dec(m));
        }
        s
    } else {
        let s = String::from_str(digit_str(n));
        s
    }
}

/// The URL of one call: host, version, then the edge's path.
pub open spec fn spec_url_of(major: u8, minor: u8, path: Seq<char>) -> Seq<char> {
    "https://graph.facebook.com/v"@ + spec_dec(major as int) + "."@ + spec_dec(minor as int)
        + path
}

/// Compose the URL of one call from the API version and an edge's path.
pub fn build_url(major: u8, minor: u8, path: &str) -> (r: String)
    ensures
        r@ == spec_url_of(major, minor, path@),
{
    let mut url = String::from_str("https://graph.facebook.com/v");
    let maj = u8_dec_str(major);
    url.append(maj.as_str());
    url.append(".");
    let min = u8_dec_str(minor);
    url.append(min.as_str());
    url.append(path);
    proof {
        assert(url@ =~= spec_url_of(major, minor, path@));
    }
    url
}

/// The request body of one call: the edge's serialized body with the
/// access token appended.
pub open spec fn spec_request_body_of(e: Edge, token: Seq<char>) -> Seq<char> {
    spec_body_of(e.spec_fields(), e.spec_params(), e.spec_method()) + "&access_token="@ + token
}

/// Compose the request body of one call: the edge's body, then
/// `&access_token=<token>`.
pub fn build_request_body(edge: &Edge, auth_token: &str) -> (r: String)
    ensures
        r@ == spec_request_body_of(*edge, auth_token@),
{
    let mut body = edge.build_body();
    body.append("&access_token=");
    body.append(auth_token);
    proof {
        assert(body@ =~= spec_request_body_of(*edge, auth_token@));
    }
    body
}

/// The classification of a malformed error envelope: a placeholder type
/// and the raw response text as the message.
pub open spec fn spec_malformed_error(raw: Seq<char>) -> GetModelErrorView {
    GetModelErrorView::UnknownFBError("Unknown error structure: "@, raw)
}

/// The classification of the members of an `error` envelope: an invalid
/// access token for an `OAuthException`, any other well-formed error under
/// its own type, and a placeholder when `type` or `message` is not a
/// string member.
pub open spec fn spec_error_of(ees: Seq<(String, JsonValue)>, raw: Seq<char>) -> GetModelErrorView {
    match (spec_lookup(ees, "type"@), spec_lookup(ees, "message"@)) {
        (Some(JsonValue::Str(t)), Some(JsonValue::Str(m))) => if t@ == "OAuthException"@ {
            GetModelErrorView::AccessTokenInvalid(m@)
        } else {
            GetModelErrorView::UnknownFBError(t@, m@)
        },
        _ => spec_malformed_error(raw),
    }
}

/// What a response tree reports as an API error: `Some` exactly when the
/// tree is an object whose `error` member is itself an object. Anything
/// else is no error envelope and goes on to typed decoding.
pub open spec fn spec_classify(t: JsonValue, raw: Seq<char>) -> Option<GetModelErrorView> {
    match t {
        JsonValue::Object(es) => (match spec_lookup(es@, "error"@) {
            Some(JsonValue::Object(ees)) => Some(spec_error_of(ees@, raw)),
            _ => None,
        }),
        _ => None,
    }
}

/// Inspect a parsed response tree for an API-reported error envelope,
/// before any typed decoding; `raw` is the response text, kept for the
/// message of a malformed envelope.
pub fn classify_error(t: &JsonValue, raw: &String) -> (r: Option<GetModelError>)
    ensures
        (match r {
            Some(e) => spec_classify(*t, raw@) == Some(e@),
            None => spec_classify(*t, raw@) is None,
        }),
{
    let es = match t {
        JsonValue::Object(es) => es,
        _ => {
            return None;
        },
    };
    let err = match lookup(es, &String::from_str("error")) {
        Some(e) => e,
        None => {
            return None;
        },
    };
    let ees = match err {
        JsonValue::Object(ees) => ees,
        _ => {
            return None;
        },
    };
    let ty = lookup(ees, &String::from_str("type"));
    let msg = lookup(ees, &String::from_str("message"));
    match (ty, msg) {
        (Some(JsonValue::Str(tv)), Some(JsonValue::Str(mv))) => {
            if *tv == String::from_str("OAuthException") {
                Some(GetModelError::AccessTokenInvalid(mv.clone()))
            } else {
                Some(GetModelError::UnknownFBError(tv.clone(), mv.clone()))
            }
        },
        _ => Some(
            GetModelError::UnknownFBError(
                String::from_str("Unknown error structure: "),
                raw.clone(),
            ),
        ),
    }
}

/// What interpreting a response text must yield for a model with decode
/// mapping `decoded`: a deserialize failure for text that is not JSON,
/// the classified error for an error envelope, and otherwise the decoded
/// model or a deserialize failure, by the mapping.
pub open spec fn spec_interpretation<MV>(
    body: Seq<char>,
    decoded: Option<MV>,
    r: Result<MV, GetModelErrorView>,
) -> bool {
    match parsed_json(body) {
        None => r == Result::<MV, GetModelErrorView>::Err(GetModelErrorView::DeserializeFailed),
        Some(t) => match spec_classify(t, body) {
            Some(ev) => r == Result::<MV, GetModelErrorView>::Err(ev),
            None => match decoded {
                Some(mv) => r == Result::<MV, GetModelErrorView>::Ok(mv),
                None => r == Result::<MV, GetModelErrorView>::Err(
                    GetModelErrorView::DeserializeFailed,
                ),
            },
        },
    }
}

/// The decode mapping a response tree is held to, for the requested
/// model: `None` where the text did not parse.
pub open spec fn spec_decoded_of<T: FBModel>(body: Seq<char>) -> Option<T::V> {
    match parsed_json(body) {
        Some(t) => T::spec_decode(t),
        None => None,
    }
}

/// Law: an API-reported error envelope decides the call's outcome alone.
/// Whatever model was requested and whatever its decode mapping would
/// yield, interpreting a response whose tree classifies as an error
/// returns exactly that error — never a decoded model and never a
/// spurious decode failure.
pub proof fn lemma_error_envelope_masks_decoding<MV>(
    body: Seq<char>,
    t: JsonValue,
    ev: GetModelErrorView,
    decoded: Option<MV>,
    r: Result<MV, GetModelErrorView>,
)
    requires
        parsed_json(body) == Some(t),
        spec_classify(t, body) == Some(ev),
        spec_interpretation(body, decoded, r),
    ensures
        r == Result::<MV, GetModelErrorView>::Err(ev),
{
}

/// Interpret one response text: parse it, classify an error envelope
/// before any typed decoding — so an error shape cannot surface as a
/// spurious decode failure — and decode a success payload into the
/// requested model.
pub fn interpret_response<T: FBModel>(body: &str) -> (r: Result<T, GetModelError>)
    ensures
        spec_interpretation(
            body@,
            spec_decoded_of::<T>(body@),
            (match r {
                Ok(m) => Result::<T::V, GetModelErrorView>::Ok(m@),
                Err(e) => Result::<T::V, GetModelErrorView>::Err(e@),
            }),
        ),
{
    let tree = match parse_json(body) {
        Some(t) => t,
        None => {
            return Err(GetModelError::DeserializeFailed);
        },
    };
    let raw = body.to_owned();
    if let Some(e) = classify_error(&tree, &raw) {
        return Err(e);
    }
    match T::decode_tree(&tree) {
        Some(m) => Ok(m),
        None => Err(GetModelError::DeserializeFailed),
    }
}

} // verus!
