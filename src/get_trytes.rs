use vstd::prelude::*;

use crate::command::{api_headers, api_headers_spec, command_text, Command, Header};
use crate::json::{field, find_field, JsonValue};
use crate::validator::{is_array_of_hashes, is_array_of_hashes_spec, views};

verus! {

/// The decoded answer of the node to `getTrytes`.
#[derive(Debug)]
pub struct GetTrytesResponse {
    duration: i64,
    trytes: Vec<String>,
}

impl View for GetTrytesResponse {
    /// The duration in milliseconds, and the tryte strings in the order received.
    type V = (i64, Seq<Seq<char>>);

    closed spec fn view(&self) -> (i64, Seq<Seq<char>>) {
        (self.duration, views(self.trytes@))
    }
}

impl GetTrytesResponse {
    /// Builds a response from its two fields.
    pub fn new(duration: i64, trytes: Vec<String>) -> (r: Self)
        ensures
            r@ == (duration, views(trytes@)),
    {
        GetTrytesResponse { duration, trytes }
    }

    /// Returns the duration attribute
    pub fn duration(&self) -> (r: i64)
        ensures
            r == self@.0,
    {
        self.duration
    }

    /// Returns the trytes attribute
    pub fn trytes(&self) -> (r: &[String])
        ensures
            views(r@) == self@.1,
    {
        self.trytes.as_slice()
    }

    /// Takes ownership of the trytes attribute
    pub fn take_trytes(self) -> (r: Vec<String>)
        ensures
            views(r@) == self@.1,
    {
        self.trytes
    }
}

/// A field of the `getTrytes` response.
#[derive(Debug, Clone, Copy, PartialEq, Eq, Structural)]
pub enum Field {
    Duration,
    Trytes,
}

/// Why a response body could not be read as a `getTrytes` response.
#[derive(Debug)]
pub enum DecodeError {
    /// The body is not JSON; the parser's message.
    Syntax(String),
    /// The body is JSON, but not an object.
    NotAnObject,
    /// The node answered with an error envelope; its message.
    NodeError(String),
    /// A required field is absent.
    Missing(Field),
    /// A required field holds a value of the wrong type.
    WrongType(Field),
}

/// The ways a `getTrytes` call can fail.
#[derive(Debug)]
pub enum Error {
    /// Some of the given hashes are not valid; the list that was refused.
    Validation(Vec<String>),
    /// The HTTP exchange did not complete; the transport's message.
    Transport(String),
    /// The answer could not be decoded.
    Decode(DecodeError),
}

/// The duration that a JSON value holds, if it is an integer that fits in `i64`.
pub open spec fn duration_of(v: JsonValue) -> Option<i64> {
    match v {
        JsonValue::Integer(n) => if i64::MIN <= n <= i64::MAX {
            Some(n as i64)
        } else {
            None
        },
        _ => None,
    }
}

/// Whether every item is a JSON string.
pub open spec fn all_strings(items: Seq<JsonValue>) -> bool {
    forall|i: int| 0 <= i < items.len() ==> #[trigger] items[i] is Str
}

/// The text of each item, taken as a JSON string.
pub open spec fn strings_of(items: Seq<JsonValue>) -> Seq<Seq<char>> {
    items.map_values(|x: JsonValue| x->Str_0@)
}

/// The strings that a JSON value holds, if it is an array of strings.
pub open spec fn trytes_of(v: JsonValue) -> Option<Seq<Seq<char>>> {
    match v {
        JsonValue::Array(items) => if all_strings(items@) {
            Some(strings_of(items@))
        } else {
            None
        },
        _ => None,
    }
}

/// What a response body decodes to: the duration and the trytes, or the
/// first fault found. A body that lacks a valid `duration` or `trytes` and
/// carries a string `error` is the node's error envelope. Other members are
/// ignored.
pub open spec fn decode_spec(v: JsonValue) -> Result<(i64, Seq<Seq<char>>), DecodeError> {
    match v {
        JsonValue::Object(entries) => {
            let d = find_field(entries@, "duration"@);
            let t = find_field(entries@, "trytes"@);
            let ok = d is Some && duration_of(d->0) is Some && t is Some && trytes_of(t->0) is Some;
            if ok {
                Ok((duration_of(d->0)->0, trytes_of(t->0)->0))
            } else {
                match find_field(entries@, "error"@) {
                    Some(JsonValue::Str(m)) => Err(DecodeError::NodeError(m)),
                    _ => if d is None {
                        Err(DecodeError::Missing(Field::Duration))
                    } else if duration_of(d->0) is None {
                        Err(DecodeError::WrongType(Field::Duration))
                    } else if t is None {
                        Err(DecodeError::Missing(Field::Trytes))
                    } else {
                        Err(DecodeError::WrongType(Field::Trytes))
                    },
                }
            }
        },
        _ => Err(DecodeError::NotAnObject),
    }
}

fn read_duration(v: &JsonValue) -> (r: Option<i64>)
    ensures
        r == duration_of(*v),
{
    match v {
        JsonValue::Integer(n) => if i64::MIN as i128 <= *n && *n <= i64::MAX as i128 {
            Some(*n as i64)
        } else {
            None
        },
        _ => None,
    }
}

fn read_strings(v: &JsonValue) -> (r: Option<Vec<String>>)
    ensures
        match r {
            Some(s) => trytes_of(*v) == Some(views(s@)),
            None => trytes_of(*v) is None,
        },
{
    match v {
        JsonValue::Array(items) => {
            let mut out: Vec<String> = Vec::new();
            let mut i: usize = 0;
            while i < items.len()
                invariant
                    *v == JsonValue::Array(*items),
                    i <= items@.len(),
                    out@.len() == i,
                    forall|j: int| 0 <= j < i ==> #[trigger] items@[j] is Str,
                    forall|j: int| 0 <= j < i ==> #[trigger] out@[j]@ == items@[j]->Str_0@,
                decreases items@.len() - i,
            {
                match &items[i] {
                    JsonValue::Str(s) => {
                        out.push(s.clone());
                    },
                    _ => {
                        assert(!all_strings(items@));
                        return None;
                    },
                }
                i = i + 1;
            }
            assert(views(out@) =~= strings_of(items@));
            Some(out)
        },
        _ => None,
    }
}

/// Decodes a JSON response body into a `getTrytes` response.
pub fn decode_response(v: &JsonValue) -> (r: Result<GetTrytesResponse, DecodeError>)
    ensures
        match r {
            Ok(resp) => decode_spec(*v) == Ok::<(i64, Seq<Seq<char>>), DecodeError>(resp@),
            Err(e) => decode_spec(*v) == Err::<(i64, Seq<Seq<char>>), DecodeError>(e),
        },
{
    match v {
        JsonValue::Object(entries) => {
            let duration_key = String::from_str("duration");
            let trytes_key = String::from_str("trytes");
            let error_key = String::from_str("error");
            let d = field(entries, &duration_key);
            let t = field(entries, &trytes_key);
            let duration = match d {
                Some(x) => read_duration(x),
                None => None,
            };
            let trytes = match t {
                Some(x) => read_strings(x),
                None => None,
            };
            if let (Some(duration), Some(trytes)) = (duration, trytes) {
                return Ok(GetTrytesResponse::new(duration, trytes));
            }
            if let Some(JsonValue::Str(m)) = field(entries, &error_key) {
                return Err(DecodeError::NodeError(m.clone()));
            }
            if d.is_none() {
                Err(DecodeError::Missing(Field::Duration))
            } else if duration.is_none() {
                Err(DecodeError::WrongType(Field::Duration))
            } else if t.is_none() {
                Err(DecodeError::Missing(Field::Trytes))
            } else {
                Err(DecodeError::WrongType(Field::Trytes))
            }
        },
        _ => Err(DecodeError::NotAnObject),
    }
}

/// An object whose `duration` is an integer that fits in `i64` and whose
/// `trytes` is an array of strings decodes to that duration and to those
/// strings in the same order, whatever other members it has.
pub proof fn lemma_well_formed_response_decodes(
    entries: Vec<(String, JsonValue)>,
    d: i64,
    items: Vec<JsonValue>,
)
    requires
        find_field(entries@, "duration"@) == Some(JsonValue::Integer(d as i128)),
        find_field(entries@, "trytes"@) == Some(JsonValue::Array(items)),
        all_strings(items@),
    ensures
        decode_spec(JsonValue::Object(entries)) == Ok::<(i64, Seq<Seq<char>>), DecodeError>(
            (d, strings_of(items@)),
        ),
        forall|i: int|
            0 <= i < items@.len() ==> #[trigger] strings_of(items@)[i] == items@[i]->Str_0@,
{
}

/// A body whose `trytes` member is absent, or is not an array of strings,
/// never decodes to a response: it is always an error, never an empty or
/// default response.
pub proof fn lemma_malformed_trytes_never_decode(v: JsonValue)
    requires
        !(v matches JsonValue::Object(entries) && find_field(entries@, "trytes"@) matches Some(t)
            && trytes_of(t) is Some),
    ensures
        decode_spec(v) is Err,
{
}

/// An HTTP POST ready to be sent to a node.
pub struct Request {
    pub uri: String,
    pub headers: Vec<Header>,
    pub body: String,
}

/// What the transport brought back for a request.
pub enum Reply {
    /// The exchange did not complete (refused, timed out, TLS, bad status).
    Unreachable(String),
    /// The node answered, but its body is not JSON; the parser's message.
    NotJson(String),
    /// The node answered with this JSON document.
    Json(JsonValue),
}

fn copy_strings(v: &[String]) -> (r: Vec<String>)
    ensures
        r@ == v@,
{
    let mut out: Vec<String> = Vec::new();
    let mut i: usize = 0;
    while i < v.len()
        invariant
            i <= v@.len(),
            out@ == v@.subrange(0, i as int),
        decreases v@.len() - i,
    {
        out.push(v[i].clone());
        assert(out@ =~= v@.subrange(0, i + 1));
        i = i + 1;
    }
    assert(out@ =~= v@);
    out
}

/// First step of `getTrytes`: checks the hashes and, only when all of them
/// are valid, builds the request to send. Nothing is sent for a list that is
/// refused.
pub fn prepare_get_trytes(uri: &str, hashes: &[String]) -> (r: Result<Request, Error>)
    ensures
        is_array_of_hashes_spec(views(hashes@)) <==> r is Ok,
        match r {
            Ok(req) => {
                &&& req.uri@ == uri@
                &&& req.body@ == command_text("getTrytes"@, "hashes"@, views(hashes@))
                &&& api_headers_spec(req.headers@)
            },
            Err(e) => e matches Error::Validation(list) && list@ == hashes@,
        },
{
    if !is_array_of_hashes(hashes) {
        return Err(Error::Validation(copy_strings(hashes)));
    }
    let command = Command::GetTrytes { hashes: copy_strings(hashes) };
    Ok(Request { uri: uri.to_owned(), headers: api_headers(), body: command.to_json() })
}

/// Last step of `getTrytes`: turns what the transport brought back into the
/// call's result. A failed exchange is a transport error, an unreadable body
/// a decode error; nothing is retried and no partial response is made.
pub fn finish_get_trytes(reply: Reply) -> (r: Result<GetTrytesResponse, Error>)
    ensures
        match reply {
            Reply::Unreachable(m) => r == Err::<GetTrytesResponse, Error>(Error::Transport(m)),
            Reply::NotJson(m) => r == Err::<GetTrytesResponse, Error>(
                Error::Decode(DecodeError::Syntax(m)),
            ),
            Reply::Json(v) => match decode_spec(v) {
                Ok(x) => r matches Ok(resp) && resp@ == x,
                Err(e) => r == Err::<GetTrytesResponse, Error>(Error::Decode(e)),
            },
        },
{
    match reply {
        Reply::Unreachable(m) => Err(Error::Transport(m)),
        Reply::NotJson(m) => Err(Error::Decode(DecodeError::Syntax(m))),
        Reply::Json(v) => match decode_response(&v) {
            Ok(resp) => Ok(resp),
            Err(e) => Err(Error::Decode(e)),
        },
    }
}

} // verus!
