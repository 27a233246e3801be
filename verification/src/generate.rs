//! One exchange with the daemon's generation endpoint: where the request
//! goes, what its body is, and what the answer's body means.
//!
//! `serde_json` reads and writes the JSON; which members a body has, and
//! what is made of the ones that come back, is decided here.

use crate::error::{Error, ErrorView};
use serde_json::Value;
use vstd::prelude::*;
use vstd::string::*;

verus! {

/// Where the daemon listens unless told otherwise.
pub const DEFAULT_API_BASE: &'static str = "http://localhost:11434";

/// The environment variable that names another base address.
pub const API_BASE_VARIABLE: &'static str = "OLLAMA_API_BASE";

/// The path of the generation endpoint below the base address.
pub const GENERATE_PATH: &'static str = "/api/generate";

/// The member of the answer that holds the generated text.
pub const RESPONSE_FIELD: &'static str = "response";

/// What is reported when the answer has no member [`RESPONSE_FIELD`].
pub const MISSING_RESPONSE: &'static str = "missing field `response`";

/// What is reported when the member [`RESPONSE_FIELD`] is not a string.
pub const RESPONSE_NOT_TEXT: &'static str = "invalid type for field `response`, expected a string";

#[verifier::external_type_specification]
#[verifier::external_body]
pub struct ExValue(serde_json::Value);

/// The shape of a JSON value. Numbers are told apart from the other kinds
/// and no further.
pub enum Json {
    Null,
    Bool(bool),
    Number,
    Text(Seq<char>),
    Array(Seq<Json>),
    Object(Map<Seq<char>, Json>),
}

/// What a `serde_json::Value` holds.
pub uninterp spec fn json_tree(value: Value) -> Json;

/// What `serde_json::from_slice` makes of `bytes` when asked for a `Value`:
/// the value, or the text that its error displays.
pub uninterp spec fn json_value(bytes: Seq<u8>) -> Result<Value, Seq<char>>;

/// What `serde_json::to_string` makes of the string `text`: the JSON string
/// literal for it, quotes included, or the text that its error displays.
pub uninterp spec fn json_quoted(text: Seq<char>) -> Result<Seq<char>, Seq<char>>;

/// `serde_json::from_slice::<serde_json::Value>`, its error turned into the
/// text it displays. The contract gives the outcome its name; which bytes
/// are JSON is left to the parser.
#[verifier::external_body]
fn parse_value(body: &[u8]) -> (r: Result<Value, String>)
    ensures
        match (r, json_value(body@)) {
            (Ok(value), Ok(expected)) => value == expected,
            (Err(error), Err(expected)) => error@ == expected,
            _ => false,
        },
{
    serde_json::from_slice::<Value>(body).map_err(|error| error.to_string())
}

/// `serde_json::Value::get` with a string key: the member of that name when
/// the value is an object that has one, and nothing otherwise.
#[verifier::external_body]
fn member<'a>(value: &'a Value, key: &str) -> (r: Option<&'a Value>)
    ensures
        r is Some <==> (json_tree(*value) is Object && json_tree(*value)->Object_0.contains_key(
            key@,
        )),
        r is Some ==> json_tree(*r->Some_0) == json_tree(*value)->Object_0[key@],
{
    value.get(key)
}

/// `serde_json::Value::as_str`: the text of a JSON string, and nothing for
/// any other kind of value.
pub assume_specification[ serde_json::Value::as_str ](value: &Value) -> (r: Option<&str>)
    ensures
        r is Some <==> json_tree(*value) is Text,
        r is Some ==> r->Some_0@ == json_tree(*value)->Text_0,
;

/// `serde_json::to_string` on a `str`, its error turned into the text it
/// displays. The contract gives the outcome its name.
#[verifier::external_body]
fn quote(text: &str) -> (r: Result<String, String>)
    ensures
        match (r, json_quoted(text@)) {
            (Ok(quoted), Ok(expected)) => quoted@ == expected,
            (Err(error), Err(expected)) => error@ == expected,
            _ => false,
        },
{
    serde_json::to_string(text).map_err(|error| error.to_string())
}

/// The address of the daemon: the configured one if there is any, else
/// [`DEFAULT_API_BASE`].
pub open spec fn api_base_of(configured: Option<Seq<char>>) -> Seq<char> {
    match configured {
        Some(base) => base,
        None => DEFAULT_API_BASE@,
    }
}

/// The address of the daemon, given what the environment configures.
pub fn api_base(configured: Option<String>) -> (r: String)
    ensures
        r@ == api_base_of(
            match configured {
                Some(base) => Some(base@),
                None => None,
            },
        ),
{
    match configured {
        Some(base) => base,
        None => String::from_str(DEFAULT_API_BASE),
    }
}

/// The address of the generation endpoint below `base`.
pub fn generate_url(base: &str) -> (r: String)
    ensures
        r@ == base@ + GENERATE_PATH@,
{
    String::from_str(base).concat(GENERATE_PATH)
}

/// What is asked of the generation endpoint.
#[derive(Debug, Clone, PartialEq, Eq)]
pub struct GenerateRequest {
    /// The model that is to answer.
    pub model: String,
    /// What the user asks.
    pub prompt: String,
    /// The instructions the model answers under.
    pub system: String,
    /// Whether the answer is to arrive in pieces.
    pub stream: bool,
}

/// What the generation endpoint answers.
#[derive(Debug, Clone, PartialEq, Eq)]
pub struct GenerateResponse {
    /// The generated text.
    pub response: String,
}

/// The text of `true` or `false` in JSON.
pub open spec fn json_bool(value: bool) -> Seq<char> {
    if value {
        "true"@
    } else {
        "false"@
    }
}

/// The JSON object of a request whose three texts are given as JSON string
/// literals: the members `model`, `prompt`, `system` and `stream`, in this
/// order, without any white space.
pub open spec fn request_object(
    model: Seq<char>,
    prompt: Seq<char>,
    system: Seq<char>,
    stream: bool,
) -> Seq<char> {
    "{\"model\":"@ + model + ",\"prompt\":"@ + prompt + ",\"system\":"@ + system
        + ",\"stream\":"@ + json_bool(stream) + "}"@
}

/// Frames the body of a request from its three texts, each already a JSON
/// string literal, and its flag.
pub fn request_body(model: &str, prompt: &str, system: &str, stream: bool) -> (r: String)
    ensures
        r@ == request_object(model@, prompt@, system@, stream),
{
    let flag = if stream {
        "true"
    } else {
        "false"
    };
    String::from_str("{\"model\":").concat(model).concat(",\"prompt\":").concat(prompt).concat(
        ",\"system\":",
    ).concat(system).concat(",\"stream\":").concat(flag).concat("}")
}

/// What a JSON value means as an answer: the text of its member
/// [`RESPONSE_FIELD`]. A value that is no object, or an object without that
/// member, is reported as [`MISSING_RESPONSE`]; a member that is no string
/// as [`RESPONSE_NOT_TEXT`]. Other members are not looked at.
pub open spec fn response_text(tree: Json) -> Result<Seq<char>, ErrorView> {
    match tree {
        Json::Object(members) => {
            if members.contains_key(RESPONSE_FIELD@) {
                match members[RESPONSE_FIELD@] {
                    Json::Text(text) => Ok(text),
                    _ => Err(ErrorView::Serde(RESPONSE_NOT_TEXT@)),
                }
            } else {
                Err(ErrorView::Serde(MISSING_RESPONSE@))
            }
        },
        _ => Err(ErrorView::Serde(MISSING_RESPONSE@)),
    }
}

/// What a body means as an answer: it has to be JSON, and then means what
/// its value means. A body that is no JSON is reported with the parser's
/// own words.
pub open spec fn decoded(body: Seq<u8>) -> Result<Seq<char>, ErrorView> {
    match json_value(body) {
        Ok(value) => response_text(json_tree(value)),
        Err(error) => Err(ErrorView::Serde(error)),
    }
}

/// The body of a request as JSON text, or the failure of quoting one of its
/// texts, the first in the order `model`, `prompt`, `system`.
pub open spec fn encoded(request: GenerateRequest) -> Result<Seq<char>, ErrorView> {
    match json_quoted(request.model@) {
        Err(error) => Err(ErrorView::Serde(error)),
        Ok(model) => match json_quoted(request.prompt@) {
            Err(error) => Err(ErrorView::Serde(error)),
            Ok(prompt) => match json_quoted(request.system@) {
                Err(error) => Err(ErrorView::Serde(error)),
                Ok(system) => Ok(request_object(model, prompt, system, request.stream)),
            },
        },
    }
}

/// An outcome with its texts as sequences of characters.
pub open spec fn text_outcome(r: Result<String, Error>) -> Result<Seq<char>, ErrorView> {
    match r {
        Ok(text) => Ok(text@),
        Err(error) => Err(error@),
    }
}

/// A decoded answer with its texts as sequences of characters.
pub open spec fn response_outcome(r: Result<GenerateResponse, Error>) -> Result<
    Seq<char>,
    ErrorView,
> {
    match r {
        Ok(answer) => Ok(answer.response@),
        Err(error) => Err(error@),
    }
}

impl GenerateRequest {
    /// A request for one complete answer: never streamed.
    pub fn new(model: &str, prompt: &str, system: &str) -> (r: GenerateRequest)
        ensures
            r.model@ == model@,
            r.prompt@ == prompt@,
            r.system@ == system@,
            !r.stream,
    {
        GenerateRequest {
            model: String::from_str(model),
            prompt: String::from_str(prompt),
            system: String::from_str(system),
            stream: false,
        }
    }

    /// The body to send for this request.
    pub fn to_json(&self) -> (r: Result<String, Error>)
        ensures
            text_outcome(r) == encoded(*self),
    {
        let model = match quote(self.model.as_str()) {
            Ok(quoted) => quoted,
            Err(error) => {
                return Err(Error::Serde(error));
            },
        };
        let prompt = match quote(self.prompt.as_str()) {
            Ok(quoted) => quoted,
            Err(error) => {
                return Err(Error::Serde(error));
            },
        };
        let system = match quote(self.system.as_str()) {
            Ok(quoted) => quoted,
            Err(error) => {
                return Err(Error::Serde(error));
            },
        };
        Ok(request_body(model.as_str(), prompt.as_str(), system.as_str(), self.stream))
    }
}

/// Reads the answer out of a parsed body.
pub fn response_from_value(value: &Value) -> (r: Result<GenerateResponse, Error>)
    ensures
        response_outcome(r) == response_text(json_tree(*value)),
{
    match member(value, RESPONSE_FIELD) {
        Some(field) => match field.as_str() {
            Some(text) => Ok(GenerateResponse { response: String::from_str(text) }),
            None => Err(Error::Serde(String::from_str(RESPONSE_NOT_TEXT))),
        },
        None => Err(Error::Serde(String::from_str(MISSING_RESPONSE))),
    }
}

/// Reads the answer out of the body that the endpoint sent.
pub fn decode_response(body: &[u8]) -> (r: Result<GenerateResponse, Error>)
    ensures
        response_outcome(r) == decoded(body@),
{
    match parse_value(body) {
        Ok(value) => response_from_value(&value),
        Err(error) => Err(Error::Serde(error)),
    }
}

} // verus!
