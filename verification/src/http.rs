//! HTTP as the crate sees it: statuses and headers of `reqwest`, and requests
//! as plain data.

use crate::json::json_of;
use crate::json::Json;
use crate::text::decimal;
use crate::text::opt_text;
use vstd::prelude::*;

verus! {

/// A status code of `reqwest`.
#[verifier::external_type_specification]
#[verifier::external_body]
pub struct ExStatusCode(reqwest::StatusCode);

/// A header value of `reqwest`.
#[verifier::external_type_specification]
#[verifier::external_body]
pub struct ExHeaderValue(reqwest::header::HeaderValue);

/// A header map of `reqwest`.
#[verifier::external_type_specification]
#[verifier::external_body]
#[verifier::reject_recursive_types(T)]
pub struct ExHeaderMap<T>(reqwest::header::HeaderMap<T>);

/// The number of a status.
pub uninterp spec fn status_number(status: reqwest::StatusCode) -> u16;

/// A status in words: its number and the reason that goes with it.
pub uninterp spec fn status_words(number: u16) -> Seq<char>;

/// The bytes of a header value.
pub uninterp spec fn header_bytes(value: reqwest::header::HeaderValue) -> Seq<u8>;

/// The first value under each name, the names in lower case.
pub uninterp spec fn header_firsts(headers: reqwest::header::HeaderMap) -> Map<Seq<char>, Seq<u8>>;

/// The status reports success.
pub open spec fn success_status(status: reqwest::StatusCode) -> bool {
    200 <= status_number(status) < 300
}

/// `name` is a header name in lower case, of letters and hyphens.
pub open spec fn lower_header_name(name: Seq<char>) -> bool {
    &&& 0 < name.len() < 0x10000
    &&& forall|i: int|
        0 <= i < name.len() ==> 'a' <= #[trigger] name[i] <= 'z' || name[i] == '-'
}

/// The byte is a visible ASCII character, a space or a tab.
pub open spec fn visible_byte(b: u8) -> bool {
    32 <= b < 127 || b == 9
}

/// Every byte is a visible ASCII character, a space or a tab.
pub open spec fn visible_bytes(bytes: Seq<u8>) -> bool {
    forall|i: int| 0 <= i < bytes.len() ==> visible_byte(#[trigger] bytes[i])
}

/// ASCII bytes as characters.
pub open spec fn ascii_text(bytes: Seq<u8>) -> Seq<char> {
    bytes.map_values(|b: u8| b as char)
}

/// `reqwest::StatusCode::is_success` tells whether the status is within
/// 200-299.
pub assume_specification[ reqwest::StatusCode::is_success ](status: &reqwest::StatusCode) -> (r:
    bool)
    ensures
        r == success_status(*status),
;

/// `reqwest::StatusCode` is shown as its number, a space and the canonical
/// reason. Which reason goes with which number is left to the name.
#[verifier::external_body]
pub(crate) fn status_text(status: &reqwest::StatusCode) -> (r: String)
    ensures
        r@ == status_words(status_number(*status)),
        (decimal(status_number(*status) as nat) + " "@).is_prefix_of(r@),
{
    status.to_string()
}

/// `reqwest::header::HeaderMap::get` gives the first value under the name, if
/// there is one. Stated for names in lower case.
#[verifier::external_body]
pub(crate) fn header_get<'a>(headers: &'a reqwest::header::HeaderMap, name: &str) -> (r: Option<
    &'a reqwest::header::HeaderValue,
>)
    ensures
        lower_header_name(name@) ==> (r is Some <==> header_firsts(*headers).contains_key(name@)),
        lower_header_name(name@) ==> (r matches Some(value) ==> header_bytes(*value)
            == header_firsts(*headers)[name@]),
{
    headers.get(name)
}

/// `reqwest::header::HeaderValue::to_str` gives the value as text if it holds
/// visible ASCII only.
#[verifier::external_body]
pub(crate) fn header_text(value: &reqwest::header::HeaderValue) -> (r: Option<String>)
    ensures
        r is Some <==> visible_bytes(header_bytes(*value)),
        r matches Some(text) ==> text@ == ascii_text(header_bytes(*value)),
{
    value.to_str().ok().map(|text| text.to_string())
}

/// The header in which the server names its model.
pub const OPENAI_MODEL_HEADER: &'static str = "openai-model";

/// The model that response headers name, if they name one in visible ASCII.
pub open spec fn model_in_headers(firsts: Map<Seq<char>, Seq<u8>>) -> Option<Seq<char>> {
    match firsts.get(OPENAI_MODEL_HEADER@) {
        Some(bytes) => if visible_bytes(bytes) {
            Some(ascii_text(bytes))
        } else {
            None
        },
        None => None,
    }
}

/// The model that response headers name.
pub fn server_model(headers: &reqwest::header::HeaderMap) -> (r: Option<String>)
    ensures
        opt_text(r) == model_in_headers(header_firsts(*headers)),
{
    proof {
        reveal_strlit("openai-model");
        assert(lower_header_name(OPENAI_MODEL_HEADER@));
    }
    match header_get(headers, OPENAI_MODEL_HEADER) {
        Some(value) => header_text(value),
        None => None,
    }
}

/// The methods that the crate's requests use.
#[derive(Debug, Clone, Copy, PartialEq, Eq, Structural)]
pub enum HttpMethod {
    Get,
    Post,
    Put,
}

/// What a request carries.
#[derive(Debug)]
pub enum HttpBody {
    Empty,
    Json(serde_json::Value),
    /// The content of a local file, streamed.
    LocalFile(std::path::PathBuf),
}

/// A request to be sent.
#[derive(Debug)]
pub struct HttpRequest {
    pub method: HttpMethod,
    pub url: String,
    pub timeout_secs: u64,
    pub bearer_token: Option<String>,
    pub headers: Vec<(String, String)>,
    pub body: HttpBody,
}

/// What a request's body holds.
pub ghost enum Body {
    Empty,
    Json(Json),
    LocalFile(std::path::PathBuf),
}

/// What a request holds.
pub ghost struct Request {
    pub method: HttpMethod,
    pub url: Seq<char>,
    pub timeout_secs: u64,
    pub bearer_token: Option<Seq<char>>,
    pub headers: Seq<(Seq<char>, Seq<char>)>,
    pub body: Body,
}

impl View for HttpBody {
    type V = Body;

    open spec fn view(&self) -> Body {
        match self {
            HttpBody::Empty => Body::Empty,
            HttpBody::Json(value) => Body::Json(json_of(*value)),
            HttpBody::LocalFile(path) => Body::LocalFile(*path),
        }
    }
}

/// What a list of headers holds.
pub open spec fn header_views(headers: Seq<(String, String)>) -> Seq<(Seq<char>, Seq<char>)> {
    headers.map_values(|h: (String, String)| (h.0@, h.1@))
}

impl View for HttpRequest {
    type V = Request;

    open spec fn view(&self) -> Request {
        Request {
            method: self.method,
            url: self.url@,
            timeout_secs: self.timeout_secs,
            bearer_token: opt_text(self.bearer_token),
            headers: header_views(self.headers@),
            body: self.body@,
        }
    }
}

/// A reply that has been read to its end.
#[derive(Debug)]
pub struct HttpReply {
    pub status: reqwest::StatusCode,
    pub body: String,
}

/// What a reply holds.
pub ghost struct Reply {
    pub status: reqwest::StatusCode,
    pub body: Seq<char>,
}

impl View for HttpReply {
    type V = Reply;

    open spec fn view(&self) -> Reply {
        Reply { status: self.status, body: self.body@ }
    }
}

/// What came of something that may fail for a reason given in words.
pub open spec fn outcome_view<T: View>(outcome: Result<T, String>) -> Result<T::V, Seq<char>> {
    match outcome {
        Ok(value) => Ok(value@),
        Err(reason) => Err(reason@),
    }
}

/// Headers name a model exactly if the first value under the name of its
/// header holds nothing but visible ASCII, spaces and tabs; the model is then
/// that value, character by character.
pub proof fn headers_name_the_model_as_it_is(firsts: Map<Seq<char>, Seq<u8>>, i: int)
    ensures
        model_in_headers(firsts) is Some <==> firsts.contains_key("openai-model"@) && forall|k: int|
            0 <= k < firsts["openai-model"@].len() ==> {
                let b = #[trigger] firsts["openai-model"@][k];
                (32 <= b && b < 127) || b == 9
            },
        model_in_headers(firsts) matches Some(model) ==> {
            &&& model.len() == firsts["openai-model"@].len()
            &&& 0 <= i < model.len() ==> model[i] as int == firsts["openai-model"@][i]
        },
{
    if firsts.contains_key("openai-model"@) {
        let bytes = firsts["openai-model"@];
        if visible_bytes(bytes) {
            assert forall|k: int| 0 <= k < bytes.len() implies {
                let b = #[trigger] bytes[k];
                (32 <= b && b < 127) || b == 9
            } by {
                assert(visible_byte(bytes[k]));
            }
        }
    }
}

} // verus!
