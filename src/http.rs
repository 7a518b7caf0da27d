//! The request/response adapter: which methods are sent, what is attached to
//! an outgoing request, and how a reply is normalised.
use crate::model::{HttpError, HttpRequest, HttpResponse};
use std::collections::HashMap;
use vstd::prelude::*;
use vstd::utf8::encode_utf8;

verus! {

/// The HTTP methods the adapter sends.
#[derive(Clone, Copy, Debug, PartialEq, Eq, Structural)]
pub enum HttpMethod {
    Get,
    Post,
    Put,
    Delete,
    Patch,
}

/// What `str::to_uppercase` makes of a text.
pub uninterp spec fn upper_of(s: Seq<char>) -> Seq<char>;

/// What `StatusCode::canonical_reason` gives for a status code.
pub uninterp spec fn reason_phrase_of(code: u16) -> Option<Seq<char>>;

/// Relies on `str::to_uppercase`: the upper-case form depends on the text alone.
#[verifier::external_body]
fn to_upper(s: &str) -> (r: String)
    ensures
        r@ == upper_of(s@),
{
    s.to_uppercase()
}

/// Relies on reqwest's `StatusCode::from_u16` and `StatusCode::canonical_reason`:
/// the reason phrase registered for a code, if the code is valid and has one.
#[verifier::external_body]
fn canonical_reason(code: u16) -> (r: Option<String>)
    ensures
        match r {
            Some(p) => reason_phrase_of(code) == Some(p@),
            None => reason_phrase_of(code) is None,
        },
{
    match reqwest::StatusCode::from_u16(code) {
        Ok(status) => status.canonical_reason().map(String::from),
        Err(_) => None,
    }
}

/// The method whose upper-case name is `u`, if it is one of the five sent.
pub open spec fn method_named(u: Seq<char>) -> Option<HttpMethod> {
    if u == "GET"@ {
        Some(HttpMethod::Get)
    } else if u == "POST"@ {
        Some(HttpMethod::Post)
    } else if u == "PUT"@ {
        Some(HttpMethod::Put)
    } else if u == "DELETE"@ {
        Some(HttpMethod::Delete)
    } else if u == "PATCH"@ {
        Some(HttpMethod::Patch)
    } else {
        None
    }
}

/// The error returned for a method that is not sent.
pub open spec fn is_unsupported_method_error(e: HttpError, method: Seq<char>) -> bool {
    &&& e.error@ == "Méthode HTTP non supportée"@
    &&& e.details matches Some(d) && d@ == "Méthode: "@ + method
}

/// The body attached to an outgoing request: only a present, non-empty one.
pub open spec fn body_to_send(body: Option<String>) -> Option<String> {
    match body {
        Some(b) => if b@.len() > 0 { Some(b) } else { None },
        None => None,
    }
}

/// The status text of a reply: the reason phrase, or "Unknown" without one.
pub open spec fn status_text_of(reason: Option<Seq<char>>) -> Seq<char> {
    match reason {
        Some(p) => p,
        None => "Unknown"@,
    }
}

fn same_text(a: &String, b: &str) -> (r: bool)
    ensures
        r == (a@ == b@),
{
    let t = String::from_str(b);
    *a == t
}

/// The method named by an upper-case text.
pub fn method_from_upper(u: &String) -> (r: Option<HttpMethod>)
    ensures
        r == method_named(u@),
{
    if same_text(u, "GET") {
        Some(HttpMethod::Get)
    } else if same_text(u, "POST") {
        Some(HttpMethod::Post)
    } else if same_text(u, "PUT") {
        Some(HttpMethod::Put)
    } else if same_text(u, "DELETE") {
        Some(HttpMethod::Delete)
    } else if same_text(u, "PATCH") {
        Some(HttpMethod::Patch)
    } else {
        None
    }
}

/// The error for a method that is not sent, naming the method.
pub fn unsupported_method_error(method: &String) -> (e: HttpError)
    ensures
        is_unsupported_method_error(e, method@),
{
    let details = String::from_str("Méthode: ").concat(method.as_str());
    HttpError { error: String::from_str("Méthode HTTP non supportée"), details: Some(details) }
}

/// Matches a method name without regard to case.
pub fn parse_method(method: &String) -> (r: Result<HttpMethod, HttpError>)
    ensures
        match r {
            Ok(m) => method_named(upper_of(method@)) == Some(m),
            Err(e) => method_named(upper_of(method@)) is None
                && is_unsupported_method_error(e, method@),
        },
{
    let upper = to_upper(method.as_str());
    match method_from_upper(&upper) {
        Some(m) => Ok(m),
        None => Err(unsupported_method_error(method)),
    }
}

/// An outgoing request, checked and ready to be sent.
#[derive(Debug)]
pub struct PreparedRequest {
    pub method: HttpMethod,
    pub url: String,
    pub headers: HashMap<String, String>,
    pub body: Option<String>,
}

/// The body attached to an outgoing request.
pub fn outgoing_body(body: Option<String>) -> (r: Option<String>)
    ensures
        r == body_to_send(body),
{
    match body {
        Some(b) => if b.as_str().is_empty() { None } else { Some(b) },
        None => None,
    }
}

/// Checks a request before it is sent: an unsupported method fails here, and
/// then nothing is sent; otherwise every header is kept and the body is
/// attached only when present and non-empty.
pub fn prepare_request(request: HttpRequest) -> (r: Result<PreparedRequest, HttpError>)
    ensures
        match r {
            Ok(p) => {
                &&& method_named(upper_of(request.method@)) == Some(p.method)
                &&& p.url == request.url
                &&& p.headers == request.headers
                &&& p.body == body_to_send(request.body)
            },
            Err(e) => method_named(upper_of(request.method@)) is None
                && is_unsupported_method_error(e, request.method@),
        },
{
    let HttpRequest { url, method, headers, body } = request;
    match parse_method(&method) {
        Ok(m) => Ok(PreparedRequest { method: m, url, headers, body: outgoing_body(body) }),
        Err(e) => Err(e),
    }
}

/// The status text for a reason phrase, if the transport had one.
pub fn status_text_for(reason: Option<String>) -> (r: String)
    ensures
        r@ == status_text_of(match reason {
            Some(p) => Some(p@),
            None => None,
        }),
{
    match reason {
        Some(p) => p,
        None => String::from_str("Unknown"),
    }
}

/// Normalises a reply: the status code and its reason phrase, the headers and
/// the body as received, the elapsed time, and the body's length in bytes.
pub fn build_response(status: u16, headers: HashMap<String, String>, body: String, time_ms: u128) -> (r: HttpResponse)
    ensures
        r.status == status,
        r.status_text@ == status_text_of(reason_phrase_of(status)),
        r.headers == headers,
        r.body == body,
        r.time_ms == time_ms,
        r.size == encode_utf8(body@).len() as usize,
{
    let status_text = status_text_for(canonical_reason(status));
    let size = body.as_str().len();
    HttpResponse { status, status_text, headers, body, time_ms, size }
}

/// The text kept for a header value: the value, or empty when it was not
/// readable as text.
pub open spec fn header_text(v: Option<String>) -> Seq<char> {
    match v {
        Some(t) => t@,
        None => Seq::empty(),
    }
}

/// The headers of a reply as a map of texts; a later pair wins over an
/// earlier one with the same name.
pub open spec fn header_texts(pairs: Seq<(String, Option<String>)>) -> Map<String, Seq<char>>
    decreases pairs.len(),
{
    if pairs.len() == 0 {
        Map::empty()
    } else {
        let last = pairs.last();
        header_texts(pairs.drop_last()).insert(last.0, header_text(last.1))
    }
}

/// The texts of a map of headers.
pub open spec fn texts_of(m: Map<String, String>) -> Map<String, Seq<char>> {
    m.map_values(|t: String| t@)
}

/// Collects the headers of a reply in the order received. Whatever the hash
/// map does with equal keys, each value is kept as text, an unreadable one as
/// the empty text; under the hash map's key model the result is exactly the
/// last value of each name.
pub fn collect_headers(pairs: Vec<(String, Option<String>)>) -> (r: HashMap<String, String>)
    ensures
        vstd::std_specs::hash::obeys_key_model::<String>() ==> texts_of(r@) == header_texts(pairs@),
{
    let mut headers: HashMap<String, String> = HashMap::new();
    let mut i: usize = 0;
    proof {
        assert(pairs@.subrange(0, 0) =~= Seq::<(String, Option<String>)>::empty());
        assert(texts_of(headers@) =~= Map::<String, Seq<char>>::empty());
    }
    while i < pairs.len()
        invariant
            i <= pairs@.len(),
            vstd::std_specs::hash::obeys_key_model::<String>() ==> texts_of(headers@)
                == header_texts(pairs@.subrange(0, i as int)),
        decreases pairs@.len() - i,
    {
        let name = pairs[i].0.clone();
        let value = match &pairs[i].1 {
            Some(t) => t.clone(),
            None => String::new(),
        };
        let ghost before = headers@;
        headers.insert(name, value);
        proof {
            let next = pairs@.subrange(0, i + 1);
            assert(next.drop_last() =~= pairs@.subrange(0, i as int));
            assert(next.last() == pairs@[i as int]);
            if vstd::std_specs::hash::obeys_key_model::<String>() {
                assert(value@ == header_text(pairs@[i as int].1));
                assert(texts_of(headers@) =~= texts_of(before).insert(name, value@));
            }
        }
        i = i + 1;
    }
    proof {
        assert(pairs@.subrange(0, pairs@.len() as int) =~= pairs@);
    }
    headers
}

/// The error for a request that could not be sent.
pub fn send_error(detail: String) -> (e: HttpError)
    ensures
        e.error@ == "Erreur lors de l'envoi de la requête"@,
        e.details == Some(detail),
{
    HttpError { error: String::from_str("Erreur lors de l'envoi de la requête"), details: Some(detail) }
}

/// The error for a reply whose body could not be read as text.
pub fn body_read_error(detail: String) -> (e: HttpError)
    ensures
        e.error@ == "Erreur lors de la lecture du body"@,
        e.details == Some(detail),
{
    HttpError { error: String::from_str("Erreur lors de la lecture du body"), details: Some(detail) }
}

} // verus!
