//! The text layer: JSON text to [`JsonValue`] trees and back.
//!
//! Parsing and printing of JSON text are delegated to the `serde_json`
//! crate behind two trusted wrappers; both directions are named by
//! uninterpreted spec functions, since each depends on its argument alone.
//! Everything on top — one decode and one encode function per entity — is
//! verified against the codec specs in [`crate::codec`].

use vstd::prelude::*;
use crate::json::{JsonV, JsonValue};
use crate::codec::{
    DecodeError, DecodeErrorV, spec_dec_browser, spec_dec_cache, spec_dec_cache_entry,
    spec_dec_content, spec_dec_cookie, spec_dec_creator, spec_dec_entry, spec_dec_header,
    spec_dec_log, spec_dec_page, spec_dec_page_timings, spec_dec_param, spec_dec_post_data,
    spec_dec_query_string_pair, spec_dec_request, spec_dec_response, spec_dec_timing,
    spec_enc_browser, spec_enc_cache, spec_enc_cache_entry, spec_enc_content, spec_enc_cookie,
    spec_enc_creator, spec_enc_entry, spec_enc_header, spec_enc_log, spec_enc_page,
    spec_enc_page_timings, spec_enc_param, spec_enc_post_data, spec_enc_query_string_pair,
    spec_enc_request, spec_enc_response, spec_enc_timing,
};
use crate::dec::{
    decode_browser_value, decode_cache_entry_value, decode_cache_value, decode_content_value,
    decode_cookie_value, decode_creator_value, decode_entry_value, decode_header_value,
    decode_log_value, decode_page_timings_value, decode_page_value, decode_param_value,
    decode_post_data_value, decode_query_string_pair_value, decode_request_value,
    decode_response_value, decode_timing_value,
};
use crate::enc::{
    encode_browser_value, encode_cache_entry_value, encode_cache_value, encode_content_value,
    encode_cookie_value, encode_creator_value, encode_entry_value, encode_header_value,
    encode_log_value, encode_page_timings_value, encode_page_value, encode_param_value,
    encode_post_data_value, encode_query_string_pair_value, encode_request_value,
    encode_response_value, encode_timing_value,
};
use crate::model::{
    Browser, BrowserV, Cache, CacheEntry, CacheEntryV, CacheV, Content, ContentV, Cookie, CookieV,
    Creator, CreatorV, Entry, EntryV, Header, HeaderV, Log, LogV, Page, PageTimings, PageTimingsV,
    PageV, Param, ParamV, PostData, PostDataV, QueryStringPair, QueryStringPairV, Request,
    RequestV, Response, ResponseV, Timing, TimingV,
};

verus! {

/// What JSON text parses to: the document tree, or nothing when the text is
/// not well-formed JSON (or holds a number outside the supported range).
pub uninterp spec fn parsed_json(s: Seq<char>) -> Option<JsonV>;

/// The JSON text a document tree prints to.
pub uninterp spec fn rendered_json(t: JsonV) -> Seq<char>;

#[verifier::external_type_specification]
#[verifier::external_body]
pub struct ExValue(serde_json::Value);

/// The conversion half of [`parse_json`]: a `serde_json` tree into the
/// library's own. Relies on `serde_json::Value` and
/// `serde_json::Number::as_i64`; a number with no 64-bit integer form is kept
/// as [`JsonValue::NumOther`].
#[verifier::external_body]
fn from_serde(v: &serde_json::Value) -> JsonValue {
    match v {
        serde_json::Value::Null => JsonValue::Null,
        serde_json::Value::Bool(b) => JsonValue::Bool(*b),
        serde_json::Value::Number(n) => match n.as_i64() {
            Some(i) => JsonValue::Num(i),
            None => JsonValue::NumOther,
        },
        serde_json::Value::String(s) => JsonValue::Str(s.clone()),
        serde_json::Value::Array(a) => JsonValue::Arr(a.iter().map(from_serde).collect()),
        serde_json::Value::Object(m) => JsonValue::Obj(
            m.iter().map(|(k, x)| (k.clone(), from_serde(x))).collect(),
        ),
    }
}

/// The conversion half of [`render_json`]: the library's tree into a
/// `serde_json` one. Relies on `serde_json::Value`'s constructors.
#[verifier::external_body]
fn to_serde(v: &JsonValue) -> serde_json::Value {
    match v {
        JsonValue::Null => serde_json::Value::Null,
        JsonValue::Bool(b) => serde_json::Value::Bool(*b),
        JsonValue::Num(n) => serde_json::Value::Number(serde_json::Number::from(*n)),
        JsonValue::NumOther => serde_json::Value::Null,
        JsonValue::Str(s) => serde_json::Value::String(s.clone()),
        JsonValue::Arr(a) => serde_json::Value::Array(a.iter().map(to_serde).collect()),
        JsonValue::Obj(o) => serde_json::Value::Object(
            o.iter().map(|(k, x)| (k.clone(), to_serde(x))).collect(),
        ),
    }
}

/// Relies on `serde_json::from_str::<serde_json::Value>`: the parse of a
/// text depends on the text alone; well-formed JSON parses to its tree and
/// anything else is rejected.
#[verifier::external_body]
fn parse_json(s: &str) -> (r: Option<JsonValue>)
    ensures
        match r {
            Some(v) => parsed_json(s@) == Some(v@),
            None => parsed_json(s@) is None,
        },
{
    match serde_json::from_str::<serde_json::Value>(s) {
        Ok(v) => Some(from_serde(&v)),
        Err(_) => None,
    }
}

/// Relies on `serde_json::to_string` on a `serde_json::Value`: printing
/// depends on the tree alone and cannot fail for these trees.
#[verifier::external_body]
fn render_json(v: &JsonValue) -> (r: String)
    ensures
        r@ == rendered_json(v@),
{
    match serde_json::to_string(&to_serde(v)) {
        Ok(s) => s,
        Err(_) => String::new(),
    }
}

/// Decode a [`Log`] from JSON text.
pub fn decode_log(s: &str) -> (r: Result<Log, DecodeError>)
    ensures
        match parsed_json(s@) {
            None => r == Err::<Log, DecodeError>(DecodeError::MalformedJson),
            Some(j) => match r {
                Ok(x) => spec_dec_log(j) == Ok::<LogV, DecodeErrorV>(x.deep_view()),
                Err(e) => spec_dec_log(j) == Err::<LogV, DecodeErrorV>(e.deep_view()),
            },
        },
{
    match parse_json(s) {
        Some(v) => decode_log_value(&v),
        None => Err(DecodeError::MalformedJson),
    }
}

/// Encode a [`Log`] as JSON text.
pub fn encode_log(x: &Log) -> (r: String)
    ensures
        r@ == rendered_json(spec_enc_log(x.deep_view())),
{
    render_json(&encode_log_value(x))
}

/// Decode a [`Creator`] from JSON text.
pub fn decode_creator(s: &str) -> (r: Result<Creator, DecodeError>)
    ensures
        match parsed_json(s@) {
            None => r == Err::<Creator, DecodeError>(DecodeError::MalformedJson),
            Some(j) => match r {
                Ok(x) => spec_dec_creator(j) == Ok::<CreatorV, DecodeErrorV>(x.deep_view()),
                Err(e) => spec_dec_creator(j) == Err::<CreatorV, DecodeErrorV>(e.deep_view()),
            },
        },
{
    match parse_json(s) {
        Some(v) => decode_creator_value(&v),
        None => Err(DecodeError::MalformedJson),
    }
}

/// Encode a [`Creator`] as JSON text.
pub fn encode_creator(x: &Creator) -> (r: String)
    ensures
        r@ == rendered_json(spec_enc_creator(x.deep_view())),
{
    render_json(&encode_creator_value(x))
}

/// Decode a [`Browser`] from JSON text.
pub fn decode_browser(s: &str) -> (r: Result<Browser, DecodeError>)
    ensures
        match parsed_json(s@) {
            None => r == Err::<Browser, DecodeError>(DecodeError::MalformedJson),
            Some(j) => match r {
                Ok(x) => spec_dec_browser(j) == Ok::<BrowserV, DecodeErrorV>(x.deep_view()),
                Err(e) => spec_dec_browser(j) == Err::<BrowserV, DecodeErrorV>(e.deep_view()),
            },
        },
{
    match parse_json(s) {
        Some(v) => decode_browser_value(&v),
        None => Err(DecodeError::MalformedJson),
    }
}

/// Encode a [`Browser`] as JSON text.
pub fn encode_browser(x: &Browser) -> (r: String)
    ensures
        r@ == rendered_json(spec_enc_browser(x.deep_view())),
{
    render_json(&encode_browser_value(x))
}

/// Decode a [`Page`] from JSON text.
pub fn decode_page(s: &str) -> (r: Result<Page, DecodeError>)
    ensures
        match parsed_json(s@) {
            None => r == Err::<Page, DecodeError>(DecodeError::MalformedJson),
            Some(j) => match r {
                Ok(x) => spec_dec_page(j) == Ok::<PageV, DecodeErrorV>(x.deep_view()),
                Err(e) => spec_dec_page(j) == Err::<PageV, DecodeErrorV>(e.deep_view()),
            },
        },
{
    match parse_json(s) {
        Some(v) => decode_page_value(&v),
        None => Err(DecodeError::MalformedJson),
    }
}

/// Encode a [`Page`] as JSON text.
pub fn encode_page(x: &Page) -> (r: String)
    ensures
        r@ == rendered_json(spec_enc_page(x.deep_view())),
{
    render_json(&encode_page_value(x))
}

/// Decode a [`PageTimings`] from JSON text.
pub fn decode_page_timings(s: &str) -> (r: Result<PageTimings, DecodeError>)
    ensures
        match parsed_json(s@) {
            None => r == Err::<PageTimings, DecodeError>(DecodeError::MalformedJson),
            Some(j) => match r {
                Ok(x) => spec_dec_page_timings(j) == Ok::<PageTimingsV, DecodeErrorV>(x.deep_view()),
                Err(e) => spec_dec_page_timings(j) == Err::<PageTimingsV, DecodeErrorV>(e.deep_view()),
            },
        },
{
    match parse_json(s) {
        Some(v) => decode_page_timings_value(&v),
        None => Err(DecodeError::MalformedJson),
    }
}

/// Encode a [`PageTimings`] as JSON text.
pub fn encode_page_timings(x: &PageTimings) -> (r: String)
    ensures
        r@ == rendered_json(spec_enc_page_timings(x.deep_view())),
{
    render_json(&encode_page_timings_value(x))
}

/// Decode an [`Entry`] from JSON text.
pub fn decode_entry(s: &str) -> (r: Result<Entry, DecodeError>)
    ensures
        match parsed_json(s@) {
            None => r == Err::<Entry, DecodeError>(DecodeError::MalformedJson),
            Some(j) => match r {
                Ok(x) => spec_dec_entry(j) == Ok::<EntryV, DecodeErrorV>(x.deep_view()),
                Err(e) => spec_dec_entry(j) == Err::<EntryV, DecodeErrorV>(e.deep_view()),
            },
        },
{
    match parse_json(s) {
        Some(v) => decode_entry_value(&v),
        None => Err(DecodeError::MalformedJson),
    }
}

/// Encode an [`Entry`] as JSON text.
pub fn encode_entry(x: &Entry) -> (r: String)
    ensures
        r@ == rendered_json(spec_enc_entry(x.deep_view())),
{
    render_json(&encode_entry_value(x))
}

/// Decode a [`Request`] from JSON text.
pub fn decode_request(s: &str) -> (r: Result<Request, DecodeError>)
    ensures
        match parsed_json(s@) {
            None => r == Err::<Request, DecodeError>(DecodeError::MalformedJson),
            Some(j) => match r {
                Ok(x) => spec_dec_request(j) == Ok::<RequestV, DecodeErrorV>(x.deep_view()),
                Err(e) => spec_dec_request(j) == Err::<RequestV, DecodeErrorV>(e.deep_view()),
            },
        },
{
    match parse_json(s) {
        Some(v) => decode_request_value(&v),
        None => Err(DecodeError::MalformedJson),
    }
}

/// Encode a [`Request`] as JSON text.
pub fn encode_request(x: &Request) -> (r: String)
    ensures
        r@ == rendered_json(spec_enc_request(x.deep_view())),
{
    render_json(&encode_request_value(x))
}

/// Decode a [`Response`] from JSON text.
pub fn decode_response(s: &str) -> (r: Result<Response, DecodeError>)
    ensures
        match parsed_json(s@) {
            None => r == Err::<Response, DecodeError>(DecodeError::MalformedJson),
            Some(j) => match r {
                Ok(x) => spec_dec_response(j) == Ok::<ResponseV, DecodeErrorV>(x.deep_view()),
                Err(e) => spec_dec_response(j) == Err::<ResponseV, DecodeErrorV>(e.deep_view()),
            },
        },
{
    match parse_json(s) {
        Some(v) => decode_response_value(&v),
        None => Err(DecodeError::MalformedJson),
    }
}

/// Encode a [`Response`] as JSON text.
pub fn encode_response(x: &Response) -> (r: String)
    ensures
        r@ == rendered_json(spec_enc_response(x.deep_view())),
{
    render_json(&encode_response_value(x))
}

/// Decode a [`Cookie`] from JSON text.
pub fn decode_cookie(s: &str) -> (r: Result<Cookie, DecodeError>)
    ensures
        match parsed_json(s@) {
            None => r == Err::<Cookie, DecodeError>(DecodeError::MalformedJson),
            Some(j) => match r {
                Ok(x) => spec_dec_cookie(j) == Ok::<CookieV, DecodeErrorV>(x.deep_view()),
                Err(e) => spec_dec_cookie(j) == Err::<CookieV, DecodeErrorV>(e.deep_view()),
            },
        },
{
    match parse_json(s) {
        Some(v) => decode_cookie_value(&v),
        None => Err(DecodeError::MalformedJson),
    }
}

/// Encode a [`Cookie`] as JSON text.
pub fn encode_cookie(x: &Cookie) -> (r: String)
    ensures
        r@ == rendered_json(spec_enc_cookie(x.deep_view())),
{
    render_json(&encode_cookie_value(x))
}

/// Decode a [`Header`] from JSON text.
pub fn decode_header(s: &str) -> (r: Result<Header, DecodeError>)
    ensures
        match parsed_json(s@) {
            None => r == Err::<Header, DecodeError>(DecodeError::MalformedJson),
            Some(j) => match r {
                Ok(x) => spec_dec_header(j) == Ok::<HeaderV, DecodeErrorV>(x.deep_view()),
                Err(e) => spec_dec_header(j) == Err::<HeaderV, DecodeErrorV>(e.deep_view()),
            },
        },
{
    match parse_json(s) {
        Some(v) => decode_header_value(&v),
        None => Err(DecodeError::MalformedJson),
    }
}

/// Encode a [`Header`] as JSON text.
pub fn encode_header(x: &Header) -> (r: String)
    ensures
        r@ == rendered_json(spec_enc_header(x.deep_view())),
{
    render_json(&encode_header_value(x))
}

/// Decode a [`QueryStringPair`] from JSON text.
pub fn decode_query_string_pair(s: &str) -> (r: Result<QueryStringPair, DecodeError>)
    ensures
        match parsed_json(s@) {
            None => r == Err::<QueryStringPair, DecodeError>(DecodeError::MalformedJson),
            Some(j) => match r {
                Ok(x) => spec_dec_query_string_pair(j) == Ok::<QueryStringPairV, DecodeErrorV>(x.deep_view()),
                Err(e) => spec_dec_query_string_pair(j) == Err::<QueryStringPairV, DecodeErrorV>(e.deep_view()),
            },
        },
{
    match parse_json(s) {
        Some(v) => decode_query_string_pair_value(&v),
        None => Err(DecodeError::MalformedJson),
    }
}

/// Encode a [`QueryStringPair`] as JSON text.
pub fn encode_query_string_pair(x: &QueryStringPair) -> (r: String)
    ensures
        r@ == rendered_json(spec_enc_query_string_pair(x.deep_view())),
{
    render_json(&encode_query_string_pair_value(x))
}

/// Decode a [`PostData`] from JSON text.
pub fn decode_post_data(s: &str) -> (r: Result<PostData, DecodeError>)
    ensures
        match parsed_json(s@) {
            None => r == Err::<PostData, DecodeError>(DecodeError::MalformedJson),
            Some(j) => match r {
                Ok(x) => spec_dec_post_data(j) == Ok::<PostDataV, DecodeErrorV>(x.deep_view()),
                Err(e) => spec_dec_post_data(j) == Err::<PostDataV, DecodeErrorV>(e.deep_view()),
            },
        },
{
    match parse_json(s) {
        Some(v) => decode_post_data_value(&v),
        None => Err(DecodeError::MalformedJson),
    }
}

/// Encode a [`PostData`] as JSON text.
pub fn encode_post_data(x: &PostData) -> (r: String)
    ensures
        r@ == rendered_json(spec_enc_post_data(x.deep_view())),
{
    render_json(&encode_post_data_value(x))
}

/// Decode a [`Param`] from JSON text.
pub fn decode_param(s: &str) -> (r: Result<Param, DecodeError>)
    ensures
        match parsed_json(s@) {
            None => r == Err::<Param, DecodeError>(DecodeError::MalformedJson),
            Some(j) => match r {
                Ok(x) => spec_dec_param(j) == Ok::<ParamV, DecodeErrorV>(x.deep_view()),
                Err(e) => spec_dec_param(j) == Err::<ParamV, DecodeErrorV>(e.deep_view()),
            },
        },
{
    match parse_json(s) {
        Some(v) => decode_param_value(&v),
        None => Err(DecodeError::MalformedJson),
    }
}

/// Encode a [`Param`] as JSON text.
pub fn encode_param(x: &Param) -> (r: String)
    ensures
        r@ == rendered_json(spec_enc_param(x.deep_view())),
{
    render_json(&encode_param_value(x))
}

/// Decode a [`Content`] from JSON text.
pub fn decode_content(s: &str) -> (r: Result<Content, DecodeError>)
    ensures
        match parsed_json(s@) {
            None => r == Err::<Content, DecodeError>(DecodeError::MalformedJson),
            Some(j) => match r {
                Ok(x) => spec_dec_content(j) == Ok::<ContentV, DecodeErrorV>(x.deep_view()),
                Err(e) => spec_dec_content(j) == Err::<ContentV, DecodeErrorV>(e.deep_view()),
            },
        },
{
    match parse_json(s) {
        Some(v) => decode_content_value(&v),
        None => Err(DecodeError::MalformedJson),
    }
}

/// Encode a [`Content`] as JSON text.
pub fn encode_content(x: &Content) -> (r: String)
    ensures
        r@ == rendered_json(spec_enc_content(x.deep_view())),
{
    render_json(&encode_content_value(x))
}

/// Decode a [`Cache`] from JSON text.
pub fn decode_cache(s: &str) -> (r: Result<Cache, DecodeError>)
    ensures
        match parsed_json(s@) {
            None => r == Err::<Cache, DecodeError>(DecodeError::MalformedJson),
            Some(j) => match r {
                Ok(x) => spec_dec_cache(j) == Ok::<CacheV, DecodeErrorV>(x.deep_view()),
                Err(e) => spec_dec_cache(j) == Err::<CacheV, DecodeErrorV>(e.deep_view()),
            },
        },
{
    match parse_json(s) {
        Some(v) => decode_cache_value(&v),
        None => Err(DecodeError::MalformedJson),
    }
}

/// Encode a [`Cache`] as JSON text.
pub fn encode_cache(x: &Cache) -> (r: String)
    ensures
        r@ == rendered_json(spec_enc_cache(x.deep_view())),
{
    render_json(&encode_cache_value(x))
}

/// Decode a [`CacheEntry`] from JSON text.
pub fn decode_cache_entry(s: &str) -> (r: Result<CacheEntry, DecodeError>)
    ensures
        match parsed_json(s@) {
            None => r == Err::<CacheEntry, DecodeError>(DecodeError::MalformedJson),
            Some(j) => match r {
                Ok(x) => spec_dec_cache_entry(j) == Ok::<CacheEntryV, DecodeErrorV>(x.deep_view()),
                Err(e) => spec_dec_cache_entry(j) == Err::<CacheEntryV, DecodeErrorV>(e.deep_view()),
            },
        },
{
    match parse_json(s) {
        Some(v) => decode_cache_entry_value(&v),
        None => Err(DecodeError::MalformedJson),
    }
}

/// Encode a [`CacheEntry`] as JSON text.
pub fn encode_cache_entry(x: &CacheEntry) -> (r: String)
    ensures
        r@ == rendered_json(spec_enc_cache_entry(x.deep_view())),
{
    render_json(&encode_cache_entry_value(x))
}

/// Decode a [`Timing`] from JSON text.
pub fn decode_timing(s: &str) -> (r: Result<Timing, DecodeError>)
    ensures
        match parsed_json(s@) {
            None => r == Err::<Timing, DecodeError>(DecodeError::MalformedJson),
            Some(j) => match r {
                Ok(x) => spec_dec_timing(j) == Ok::<TimingV, DecodeErrorV>(x.deep_view()),
                Err(e) => spec_dec_timing(j) == Err::<TimingV, DecodeErrorV>(e.deep_view()),
            },
        },
{
    match parse_json(s) {
        Some(v) => decode_timing_value(&v),
        None => Err(DecodeError::MalformedJson),
    }
}

/// Encode a [`Timing`] as JSON text.
pub fn encode_timing(x: &Timing) -> (r: String)
    ensures
        r@ == rendered_json(spec_enc_timing(x.deep_view())),
{
    render_json(&encode_timing_value(x))
}

} // verus!
