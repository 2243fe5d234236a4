//! The wire-format rules, as spec functions.
//!
//! Encoding turns each entity view into a [`JsonV`] tree; decoding is its
//! total inverse over arbitrary trees, returning the exact error the wire
//! rules call for. Four field classes cover the format: mandatory values,
//! always-present sequences (an empty list encodes as `[]`, and a missing
//! key decodes as empty), optional fields (the key is omitted when absent,
//! and a missing key or an explicit `null` decodes as absent), and unknown
//! keys (ignored on decode). Two encodings are special: a timing that does
//! not apply is the number `-1`, never a missing key; and a cache state
//! distinguishes a missing key (unknown), `null` (absent) and an object
//! (present).

use vstd::prelude::*;
use crate::json::{JsonV, fld, obj_get, opt_fld};
use crate::model::{
    BrowserV, CacheEntryV, CacheStateV, CacheV, ContentV, CookieV, CreatorV, EntryV, HeaderV, LogV,
    OptionalTiming, PageTimingsV, PageV, ParamV, PostDataV, QueryStringPairV, RequestV, ResponseV,
    TimingV,
};

verus! {

/// Why a document could not be decoded. The two strings locate the failure:
/// the entity, and the field within it (empty when the entity itself had the
/// wrong JSON shape).
#[derive(Debug, PartialEq)]
pub enum DecodeError {
    /// A mandatory key is absent.
    MissingField(String, String),
    /// A present value has the wrong JSON shape for its field.
    TypeMismatch(String, String),
    /// A timing number below zero other than the `-1` sentinel.
    InvalidTiming(String, String),
    /// A present cache state that is neither `null` nor a well-formed entry.
    InvalidCacheState(String, String),
    /// The input is not well-formed JSON.
    MalformedJson,
}

/// Ghost form of [`DecodeError`].
#[verifier::ext_equal]
pub enum DecodeErrorV {
    MissingField(Seq<char>, Seq<char>),
    TypeMismatch(Seq<char>, Seq<char>),
    InvalidTiming(Seq<char>, Seq<char>),
    InvalidCacheState(Seq<char>, Seq<char>),
    MalformedJson,
}

impl DeepView for DecodeError {
    type V = DecodeErrorV;

    open spec fn deep_view(&self) -> DecodeErrorV {
        match self {
            DecodeError::MissingField(e, f) => DecodeErrorV::MissingField(e@, f@),
            DecodeError::TypeMismatch(e, f) => DecodeErrorV::TypeMismatch(e@, f@),
            DecodeError::InvalidTiming(e, f) => DecodeErrorV::InvalidTiming(e@, f@),
            DecodeError::InvalidCacheState(e, f) => DecodeErrorV::InvalidCacheState(e@, f@),
            DecodeError::MalformedJson => DecodeErrorV::MalformedJson,
        }
    }
}

// ---------------------------------------------------------------------------
// Encoding
// ---------------------------------------------------------------------------

/// An optional string value, as an optional member.
pub open spec fn opt_str_v(o: Option<Seq<char>>) -> Option<JsonV> {
    match o {
        Some(s) => Some(JsonV::Str(s)),
        None => None,
    }
}

/// An optional boolean value, as an optional member.
pub open spec fn opt_bool_v(o: Option<bool>) -> Option<JsonV> {
    match o {
        Some(b) => Some(JsonV::Bool(b)),
        None => None,
    }
}

/// An optional 32-bit integer value, as an optional member.
pub open spec fn opt_i32_v(o: Option<i32>) -> Option<JsonV> {
    match o {
        Some(n) => Some(JsonV::Num(n as int)),
        None => None,
    }
}

/// A timing on the wire: its duration, or the `-1` sentinel when it does not
/// apply. Always a number, never a missing key or `null`.
pub open spec fn spec_enc_opt_timing(t: OptionalTiming) -> JsonV {
    match t {
        OptionalTiming::TimedContent(v) => JsonV::Num(v as int),
        OptionalTiming::NotApplicable => JsonV::Num(-1),
    }
}

pub open spec fn spec_enc_creator(c: CreatorV) -> JsonV {
    JsonV::Obj(
        fld("name"@, JsonV::Str(c.name)) + fld("version"@, JsonV::Str(c.version)) + opt_fld(
            "comment"@,
            opt_str_v(c.comment),
        ),
    )
}

pub open spec fn spec_enc_browser(b: BrowserV) -> JsonV {
    JsonV::Obj(
        fld("name"@, JsonV::Str(b.name)) + fld("version"@, JsonV::Str(b.version)) + opt_fld(
            "comment"@,
            opt_str_v(b.comment),
        ),
    )
}

pub open spec fn spec_enc_cookie(c: CookieV) -> JsonV {
    JsonV::Obj(
        fld("name"@, JsonV::Str(c.name)) + fld("value"@, JsonV::Str(c.value)) + opt_fld(
            "path"@,
            opt_str_v(c.path),
        ) + opt_fld("domain"@, opt_str_v(c.domain)) + opt_fld("expires"@, opt_str_v(c.expires))
            + opt_fld("httpOnly"@, opt_bool_v(c.http_only)) + opt_fld(
            "secure"@,
            opt_bool_v(c.secure),
        ) + opt_fld("comment"@, opt_str_v(c.comment)),
    )
}

pub open spec fn spec_enc_header(h: HeaderV) -> JsonV {
    JsonV::Obj(
        fld("name"@, JsonV::Str(h.name)) + fld("value"@, JsonV::Str(h.value)) + opt_fld(
            "comment"@,
            opt_str_v(h.comment),
        ),
    )
}

pub open spec fn spec_enc_query_string_pair(q: QueryStringPairV) -> JsonV {
    JsonV::Obj(
        fld("name"@, JsonV::Str(q.name)) + fld("value"@, JsonV::Str(q.value)) + opt_fld(
            "comment"@,
            opt_str_v(q.comment),
        ),
    )
}

pub open spec fn spec_enc_param(p: ParamV) -> JsonV {
    JsonV::Obj(
        fld("name"@, JsonV::Str(p.name)) + opt_fld("value"@, opt_str_v(p.value)) + opt_fld(
            "fileName"@,
            opt_str_v(p.file_name),
        ) + opt_fld("contentType"@, opt_str_v(p.content_type)) + opt_fld(
            "comment"@,
            opt_str_v(p.comment),
        ),
    )
}

pub open spec fn spec_enc_post_data(p: PostDataV) -> JsonV {
    JsonV::Obj(
        fld("mimeType"@, JsonV::Str(p.mime_type)) + fld(
            "params"@,
            JsonV::Arr(p.params.map_values(|x: ParamV| spec_enc_param(x))),
        ) + fld("text"@, JsonV::Str(p.text)) + opt_fld("comment"@, opt_str_v(p.comment)),
    )
}

pub open spec fn spec_enc_content(c: ContentV) -> JsonV {
    JsonV::Obj(
        fld("size"@, JsonV::Num(c.size as int)) + opt_fld("compression"@, opt_i32_v(c.compression))
            + fld("mimeType"@, JsonV::Str(c.mime_type)) + opt_fld("text"@, opt_str_v(c.text))
            + opt_fld("encoding"@, opt_str_v(c.encoding)) + opt_fld(
            "comment"@,
            opt_str_v(c.comment),
        ),
    )
}

pub open spec fn spec_enc_request(r: RequestV) -> JsonV {
    JsonV::Obj(
        fld("method"@, JsonV::Str(r.method)) + fld("url"@, JsonV::Str(r.url)) + fld(
            "httpVersion"@,
            JsonV::Str(r.http_version),
        ) + fld("cookies"@, JsonV::Arr(r.cookies.map_values(|x: CookieV| spec_enc_cookie(x))))
            + fld("headers"@, JsonV::Arr(r.headers.map_values(|x: HeaderV| spec_enc_header(x))))
            + fld(
            "queryString"@,
            JsonV::Arr(
                r.query_string.map_values(|x: QueryStringPairV| spec_enc_query_string_pair(x)),
            ),
        ) + opt_fld(
            "postData"@,
            match r.post_data {
                Some(p) => Some(spec_enc_post_data(p)),
                None => None,
            },
        ) + opt_fld("headersSize"@, opt_i32_v(r.headers_size)) + opt_fld(
            "bodySize"@,
            opt_i32_v(r.body_size),
        ) + opt_fld("comment"@, opt_str_v(r.comment)),
    )
}

pub open spec fn spec_enc_response(r: ResponseV) -> JsonV {
    JsonV::Obj(
        fld("status"@, JsonV::Num(r.status as int)) + fld("statusText"@, JsonV::Str(r.status_text))
            + fld("httpVersion"@, JsonV::Str(r.http_version)) + fld(
            "cookies"@,
            JsonV::Arr(r.cookies.map_values(|x: CookieV| spec_enc_cookie(x))),
        ) + fld("headers"@, JsonV::Arr(r.headers.map_values(|x: HeaderV| spec_enc_header(x))))
            + fld("content"@, spec_enc_content(r.content)) + fld(
            "redirectURL"@,
            JsonV::Str(r.redirect_url),
        ) + opt_fld("headersSize"@, opt_i32_v(r.headers_size)) + opt_fld(
            "bodySize"@,
            opt_i32_v(r.body_size),
        ) + opt_fld("comment"@, opt_str_v(r.comment)),
    )
}

pub open spec fn spec_enc_cache_entry(e: CacheEntryV) -> JsonV {
    JsonV::Obj(
        opt_fld("expires"@, opt_str_v(e.expires)) + fld("lastAccess"@, JsonV::Str(e.last_access))
            + fld("eTag"@, JsonV::Str(e.e_tag)) + fld("hitCount"@, JsonV::Num(e.hit_count as int))
            + opt_fld("comment"@, opt_str_v(e.comment)),
    )
}

/// A cache state as an optional member: unknown omits the key, absent writes
/// `null`, present writes the entry object.
pub open spec fn spec_enc_cache_state(s: CacheStateV) -> Option<JsonV> {
    match s {
        CacheStateV::Unknown => None,
        CacheStateV::Absent => Some(JsonV::Null),
        CacheStateV::Present(e) => Some(spec_enc_cache_entry(e)),
    }
}

pub open spec fn spec_enc_cache(c: CacheV) -> JsonV {
    JsonV::Obj(
        opt_fld("beforeRequest"@, spec_enc_cache_state(c.before_request)) + opt_fld(
            "afterRequest"@,
            spec_enc_cache_state(c.after_request),
        ) + opt_fld("comment"@, opt_str_v(c.comment)),
    )
}

pub open spec fn spec_enc_timing(t: TimingV) -> JsonV {
    JsonV::Obj(
        fld("blocked"@, spec_enc_opt_timing(t.blocked)) + fld("dns"@, spec_enc_opt_timing(t.dns))
            + fld("connect"@, spec_enc_opt_timing(t.connect)) + fld(
            "send"@,
            JsonV::Num(t.send as int),
        ) + fld("wait"@, JsonV::Num(t.wait as int)) + fld("receive"@, JsonV::Num(t.receive as int))
            + fld("ssl"@, spec_enc_opt_timing(t.ssl)) + opt_fld("comment"@, opt_str_v(t.comment)),
    )
}

pub open spec fn spec_enc_page_timings(t: PageTimingsV) -> JsonV {
    JsonV::Obj(
        fld("onContentLoad"@, spec_enc_opt_timing(t.on_content_load)) + fld(
            "onLoad"@,
            spec_enc_opt_timing(t.on_load),
        ) + opt_fld("comment"@, opt_str_v(t.comment)),
    )
}

pub open spec fn spec_enc_page(p: PageV) -> JsonV {
    JsonV::Obj(
        fld("startedDateTime"@, JsonV::Str(p.started_date_time)) + fld("id"@, JsonV::Str(p.id))
            + fld("title"@, JsonV::Str(p.title)) + fld(
            "pageTimings"@,
            spec_enc_page_timings(p.page_timings),
        ) + opt_fld("comment"@, opt_str_v(p.comment)),
    )
}

pub open spec fn spec_enc_entry(e: EntryV) -> JsonV {
    JsonV::Obj(
        opt_fld("pageref"@, opt_str_v(e.pageref)) + fld(
            "startedDateTime"@,
            JsonV::Str(e.started_date_time),
        ) + fld("request"@, spec_enc_request(e.request)) + fld(
            "response"@,
            spec_enc_response(e.response),
        ) + fld("cache"@, spec_enc_cache(e.cache)) + fld("timings"@, spec_enc_timing(e.timings))
            + opt_fld("serverIPAddress"@, opt_str_v(e.server_ip_address)) + opt_fld(
            "connection"@,
            opt_str_v(e.connection),
        ) + opt_fld("comment"@, opt_str_v(e.comment)),
    )
}

pub open spec fn spec_enc_log(l: LogV) -> JsonV {
    JsonV::Obj(
        fld("version"@, JsonV::Str(l.version)) + fld("creator"@, spec_enc_creator(l.creator))
            + opt_fld(
            "browser"@,
            match l.browser {
                Some(b) => Some(spec_enc_browser(b)),
                None => None,
            },
        ) + opt_fld(
            "pages"@,
            match l.pages {
                Some(ps) => Some(JsonV::Arr(ps.map_values(|x: PageV| spec_enc_page(x)))),
                None => None,
            },
        ) + fld("entries"@, JsonV::Arr(l.entries.map_values(|x: EntryV| spec_enc_entry(x))))
            + opt_fld("comment"@, opt_str_v(l.comment)),
    )
}

// ---------------------------------------------------------------------------
// Decoding: field helpers
// ---------------------------------------------------------------------------

/// A mandatory string member.
pub open spec fn dec_req_str(o: Seq<(Seq<char>, JsonV)>, ent: Seq<char>, k: Seq<char>) -> Result<
    Seq<char>,
    DecodeErrorV,
> {
    match obj_get(o, k) {
        Some(JsonV::Str(s)) => Ok(s),
        Some(_) => Err(DecodeErrorV::TypeMismatch(ent, k)),
        None => Err(DecodeErrorV::MissingField(ent, k)),
    }
}

/// An optional string member: a missing key and an explicit `null` both mean
/// absent.
pub open spec fn dec_opt_str(o: Seq<(Seq<char>, JsonV)>, ent: Seq<char>, k: Seq<char>) -> Result<
    Option<Seq<char>>,
    DecodeErrorV,
> {
    match obj_get(o, k) {
        None => Ok(None),
        Some(JsonV::Null) => Ok(None),
        Some(JsonV::Str(s)) => Ok(Some(s)),
        Some(_) => Err(DecodeErrorV::TypeMismatch(ent, k)),
    }
}

/// An optional boolean member: a missing key and `null` both mean absent.
pub open spec fn dec_opt_bool(o: Seq<(Seq<char>, JsonV)>, ent: Seq<char>, k: Seq<char>) -> Result<
    Option<bool>,
    DecodeErrorV,
> {
    match obj_get(o, k) {
        None => Ok(None),
        Some(JsonV::Null) => Ok(None),
        Some(JsonV::Bool(b)) => Ok(Some(b)),
        Some(_) => Err(DecodeErrorV::TypeMismatch(ent, k)),
    }
}

/// A mandatory number member that must fit a signed 32-bit integer.
pub open spec fn dec_req_i32(o: Seq<(Seq<char>, JsonV)>, ent: Seq<char>, k: Seq<char>) -> Result<
    i32,
    DecodeErrorV,
> {
    match obj_get(o, k) {
        Some(JsonV::Num(n)) => if i32::MIN <= n <= i32::MAX {
            Ok(n as i32)
        } else {
            Err(DecodeErrorV::TypeMismatch(ent, k))
        },
        Some(_) => Err(DecodeErrorV::TypeMismatch(ent, k)),
        None => Err(DecodeErrorV::MissingField(ent, k)),
    }
}

/// An optional number member that must fit a signed 32-bit integer when
/// present: a missing key and `null` both mean absent.
pub open spec fn dec_opt_i32(o: Seq<(Seq<char>, JsonV)>, ent: Seq<char>, k: Seq<char>) -> Result<
    Option<i32>,
    DecodeErrorV,
> {
    match obj_get(o, k) {
        None => Ok(None),
        Some(JsonV::Null) => Ok(None),
        Some(JsonV::Num(n)) => if i32::MIN <= n <= i32::MAX {
            Ok(Some(n as i32))
        } else {
            Err(DecodeErrorV::TypeMismatch(ent, k))
        },
        Some(_) => Err(DecodeErrorV::TypeMismatch(ent, k)),
    }
}

/// A size member: as [`dec_opt_i32`], and the conventional `-1` for
/// unavailable data also decodes as absent.
pub open spec fn dec_size(o: Seq<(Seq<char>, JsonV)>, ent: Seq<char>, k: Seq<char>) -> Result<
    Option<i32>,
    DecodeErrorV,
> {
    match obj_get(o, k) {
        None => Ok(None),
        Some(JsonV::Null) => Ok(None),
        Some(JsonV::Num(n)) => if n == -1 {
            Ok(None)
        } else if i32::MIN <= n <= i32::MAX {
            Ok(Some(n as i32))
        } else {
            Err(DecodeErrorV::TypeMismatch(ent, k))
        },
        Some(_) => Err(DecodeErrorV::TypeMismatch(ent, k)),
    }
}

/// A mandatory number member that must fit an unsigned 32-bit integer.
pub open spec fn dec_req_u32(o: Seq<(Seq<char>, JsonV)>, ent: Seq<char>, k: Seq<char>) -> Result<
    u32,
    DecodeErrorV,
> {
    match obj_get(o, k) {
        Some(JsonV::Num(n)) => if 0 <= n <= u32::MAX {
            Ok(n as u32)
        } else {
            Err(DecodeErrorV::TypeMismatch(ent, k))
        },
        Some(_) => Err(DecodeErrorV::TypeMismatch(ent, k)),
        None => Err(DecodeErrorV::MissingField(ent, k)),
    }
}

/// A mandatory timing member: `-1` means not applicable, any other value
/// below zero is invalid, and a non-negative value is the duration.
pub open spec fn dec_opt_timing(o: Seq<(Seq<char>, JsonV)>, ent: Seq<char>, k: Seq<char>) -> Result<
    OptionalTiming,
    DecodeErrorV,
> {
    match obj_get(o, k) {
        Some(JsonV::Num(n)) => if n == -1 {
            Ok(OptionalTiming::NotApplicable)
        } else if n < -1 {
            Err(DecodeErrorV::InvalidTiming(ent, k))
        } else if n <= u32::MAX {
            Ok(OptionalTiming::TimedContent(n as u32))
        } else {
            Err(DecodeErrorV::TypeMismatch(ent, k))
        },
        Some(_) => Err(DecodeErrorV::TypeMismatch(ent, k)),
        None => Err(DecodeErrorV::MissingField(ent, k)),
    }
}


/// An always-present sequence of cookie objects under key `k`: a missing key decodes
/// as the empty sequence, a present value must be an array of well-formed
/// elements.
pub open spec fn dec_cookies_field(o: Seq<(Seq<char>, JsonV)>, ent: Seq<char>, k: Seq<char>) -> Result<
    Seq<CookieV>,
    DecodeErrorV,
> {
    match obj_get(o, k) {
        None => Ok(Seq::empty()),
        Some(JsonV::Arr(s)) => spec_dec_cookies(s),
        Some(_) => Err(DecodeErrorV::TypeMismatch(ent, k)),
    }
}

/// An always-present sequence of header objects under key `k`: a missing key decodes
/// as the empty sequence, a present value must be an array of well-formed
/// elements.
pub open spec fn dec_headers_field(o: Seq<(Seq<char>, JsonV)>, ent: Seq<char>, k: Seq<char>) -> Result<
    Seq<HeaderV>,
    DecodeErrorV,
> {
    match obj_get(o, k) {
        None => Ok(Seq::empty()),
        Some(JsonV::Arr(s)) => spec_dec_headers(s),
        Some(_) => Err(DecodeErrorV::TypeMismatch(ent, k)),
    }
}

/// An always-present sequence of query parameter objects under key `k`: a missing key decodes
/// as the empty sequence, a present value must be an array of well-formed
/// elements.
pub open spec fn dec_query_string_field(o: Seq<(Seq<char>, JsonV)>, ent: Seq<char>, k: Seq<char>) -> Result<
    Seq<QueryStringPairV>,
    DecodeErrorV,
> {
    match obj_get(o, k) {
        None => Ok(Seq::empty()),
        Some(JsonV::Arr(s)) => spec_dec_query_string_pairs(s),
        Some(_) => Err(DecodeErrorV::TypeMismatch(ent, k)),
    }
}

/// An always-present sequence of posted parameter objects under key `k`: a missing key decodes
/// as the empty sequence, a present value must be an array of well-formed
/// elements.
pub open spec fn dec_params_field(o: Seq<(Seq<char>, JsonV)>, ent: Seq<char>, k: Seq<char>) -> Result<
    Seq<ParamV>,
    DecodeErrorV,
> {
    match obj_get(o, k) {
        None => Ok(Seq::empty()),
        Some(JsonV::Arr(s)) => spec_dec_params(s),
        Some(_) => Err(DecodeErrorV::TypeMismatch(ent, k)),
    }
}

/// An always-present sequence of entry objects under key `k`: a missing key decodes
/// as the empty sequence, a present value must be an array of well-formed
/// elements.
pub open spec fn dec_entries_field(o: Seq<(Seq<char>, JsonV)>, ent: Seq<char>, k: Seq<char>) -> Result<
    Seq<EntryV>,
    DecodeErrorV,
> {
    match obj_get(o, k) {
        None => Ok(Seq::empty()),
        Some(JsonV::Arr(s)) => spec_dec_entries(s),
        Some(_) => Err(DecodeErrorV::TypeMismatch(ent, k)),
    }
}



/// A sequence of cookie objects: every element decoded, or the first error.
pub open spec fn spec_dec_cookies(s: Seq<JsonV>) -> Result<Seq<CookieV>, DecodeErrorV>
    decreases s.len(),
{
    if s.len() == 0 {
        Ok(Seq::empty())
    } else {
        match spec_dec_cookie(s[0]) {
            Err(e) => Err(e),
            Ok(x) => match spec_dec_cookies(s.drop_first()) {
                Err(e) => Err(e),
                Ok(rest) => Ok(seq![x] + rest),
            },
        }
    }
}

/// Splitting a sequence splits its decoding: the left part decodes first,
/// and its error, if any, wins.
pub proof fn lemma_spec_dec_cookies_concat(a: Seq<JsonV>, b: Seq<JsonV>)
    ensures
        spec_dec_cookies(a + b) == match spec_dec_cookies(a) {
            Err(e) => Err::<Seq<CookieV>, DecodeErrorV>(e),
            Ok(ra) => match spec_dec_cookies(b) {
                Err(e) => Err::<Seq<CookieV>, DecodeErrorV>(e),
                Ok(rb) => Ok::<Seq<CookieV>, DecodeErrorV>(ra + rb),
            },
        },
    decreases a.len(),
{
    if a.len() == 0 {
        assert(a + b =~= b);
        match spec_dec_cookies(b) {
            Ok(rb) => {
                assert(Seq::<CookieV>::empty() + rb =~= rb);
            },
            Err(_) => {},
        }
    } else {
        assert((a + b)[0] == a[0]);
        assert((a + b).drop_first() =~= a.drop_first() + b);
        lemma_spec_dec_cookies_concat(a.drop_first(), b);
        match spec_dec_cookie(a[0]) {
            Err(_) => {},
            Ok(x) => match (spec_dec_cookies(a.drop_first()), spec_dec_cookies(b)) {
                (Ok(ra), Ok(rb)) => {
                    assert(seq![x] + (ra + rb) =~= (seq![x] + ra) + rb);
                },
                _ => {},
            },
        }
    }
}

/// A sequence of header objects: every element decoded, or the first error.
pub open spec fn spec_dec_headers(s: Seq<JsonV>) -> Result<Seq<HeaderV>, DecodeErrorV>
    decreases s.len(),
{
    if s.len() == 0 {
        Ok(Seq::empty())
    } else {
        match spec_dec_header(s[0]) {
            Err(e) => Err(e),
            Ok(x) => match spec_dec_headers(s.drop_first()) {
                Err(e) => Err(e),
                Ok(rest) => Ok(seq![x] + rest),
            },
        }
    }
}

/// Splitting a sequence splits its decoding: the left part decodes first,
/// and its error, if any, wins.
pub proof fn lemma_spec_dec_headers_concat(a: Seq<JsonV>, b: Seq<JsonV>)
    ensures
        spec_dec_headers(a + b) == match spec_dec_headers(a) {
            Err(e) => Err::<Seq<HeaderV>, DecodeErrorV>(e),
            Ok(ra) => match spec_dec_headers(b) {
                Err(e) => Err::<Seq<HeaderV>, DecodeErrorV>(e),
                Ok(rb) => Ok::<Seq<HeaderV>, DecodeErrorV>(ra + rb),
            },
        },
    decreases a.len(),
{
    if a.len() == 0 {
        assert(a + b =~= b);
        match spec_dec_headers(b) {
            Ok(rb) => {
                assert(Seq::<HeaderV>::empty() + rb =~= rb);
            },
            Err(_) => {},
        }
    } else {
        assert((a + b)[0] == a[0]);
        assert((a + b).drop_first() =~= a.drop_first() + b);
        lemma_spec_dec_headers_concat(a.drop_first(), b);
        match spec_dec_header(a[0]) {
            Err(_) => {},
            Ok(x) => match (spec_dec_headers(a.drop_first()), spec_dec_headers(b)) {
                (Ok(ra), Ok(rb)) => {
                    assert(seq![x] + (ra + rb) =~= (seq![x] + ra) + rb);
                },
                _ => {},
            },
        }
    }
}

/// A sequence of query parameter objects: every element decoded, or the first error.
pub open spec fn spec_dec_query_string_pairs(s: Seq<JsonV>) -> Result<Seq<QueryStringPairV>, DecodeErrorV>
    decreases s.len(),
{
    if s.len() == 0 {
        Ok(Seq::empty())
    } else {
        match spec_dec_query_string_pair(s[0]) {
            Err(e) => Err(e),
            Ok(x) => match spec_dec_query_string_pairs(s.drop_first()) {
                Err(e) => Err(e),
                Ok(rest) => Ok(seq![x] + rest),
            },
        }
    }
}

/// Splitting a sequence splits its decoding: the left part decodes first,
/// and its error, if any, wins.
pub proof fn lemma_spec_dec_query_string_pairs_concat(a: Seq<JsonV>, b: Seq<JsonV>)
    ensures
        spec_dec_query_string_pairs(a + b) == match spec_dec_query_string_pairs(a) {
            Err(e) => Err::<Seq<QueryStringPairV>, DecodeErrorV>(e),
            Ok(ra) => match spec_dec_query_string_pairs(b) {
                Err(e) => Err::<Seq<QueryStringPairV>, DecodeErrorV>(e),
                Ok(rb) => Ok::<Seq<QueryStringPairV>, DecodeErrorV>(ra + rb),
            },
        },
    decreases a.len(),
{
    if a.len() == 0 {
        assert(a + b =~= b);
        match spec_dec_query_string_pairs(b) {
            Ok(rb) => {
                assert(Seq::<QueryStringPairV>::empty() + rb =~= rb);
            },
            Err(_) => {},
        }
    } else {
        assert((a + b)[0] == a[0]);
        assert((a + b).drop_first() =~= a.drop_first() + b);
        lemma_spec_dec_query_string_pairs_concat(a.drop_first(), b);
        match spec_dec_query_string_pair(a[0]) {
            Err(_) => {},
            Ok(x) => match (spec_dec_query_string_pairs(a.drop_first()), spec_dec_query_string_pairs(b)) {
                (Ok(ra), Ok(rb)) => {
                    assert(seq![x] + (ra + rb) =~= (seq![x] + ra) + rb);
                },
                _ => {},
            },
        }
    }
}

/// A sequence of posted parameter objects: every element decoded, or the first error.
pub open spec fn spec_dec_params(s: Seq<JsonV>) -> Result<Seq<ParamV>, DecodeErrorV>
    decreases s.len(),
{
    if s.len() == 0 {
        Ok(Seq::empty())
    } else {
        match spec_dec_param(s[0]) {
            Err(e) => Err(e),
            Ok(x) => match spec_dec_params(s.drop_first()) {
                Err(e) => Err(e),
                Ok(rest) => Ok(seq![x] + rest),
            },
        }
    }
}

/// Splitting a sequence splits its decoding: the left part decodes first,
/// and its error, if any, wins.
pub proof fn lemma_spec_dec_params_concat(a: Seq<JsonV>, b: Seq<JsonV>)
    ensures
        spec_dec_params(a + b) == match spec_dec_params(a) {
            Err(e) => Err::<Seq<ParamV>, DecodeErrorV>(e),
            Ok(ra) => match spec_dec_params(b) {
                Err(e) => Err::<Seq<ParamV>, DecodeErrorV>(e),
                Ok(rb) => Ok::<Seq<ParamV>, DecodeErrorV>(ra + rb),
            },
        },
    decreases a.len(),
{
    if a.len() == 0 {
        assert(a + b =~= b);
        match spec_dec_params(b) {
            Ok(rb) => {
                assert(Seq::<ParamV>::empty() + rb =~= rb);
            },
            Err(_) => {},
        }
    } else {
        assert((a + b)[0] == a[0]);
        assert((a + b).drop_first() =~= a.drop_first() + b);
        lemma_spec_dec_params_concat(a.drop_first(), b);
        match spec_dec_param(a[0]) {
            Err(_) => {},
            Ok(x) => match (spec_dec_params(a.drop_first()), spec_dec_params(b)) {
                (Ok(ra), Ok(rb)) => {
                    assert(seq![x] + (ra + rb) =~= (seq![x] + ra) + rb);
                },
                _ => {},
            },
        }
    }
}

/// A sequence of page objects: every element decoded, or the first error.
pub open spec fn spec_dec_pages(s: Seq<JsonV>) -> Result<Seq<PageV>, DecodeErrorV>
    decreases s.len(),
{
    if s.len() == 0 {
        Ok(Seq::empty())
    } else {
        match spec_dec_page(s[0]) {
            Err(e) => Err(e),
            Ok(x) => match spec_dec_pages(s.drop_first()) {
                Err(e) => Err(e),
                Ok(rest) => Ok(seq![x] + rest),
            },
        }
    }
}

/// Splitting a sequence splits its decoding: the left part decodes first,
/// and its error, if any, wins.
pub proof fn lemma_spec_dec_pages_concat(a: Seq<JsonV>, b: Seq<JsonV>)
    ensures
        spec_dec_pages(a + b) == match spec_dec_pages(a) {
            Err(e) => Err::<Seq<PageV>, DecodeErrorV>(e),
            Ok(ra) => match spec_dec_pages(b) {
                Err(e) => Err::<Seq<PageV>, DecodeErrorV>(e),
                Ok(rb) => Ok::<Seq<PageV>, DecodeErrorV>(ra + rb),
            },
        },
    decreases a.len(),
{
    if a.len() == 0 {
        assert(a + b =~= b);
        match spec_dec_pages(b) {
            Ok(rb) => {
                assert(Seq::<PageV>::empty() + rb =~= rb);
            },
            Err(_) => {},
        }
    } else {
        assert((a + b)[0] == a[0]);
        assert((a + b).drop_first() =~= a.drop_first() + b);
        lemma_spec_dec_pages_concat(a.drop_first(), b);
        match spec_dec_page(a[0]) {
            Err(_) => {},
            Ok(x) => match (spec_dec_pages(a.drop_first()), spec_dec_pages(b)) {
                (Ok(ra), Ok(rb)) => {
                    assert(seq![x] + (ra + rb) =~= (seq![x] + ra) + rb);
                },
                _ => {},
            },
        }
    }
}

/// A sequence of entry objects: every element decoded, or the first error.
pub open spec fn spec_dec_entries(s: Seq<JsonV>) -> Result<Seq<EntryV>, DecodeErrorV>
    decreases s.len(),
{
    if s.len() == 0 {
        Ok(Seq::empty())
    } else {
        match spec_dec_entry(s[0]) {
            Err(e) => Err(e),
            Ok(x) => match spec_dec_entries(s.drop_first()) {
                Err(e) => Err(e),
                Ok(rest) => Ok(seq![x] + rest),
            },
        }
    }
}

/// Splitting a sequence splits its decoding: the left part decodes first,
/// and its error, if any, wins.
pub proof fn lemma_spec_dec_entries_concat(a: Seq<JsonV>, b: Seq<JsonV>)
    ensures
        spec_dec_entries(a + b) == match spec_dec_entries(a) {
            Err(e) => Err::<Seq<EntryV>, DecodeErrorV>(e),
            Ok(ra) => match spec_dec_entries(b) {
                Err(e) => Err::<Seq<EntryV>, DecodeErrorV>(e),
                Ok(rb) => Ok::<Seq<EntryV>, DecodeErrorV>(ra + rb),
            },
        },
    decreases a.len(),
{
    if a.len() == 0 {
        assert(a + b =~= b);
        match spec_dec_entries(b) {
            Ok(rb) => {
                assert(Seq::<EntryV>::empty() + rb =~= rb);
            },
            Err(_) => {},
        }
    } else {
        assert((a + b)[0] == a[0]);
        assert((a + b).drop_first() =~= a.drop_first() + b);
        lemma_spec_dec_entries_concat(a.drop_first(), b);
        match spec_dec_entry(a[0]) {
            Err(_) => {},
            Ok(x) => match (spec_dec_entries(a.drop_first()), spec_dec_entries(b)) {
                (Ok(ra), Ok(rb)) => {
                    assert(seq![x] + (ra + rb) =~= (seq![x] + ra) + rb);
                },
                _ => {},
            },
        }
    }
}

// ---------------------------------------------------------------------------
// Decoding: entities
// ---------------------------------------------------------------------------

pub open spec fn spec_dec_creator(v: JsonV) -> Result<CreatorV, DecodeErrorV> {
    if !(v is Obj) {
        Err(DecodeErrorV::TypeMismatch("creator"@, ""@))
    } else {
        let o = v->Obj_0;
        let name = dec_req_str(o, "creator"@, "name"@);
        let version = dec_req_str(o, "creator"@, "version"@);
        let comment = dec_opt_str(o, "creator"@, "comment"@);
        if name is Err {
            Err(name->Err_0)
        } else if version is Err {
            Err(version->Err_0)
        } else if comment is Err {
            Err(comment->Err_0)
        } else {
            Ok(CreatorV { name: name->Ok_0, version: version->Ok_0, comment: comment->Ok_0 })
        }
    }
}

pub open spec fn spec_dec_browser(v: JsonV) -> Result<BrowserV, DecodeErrorV> {
    if !(v is Obj) {
        Err(DecodeErrorV::TypeMismatch("browser"@, ""@))
    } else {
        let o = v->Obj_0;
        let name = dec_req_str(o, "browser"@, "name"@);
        let version = dec_req_str(o, "browser"@, "version"@);
        let comment = dec_opt_str(o, "browser"@, "comment"@);
        if name is Err {
            Err(name->Err_0)
        } else if version is Err {
            Err(version->Err_0)
        } else if comment is Err {
            Err(comment->Err_0)
        } else {
            Ok(BrowserV { name: name->Ok_0, version: version->Ok_0, comment: comment->Ok_0 })
        }
    }
}

pub open spec fn spec_dec_cookie(v: JsonV) -> Result<CookieV, DecodeErrorV> {
    if !(v is Obj) {
        Err(DecodeErrorV::TypeMismatch("cookie"@, ""@))
    } else {
        let o = v->Obj_0;
        let name = dec_req_str(o, "cookie"@, "name"@);
        let value = dec_req_str(o, "cookie"@, "value"@);
        let path = dec_opt_str(o, "cookie"@, "path"@);
        let domain = dec_opt_str(o, "cookie"@, "domain"@);
        let expires = dec_opt_str(o, "cookie"@, "expires"@);
        let http_only = dec_opt_bool(o, "cookie"@, "httpOnly"@);
        let secure = dec_opt_bool(o, "cookie"@, "secure"@);
        let comment = dec_opt_str(o, "cookie"@, "comment"@);
        if name is Err {
            Err(name->Err_0)
        } else if value is Err {
            Err(value->Err_0)
        } else if path is Err {
            Err(path->Err_0)
        } else if domain is Err {
            Err(domain->Err_0)
        } else if expires is Err {
            Err(expires->Err_0)
        } else if http_only is Err {
            Err(http_only->Err_0)
        } else if secure is Err {
            Err(secure->Err_0)
        } else if comment is Err {
            Err(comment->Err_0)
        } else {
            Ok(
                CookieV {
                    name: name->Ok_0,
                    value: value->Ok_0,
                    path: path->Ok_0,
                    domain: domain->Ok_0,
                    expires: expires->Ok_0,
                    http_only: http_only->Ok_0,
                    secure: secure->Ok_0,
                    comment: comment->Ok_0,
                },
            )
        }
    }
}

pub open spec fn spec_dec_header(v: JsonV) -> Result<HeaderV, DecodeErrorV> {
    if !(v is Obj) {
        Err(DecodeErrorV::TypeMismatch("header"@, ""@))
    } else {
        let o = v->Obj_0;
        let name = dec_req_str(o, "header"@, "name"@);
        let value = dec_req_str(o, "header"@, "value"@);
        let comment = dec_opt_str(o, "header"@, "comment"@);
        if name is Err {
            Err(name->Err_0)
        } else if value is Err {
            Err(value->Err_0)
        } else if comment is Err {
            Err(comment->Err_0)
        } else {
            Ok(HeaderV { name: name->Ok_0, value: value->Ok_0, comment: comment->Ok_0 })
        }
    }
}

pub open spec fn spec_dec_query_string_pair(v: JsonV) -> Result<QueryStringPairV, DecodeErrorV> {
    if !(v is Obj) {
        Err(DecodeErrorV::TypeMismatch("queryStringPair"@, ""@))
    } else {
        let o = v->Obj_0;
        let name = dec_req_str(o, "queryStringPair"@, "name"@);
        let value = dec_req_str(o, "queryStringPair"@, "value"@);
        let comment = dec_opt_str(o, "queryStringPair"@, "comment"@);
        if name is Err {
            Err(name->Err_0)
        } else if value is Err {
            Err(value->Err_0)
        } else if comment is Err {
            Err(comment->Err_0)
        } else {
            Ok(QueryStringPairV { name: name->Ok_0, value: value->Ok_0, comment: comment->Ok_0 })
        }
    }
}

pub open spec fn spec_dec_param(v: JsonV) -> Result<ParamV, DecodeErrorV> {
    if !(v is Obj) {
        Err(DecodeErrorV::TypeMismatch("param"@, ""@))
    } else {
        let o = v->Obj_0;
        let name = dec_req_str(o, "param"@, "name"@);
        let value = dec_opt_str(o, "param"@, "value"@);
        let file_name = dec_opt_str(o, "param"@, "fileName"@);
        let content_type = dec_opt_str(o, "param"@, "contentType"@);
        let comment = dec_opt_str(o, "param"@, "comment"@);
        if name is Err {
            Err(name->Err_0)
        } else if value is Err {
            Err(value->Err_0)
        } else if file_name is Err {
            Err(file_name->Err_0)
        } else if content_type is Err {
            Err(content_type->Err_0)
        } else if comment is Err {
            Err(comment->Err_0)
        } else {
            Ok(
                ParamV {
                    name: name->Ok_0,
                    value: value->Ok_0,
                    file_name: file_name->Ok_0,
                    content_type: content_type->Ok_0,
                    comment: comment->Ok_0,
                },
            )
        }
    }
}

pub open spec fn spec_dec_post_data(v: JsonV) -> Result<PostDataV, DecodeErrorV> {
    if !(v is Obj) {
        Err(DecodeErrorV::TypeMismatch("postData"@, ""@))
    } else {
        let o = v->Obj_0;
        let mime_type = dec_req_str(o, "postData"@, "mimeType"@);
        let params = dec_params_field(o, "postData"@, "params"@);
        let text = dec_req_str(o, "postData"@, "text"@);
        let comment = dec_opt_str(o, "postData"@, "comment"@);
        if mime_type is Err {
            Err(mime_type->Err_0)
        } else if params is Err {
            Err(params->Err_0)
        } else if text is Err {
            Err(text->Err_0)
        } else if comment is Err {
            Err(comment->Err_0)
        } else {
            Ok(
                PostDataV {
                    mime_type: mime_type->Ok_0,
                    params: params->Ok_0,
                    text: text->Ok_0,
                    comment: comment->Ok_0,
                },
            )
        }
    }
}

pub open spec fn spec_dec_content(v: JsonV) -> Result<ContentV, DecodeErrorV> {
    if !(v is Obj) {
        Err(DecodeErrorV::TypeMismatch("content"@, ""@))
    } else {
        let o = v->Obj_0;
        let size = dec_req_i32(o, "content"@, "size"@);
        let compression = dec_opt_i32(o, "content"@, "compression"@);
        let mime_type = dec_req_str(o, "content"@, "mimeType"@);
        let text = dec_opt_str(o, "content"@, "text"@);
        let encoding = dec_opt_str(o, "content"@, "encoding"@);
        let comment = dec_opt_str(o, "content"@, "comment"@);
        if size is Err {
            Err(size->Err_0)
        } else if compression is Err {
            Err(compression->Err_0)
        } else if mime_type is Err {
            Err(mime_type->Err_0)
        } else if text is Err {
            Err(text->Err_0)
        } else if encoding is Err {
            Err(encoding->Err_0)
        } else if comment is Err {
            Err(comment->Err_0)
        } else {
            Ok(
                ContentV {
                    size: size->Ok_0,
                    compression: compression->Ok_0,
                    mime_type: mime_type->Ok_0,
                    text: text->Ok_0,
                    encoding: encoding->Ok_0,
                    comment: comment->Ok_0,
                },
            )
        }
    }
}

pub open spec fn spec_dec_request(v: JsonV) -> Result<RequestV, DecodeErrorV> {
    if !(v is Obj) {
        Err(DecodeErrorV::TypeMismatch("request"@, ""@))
    } else {
        let o = v->Obj_0;
        let method = dec_req_str(o, "request"@, "method"@);
        let url = dec_req_str(o, "request"@, "url"@);
        let http_version = dec_req_str(o, "request"@, "httpVersion"@);
        let cookies = dec_cookies_field(o, "request"@, "cookies"@);
        let headers = dec_headers_field(o, "request"@, "headers"@);
        let query_string = dec_query_string_field(o, "request"@, "queryString"@);
        let post_data = match obj_get(o, "postData"@) {
            None => Ok(None),
            Some(JsonV::Null) => Ok(None),
            Some(pv) => match spec_dec_post_data(pv) {
                Ok(p) => Ok(Some(p)),
                Err(e) => Err(e),
            },
        };
        let headers_size = dec_size(o, "request"@, "headersSize"@);
        let body_size = dec_size(o, "request"@, "bodySize"@);
        let comment = dec_opt_str(o, "request"@, "comment"@);
        if method is Err {
            Err(method->Err_0)
        } else if url is Err {
            Err(url->Err_0)
        } else if http_version is Err {
            Err(http_version->Err_0)
        } else if cookies is Err {
            Err(cookies->Err_0)
        } else if headers is Err {
            Err(headers->Err_0)
        } else if query_string is Err {
            Err(query_string->Err_0)
        } else if post_data is Err {
            Err(post_data->Err_0)
        } else if headers_size is Err {
            Err(headers_size->Err_0)
        } else if body_size is Err {
            Err(body_size->Err_0)
        } else if comment is Err {
            Err(comment->Err_0)
        } else {
            Ok(
                RequestV {
                    method: method->Ok_0,
                    url: url->Ok_0,
                    http_version: http_version->Ok_0,
                    cookies: cookies->Ok_0,
                    headers: headers->Ok_0,
                    query_string: query_string->Ok_0,
                    post_data: post_data->Ok_0,
                    headers_size: headers_size->Ok_0,
                    body_size: body_size->Ok_0,
                    comment: comment->Ok_0,
                },
            )
        }
    }
}

pub open spec fn spec_dec_response(v: JsonV) -> Result<ResponseV, DecodeErrorV> {
    if !(v is Obj) {
        Err(DecodeErrorV::TypeMismatch("response"@, ""@))
    } else {
        let o = v->Obj_0;
        let status = dec_req_i32(o, "response"@, "status"@);
        let status_text = dec_req_str(o, "response"@, "statusText"@);
        let http_version = dec_req_str(o, "response"@, "httpVersion"@);
        let cookies = dec_cookies_field(o, "response"@, "cookies"@);
        let headers = dec_headers_field(o, "response"@, "headers"@);
        let content = match obj_get(o, "content"@) {
            None => Err(DecodeErrorV::MissingField("response"@, "content"@)),
            Some(cv) => spec_dec_content(cv),
        };
        let redirect_url = dec_req_str(o, "response"@, "redirectURL"@);
        let headers_size = dec_size(o, "response"@, "headersSize"@);
        let body_size = dec_size(o, "response"@, "bodySize"@);
        let comment = dec_opt_str(o, "response"@, "comment"@);
        if status is Err {
            Err(status->Err_0)
        } else if status_text is Err {
            Err(status_text->Err_0)
        } else if http_version is Err {
            Err(http_version->Err_0)
        } else if cookies is Err {
            Err(cookies->Err_0)
        } else if headers is Err {
            Err(headers->Err_0)
        } else if content is Err {
            Err(content->Err_0)
        } else if redirect_url is Err {
            Err(redirect_url->Err_0)
        } else if headers_size is Err {
            Err(headers_size->Err_0)
        } else if body_size is Err {
            Err(body_size->Err_0)
        } else if comment is Err {
            Err(comment->Err_0)
        } else {
            Ok(
                ResponseV {
                    status: status->Ok_0,
                    status_text: status_text->Ok_0,
                    http_version: http_version->Ok_0,
                    cookies: cookies->Ok_0,
                    headers: headers->Ok_0,
                    content: content->Ok_0,
                    redirect_url: redirect_url->Ok_0,
                    headers_size: headers_size->Ok_0,
                    body_size: body_size->Ok_0,
                    comment: comment->Ok_0,
                },
            )
        }
    }
}

pub open spec fn spec_dec_cache_entry(v: JsonV) -> Result<CacheEntryV, DecodeErrorV> {
    if !(v is Obj) {
        Err(DecodeErrorV::TypeMismatch("cacheEntry"@, ""@))
    } else {
        let o = v->Obj_0;
        let expires = dec_opt_str(o, "cacheEntry"@, "expires"@);
        let last_access = dec_req_str(o, "cacheEntry"@, "lastAccess"@);
        let e_tag = dec_req_str(o, "cacheEntry"@, "eTag"@);
        let hit_count = dec_req_i32(o, "cacheEntry"@, "hitCount"@);
        let comment = dec_opt_str(o, "cacheEntry"@, "comment"@);
        if expires is Err {
            Err(expires->Err_0)
        } else if last_access is Err {
            Err(last_access->Err_0)
        } else if e_tag is Err {
            Err(e_tag->Err_0)
        } else if hit_count is Err {
            Err(hit_count->Err_0)
        } else if comment is Err {
            Err(comment->Err_0)
        } else {
            Ok(
                CacheEntryV {
                    expires: expires->Ok_0,
                    last_access: last_access->Ok_0,
                    e_tag: e_tag->Ok_0,
                    hit_count: hit_count->Ok_0,
                    comment: comment->Ok_0,
                },
            )
        }
    }
}

/// The three-way cache state under key `k` of `o`: a missing key is
/// unknown, `null` is absent, a well-formed entry object is present, and
/// anything else is invalid.
pub open spec fn dec_cache_state(o: Seq<(Seq<char>, JsonV)>, ent: Seq<char>, k: Seq<char>) -> Result<
    CacheStateV,
    DecodeErrorV,
> {
    match obj_get(o, k) {
        None => Ok(CacheStateV::Unknown),
        Some(JsonV::Null) => Ok(CacheStateV::Absent),
        Some(ev) => if spec_dec_cache_entry(ev) is Ok {
            Ok(CacheStateV::Present(spec_dec_cache_entry(ev)->Ok_0))
        } else {
            Err(DecodeErrorV::InvalidCacheState(ent, k))
        },
    }
}

pub open spec fn spec_dec_cache(v: JsonV) -> Result<CacheV, DecodeErrorV> {
    if !(v is Obj) {
        Err(DecodeErrorV::TypeMismatch("cache"@, ""@))
    } else {
        let o = v->Obj_0;
        let before_request = dec_cache_state(o, "cache"@, "beforeRequest"@);
        let after_request = dec_cache_state(o, "cache"@, "afterRequest"@);
        let comment = dec_opt_str(o, "cache"@, "comment"@);
        if before_request is Err {
            Err(before_request->Err_0)
        } else if after_request is Err {
            Err(after_request->Err_0)
        } else if comment is Err {
            Err(comment->Err_0)
        } else {
            Ok(
                CacheV {
                    before_request: before_request->Ok_0,
                    after_request: after_request->Ok_0,
                    comment: comment->Ok_0,
                },
            )
        }
    }
}

pub open spec fn spec_dec_timing(v: JsonV) -> Result<TimingV, DecodeErrorV> {
    if !(v is Obj) {
        Err(DecodeErrorV::TypeMismatch("timing"@, ""@))
    } else {
        let o = v->Obj_0;
        let blocked = dec_opt_timing(o, "timing"@, "blocked"@);
        let dns = dec_opt_timing(o, "timing"@, "dns"@);
        let connect = dec_opt_timing(o, "timing"@, "connect"@);
        let send = dec_req_u32(o, "timing"@, "send"@);
        let wait = dec_req_u32(o, "timing"@, "wait"@);
        let receive = dec_req_u32(o, "timing"@, "receive"@);
        let ssl = dec_opt_timing(o, "timing"@, "ssl"@);
        let comment = dec_opt_str(o, "timing"@, "comment"@);
        if blocked is Err {
            Err(blocked->Err_0)
        } else if dns is Err {
            Err(dns->Err_0)
        } else if connect is Err {
            Err(connect->Err_0)
        } else if send is Err {
            Err(send->Err_0)
        } else if wait is Err {
            Err(wait->Err_0)
        } else if receive is Err {
            Err(receive->Err_0)
        } else if ssl is Err {
            Err(ssl->Err_0)
        } else if comment is Err {
            Err(comment->Err_0)
        } else {
            Ok(
                TimingV {
                    blocked: blocked->Ok_0,
                    dns: dns->Ok_0,
                    connect: connect->Ok_0,
                    send: send->Ok_0,
                    wait: wait->Ok_0,
                    receive: receive->Ok_0,
                    ssl: ssl->Ok_0,
                    comment: comment->Ok_0,
                },
            )
        }
    }
}

pub open spec fn spec_dec_page_timings(v: JsonV) -> Result<PageTimingsV, DecodeErrorV> {
    if !(v is Obj) {
        Err(DecodeErrorV::TypeMismatch("pageTimings"@, ""@))
    } else {
        let o = v->Obj_0;
        let on_content_load = dec_opt_timing(o, "pageTimings"@, "onContentLoad"@);
        let on_load = dec_opt_timing(o, "pageTimings"@, "onLoad"@);
        let comment = dec_opt_str(o, "pageTimings"@, "comment"@);
        if on_content_load is Err {
            Err(on_content_load->Err_0)
        } else if on_load is Err {
            Err(on_load->Err_0)
        } else if comment is Err {
            Err(comment->Err_0)
        } else {
            Ok(
                PageTimingsV {
                    on_content_load: on_content_load->Ok_0,
                    on_load: on_load->Ok_0,
                    comment: comment->Ok_0,
                },
            )
        }
    }
}

pub open spec fn spec_dec_page(v: JsonV) -> Result<PageV, DecodeErrorV> {
    if !(v is Obj) {
        Err(DecodeErrorV::TypeMismatch("page"@, ""@))
    } else {
        let o = v->Obj_0;
        let started_date_time = dec_req_str(o, "page"@, "startedDateTime"@);
        let id = dec_req_str(o, "page"@, "id"@);
        let title = dec_req_str(o, "page"@, "title"@);
        let page_timings = match obj_get(o, "pageTimings"@) {
            None => Err(DecodeErrorV::MissingField("page"@, "pageTimings"@)),
            Some(tv) => spec_dec_page_timings(tv),
        };
        let comment = dec_opt_str(o, "page"@, "comment"@);
        if started_date_time is Err {
            Err(started_date_time->Err_0)
        } else if id is Err {
            Err(id->Err_0)
        } else if title is Err {
            Err(title->Err_0)
        } else if page_timings is Err {
            Err(page_timings->Err_0)
        } else if comment is Err {
            Err(comment->Err_0)
        } else {
            Ok(
                PageV {
                    started_date_time: started_date_time->Ok_0,
                    id: id->Ok_0,
                    title: title->Ok_0,
                    page_timings: page_timings->Ok_0,
                    comment: comment->Ok_0,
                },
            )
        }
    }
}

pub open spec fn spec_dec_entry(v: JsonV) -> Result<EntryV, DecodeErrorV> {
    if !(v is Obj) {
        Err(DecodeErrorV::TypeMismatch("entry"@, ""@))
    } else {
        let o = v->Obj_0;
        let pageref = dec_opt_str(o, "entry"@, "pageref"@);
        let started_date_time = dec_req_str(o, "entry"@, "startedDateTime"@);
        let request = match obj_get(o, "request"@) {
            None => Err(DecodeErrorV::MissingField("entry"@, "request"@)),
            Some(rv) => spec_dec_request(rv),
        };
        let response = match obj_get(o, "response"@) {
            None => Err(DecodeErrorV::MissingField("entry"@, "response"@)),
            Some(rv) => spec_dec_response(rv),
        };
        let cache = match obj_get(o, "cache"@) {
            None => Err(DecodeErrorV::MissingField("entry"@, "cache"@)),
            Some(cv) => spec_dec_cache(cv),
        };
        let timings = match obj_get(o, "timings"@) {
            None => Err(DecodeErrorV::MissingField("entry"@, "timings"@)),
            Some(tv) => spec_dec_timing(tv),
        };
        let server_ip_address = dec_opt_str(o, "entry"@, "serverIPAddress"@);
        let connection = dec_opt_str(o, "entry"@, "connection"@);
        let comment = dec_opt_str(o, "entry"@, "comment"@);
        if pageref is Err {
            Err(pageref->Err_0)
        } else if started_date_time is Err {
            Err(started_date_time->Err_0)
        } else if request is Err {
            Err(request->Err_0)
        } else if response is Err {
            Err(response->Err_0)
        } else if cache is Err {
            Err(cache->Err_0)
        } else if timings is Err {
            Err(timings->Err_0)
        } else if server_ip_address is Err {
            Err(server_ip_address->Err_0)
        } else if connection is Err {
            Err(connection->Err_0)
        } else if comment is Err {
            Err(comment->Err_0)
        } else {
            Ok(
                EntryV {
                    pageref: pageref->Ok_0,
                    started_date_time: started_date_time->Ok_0,
                    request: request->Ok_0,
                    response: response->Ok_0,
                    cache: cache->Ok_0,
                    timings: timings->Ok_0,
                    server_ip_address: server_ip_address->Ok_0,
                    connection: connection->Ok_0,
                    comment: comment->Ok_0,
                },
            )
        }
    }
}

pub open spec fn spec_dec_log(v: JsonV) -> Result<LogV, DecodeErrorV> {
    if !(v is Obj) {
        Err(DecodeErrorV::TypeMismatch("log"@, ""@))
    } else {
        let o = v->Obj_0;
        let version = dec_req_str(o, "log"@, "version"@);
        let creator = match obj_get(o, "creator"@) {
            None => Err(DecodeErrorV::MissingField("log"@, "creator"@)),
            Some(cv) => spec_dec_creator(cv),
        };
        let browser = match obj_get(o, "browser"@) {
            None => Ok(None),
            Some(JsonV::Null) => Ok(None),
            Some(bv) => match spec_dec_browser(bv) {
                Ok(b) => Ok(Some(b)),
                Err(e) => Err(e),
            },
        };
        let pages = match obj_get(o, "pages"@) {
            None => Ok(None),
            Some(JsonV::Null) => Ok(None),
            Some(JsonV::Arr(s)) => match spec_dec_pages(s) {
                Ok(ps) => Ok(Some(ps)),
                Err(e) => Err(e),
            },
            Some(_) => Err(DecodeErrorV::TypeMismatch("log"@, "pages"@)),
        };
        let entries = dec_entries_field(o, "log"@, "entries"@);
        let comment = dec_opt_str(o, "log"@, "comment"@);
        if version is Err {
            Err(version->Err_0)
        } else if creator is Err {
            Err(creator->Err_0)
        } else if browser is Err {
            Err(browser->Err_0)
        } else if pages is Err {
            Err(pages->Err_0)
        } else if entries is Err {
            Err(entries->Err_0)
        } else if comment is Err {
            Err(comment->Err_0)
        } else {
            Ok(
                LogV {
                    version: version->Ok_0,
                    creator: creator->Ok_0,
                    browser: browser->Ok_0,
                    pages: pages->Ok_0,
                    entries: entries->Ok_0,
                    comment: comment->Ok_0,
                },
            )
        }
    }
}

} // verus!
