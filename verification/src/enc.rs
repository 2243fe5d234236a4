//! Executable encoding: each entity into its [`JsonValue`] wire tree.
//!
//! Every function is proved to produce exactly the tree its spec-level
//! counterpart in [`crate::codec`] describes.

use vstd::prelude::*;
use crate::json::{JsonV, JsonValue, arr_view, fld, group_json_lemmas, opt_fld, pairs_view};
use crate::codec::{
    opt_bool_v, opt_i32_v, opt_str_v, spec_enc_browser, spec_enc_cache, spec_enc_cache_entry,
    spec_enc_cache_state, spec_enc_content, spec_enc_cookie, spec_enc_creator, spec_enc_entry,
    spec_enc_header, spec_enc_log, spec_enc_opt_timing, spec_enc_page, spec_enc_page_timings,
    spec_enc_param, spec_enc_post_data, spec_enc_query_string_pair, spec_enc_request,
    spec_enc_response, spec_enc_timing,
};
use crate::model::{
    Browser, Cache, CacheEntry, CacheState, Content, Cookie, CookieV, Creator, Entry, EntryV,
    Header, HeaderV, Log, OptionalTiming, Page, PageTimings, PageV, Param, ParamV, PostData,
    QueryStringPair, QueryStringPairV, Request, Response, Timing,
};

verus! {

broadcast use group_json_lemmas;

/// Append a mandatory string member.
fn push_str(o: &mut Vec<(String, JsonValue)>, k: &str, v: &String)
    ensures
        pairs_view(final(o)@) == pairs_view(old(o)@) + fld(k@, JsonV::Str(v@)),
{
    o.push((k.to_owned(), JsonValue::Str(v.clone())));
}

/// Append an arbitrary member.
fn push_value(o: &mut Vec<(String, JsonValue)>, k: &str, v: JsonValue)
    ensures
        pairs_view(final(o)@) == pairs_view(old(o)@) + fld(k@, v@),
{
    o.push((k.to_owned(), v));
}

/// Append an optional string member; an absent value appends nothing.
fn push_opt_str(o: &mut Vec<(String, JsonValue)>, k: &str, v: &Option<String>)
    ensures
        pairs_view(final(o)@) == pairs_view(old(o)@) + opt_fld(k@, opt_str_v(v.deep_view())),
{
    match v {
        Some(s) => o.push((k.to_owned(), JsonValue::Str(s.clone()))),
        None => {
            proof {
                assert(pairs_view(o@) =~= pairs_view(o@) + opt_fld(k@, opt_str_v(v.deep_view())));
            }
        },
    }
}

/// Append an optional boolean member; an absent value appends nothing.
fn push_opt_bool(o: &mut Vec<(String, JsonValue)>, k: &str, v: &Option<bool>)
    ensures
        pairs_view(final(o)@) == pairs_view(old(o)@) + opt_fld(k@, opt_bool_v(v.deep_view())),
{
    match v {
        Some(b) => o.push((k.to_owned(), JsonValue::Bool(*b))),
        None => {
            proof {
                assert(pairs_view(o@) =~= pairs_view(o@) + opt_fld(k@, opt_bool_v(v.deep_view())));
            }
        },
    }
}

/// Append an optional integer member; an absent value appends nothing.
fn push_opt_i32(o: &mut Vec<(String, JsonValue)>, k: &str, v: &Option<i32>)
    ensures
        pairs_view(final(o)@) == pairs_view(old(o)@) + opt_fld(k@, opt_i32_v(v.deep_view())),
{
    match v {
        Some(n) => o.push((k.to_owned(), JsonValue::Num(*n as i64))),
        None => {
            proof {
                assert(pairs_view(o@) =~= pairs_view(o@) + opt_fld(k@, opt_i32_v(v.deep_view())));
            }
        },
    }
}

/// Append a mandatory signed number member.
fn push_i32(o: &mut Vec<(String, JsonValue)>, k: &str, v: i32)
    ensures
        pairs_view(final(o)@) == pairs_view(old(o)@) + fld(k@, JsonV::Num(v as int)),
{
    o.push((k.to_owned(), JsonValue::Num(v as i64)));
}

/// Append a mandatory unsigned number member.
fn push_u32(o: &mut Vec<(String, JsonValue)>, k: &str, v: u32)
    ensures
        pairs_view(final(o)@) == pairs_view(old(o)@) + fld(k@, JsonV::Num(v as int)),
{
    o.push((k.to_owned(), JsonValue::Num(v as i64)));
}

/// Append a timing member: the duration, or the `-1` sentinel.
fn push_timing(o: &mut Vec<(String, JsonValue)>, k: &str, t: OptionalTiming)
    ensures
        pairs_view(final(o)@) == pairs_view(old(o)@) + fld(k@, spec_enc_opt_timing(t)),
{
    match t {
        OptionalTiming::TimedContent(v) => o.push((k.to_owned(), JsonValue::Num(v as i64))),
        OptionalTiming::NotApplicable => o.push((k.to_owned(), JsonValue::Num(-1))),
    }
}

pub fn encode_creator_value(c: &Creator) -> (r: JsonValue)
    ensures
        r@ == spec_enc_creator(c.deep_view()),
{
    let mut o: Vec<(String, JsonValue)> = Vec::new();
    push_str(&mut o, "name", &c.name);
    push_str(&mut o, "version", &c.version);
    push_opt_str(&mut o, "comment", &c.comment);
    let r = JsonValue::Obj(o);
    proof {
        assert(r@ =~~= spec_enc_creator(c.deep_view()));
    }
    r
}

pub fn encode_browser_value(b: &Browser) -> (r: JsonValue)
    ensures
        r@ == spec_enc_browser(b.deep_view()),
{
    let mut o: Vec<(String, JsonValue)> = Vec::new();
    push_str(&mut o, "name", &b.name);
    push_str(&mut o, "version", &b.version);
    push_opt_str(&mut o, "comment", &b.comment);
    let r = JsonValue::Obj(o);
    proof {
        assert(r@ =~~= spec_enc_browser(b.deep_view()));
    }
    r
}

pub fn encode_cookie_value(c: &Cookie) -> (r: JsonValue)
    ensures
        r@ == spec_enc_cookie(c.deep_view()),
{
    let mut o: Vec<(String, JsonValue)> = Vec::new();
    push_str(&mut o, "name", &c.name);
    push_str(&mut o, "value", &c.value);
    push_opt_str(&mut o, "path", &c.path);
    push_opt_str(&mut o, "domain", &c.domain);
    push_opt_str(&mut o, "expires", &c.expires);
    push_opt_bool(&mut o, "httpOnly", &c.http_only);
    push_opt_bool(&mut o, "secure", &c.secure);
    push_opt_str(&mut o, "comment", &c.comment);
    let r = JsonValue::Obj(o);
    proof {
        assert(r@ =~~= spec_enc_cookie(c.deep_view()));
    }
    r
}

pub fn encode_header_value(h: &Header) -> (r: JsonValue)
    ensures
        r@ == spec_enc_header(h.deep_view()),
{
    let mut o: Vec<(String, JsonValue)> = Vec::new();
    push_str(&mut o, "name", &h.name);
    push_str(&mut o, "value", &h.value);
    push_opt_str(&mut o, "comment", &h.comment);
    let r = JsonValue::Obj(o);
    proof {
        assert(r@ =~~= spec_enc_header(h.deep_view()));
    }
    r
}

pub fn encode_query_string_pair_value(q: &QueryStringPair) -> (r: JsonValue)
    ensures
        r@ == spec_enc_query_string_pair(q.deep_view()),
{
    let mut o: Vec<(String, JsonValue)> = Vec::new();
    push_str(&mut o, "name", &q.name);
    push_str(&mut o, "value", &q.value);
    push_opt_str(&mut o, "comment", &q.comment);
    let r = JsonValue::Obj(o);
    proof {
        assert(r@ =~~= spec_enc_query_string_pair(q.deep_view()));
    }
    r
}

pub fn encode_param_value(p: &Param) -> (r: JsonValue)
    ensures
        r@ == spec_enc_param(p.deep_view()),
{
    let mut o: Vec<(String, JsonValue)> = Vec::new();
    push_str(&mut o, "name", &p.name);
    push_opt_str(&mut o, "value", &p.value);
    push_opt_str(&mut o, "fileName", &p.file_name);
    push_opt_str(&mut o, "contentType", &p.content_type);
    push_opt_str(&mut o, "comment", &p.comment);
    let r = JsonValue::Obj(o);
    proof {
        assert(r@ =~~= spec_enc_param(p.deep_view()));
    }
    r
}

fn encode_param_list(ps: &Vec<Param>) -> (r: Vec<JsonValue>)
    ensures
        arr_view(r@) == ps.deep_view().map_values(|x: ParamV| spec_enc_param(x)),
{
    let mut r: Vec<JsonValue> = Vec::new();
    let n = ps.len();
    for i in 0..n
        invariant
            n == ps.len(),
            arr_view(r@) == ps.deep_view().subrange(0, i as int).map_values(
                |x: ParamV| spec_enc_param(x),
            ),
    {
        r.push(encode_param_value(&ps[i]));
        proof {
            assert(arr_view(r@) =~= ps.deep_view().subrange(0, i as int + 1).map_values(
                |x: ParamV| spec_enc_param(x),
            ));
        }
    }
    proof {
        assert(ps.deep_view().subrange(0, n as int) =~= ps.deep_view());
        assert(arr_view(r@) =~= ps.deep_view().map_values(|x: ParamV| spec_enc_param(x)));
    }
    r
}

pub fn encode_post_data_value(p: &PostData) -> (r: JsonValue)
    ensures
        r@ == spec_enc_post_data(p.deep_view()),
{
    let mut o: Vec<(String, JsonValue)> = Vec::new();
    push_str(&mut o, "mimeType", &p.mime_type);
    push_value(&mut o, "params", JsonValue::Arr(encode_param_list(&p.params)));
    push_str(&mut o, "text", &p.text);
    push_opt_str(&mut o, "comment", &p.comment);
    let r = JsonValue::Obj(o);
    proof {
        assert(r@ =~~= spec_enc_post_data(p.deep_view()));
    }
    r
}

pub fn encode_content_value(c: &Content) -> (r: JsonValue)
    ensures
        r@ == spec_enc_content(c.deep_view()),
{
    let mut o: Vec<(String, JsonValue)> = Vec::new();
    push_i32(&mut o, "size", c.size);
    push_opt_i32(&mut o, "compression", &c.compression);
    push_str(&mut o, "mimeType", &c.mime_type);
    push_opt_str(&mut o, "text", &c.text);
    push_opt_str(&mut o, "encoding", &c.encoding);
    push_opt_str(&mut o, "comment", &c.comment);
    let r = JsonValue::Obj(o);
    proof {
        assert(r@ =~~= spec_enc_content(c.deep_view()));
    }
    r
}

fn encode_cookie_list(cs: &Vec<Cookie>) -> (r: Vec<JsonValue>)
    ensures
        arr_view(r@) == cs.deep_view().map_values(|x: CookieV| spec_enc_cookie(x)),
{
    let mut r: Vec<JsonValue> = Vec::new();
    let n = cs.len();
    for i in 0..n
        invariant
            n == cs.len(),
            arr_view(r@) == cs.deep_view().subrange(0, i as int).map_values(
                |x: CookieV| spec_enc_cookie(x),
            ),
    {
        r.push(encode_cookie_value(&cs[i]));
        proof {
            assert(arr_view(r@) =~= cs.deep_view().subrange(0, i as int + 1).map_values(
                |x: CookieV| spec_enc_cookie(x),
            ));
        }
    }
    proof {
        assert(cs.deep_view().subrange(0, n as int) =~= cs.deep_view());
        assert(arr_view(r@) =~= cs.deep_view().map_values(|x: CookieV| spec_enc_cookie(x)));
    }
    r
}

fn encode_header_list(hs: &Vec<Header>) -> (r: Vec<JsonValue>)
    ensures
        arr_view(r@) == hs.deep_view().map_values(|x: HeaderV| spec_enc_header(x)),
{
    let mut r: Vec<JsonValue> = Vec::new();
    let n = hs.len();
    for i in 0..n
        invariant
            n == hs.len(),
            arr_view(r@) == hs.deep_view().subrange(0, i as int).map_values(
                |x: HeaderV| spec_enc_header(x),
            ),
    {
        r.push(encode_header_value(&hs[i]));
        proof {
            assert(arr_view(r@) =~= hs.deep_view().subrange(0, i as int + 1).map_values(
                |x: HeaderV| spec_enc_header(x),
            ));
        }
    }
    proof {
        assert(hs.deep_view().subrange(0, n as int) =~= hs.deep_view());
        assert(arr_view(r@) =~= hs.deep_view().map_values(|x: HeaderV| spec_enc_header(x)));
    }
    r
}

fn encode_query_string_list(qs: &Vec<QueryStringPair>) -> (r: Vec<JsonValue>)
    ensures
        arr_view(r@) == qs.deep_view().map_values(
            |x: QueryStringPairV| spec_enc_query_string_pair(x),
        ),
{
    let mut r: Vec<JsonValue> = Vec::new();
    let n = qs.len();
    for i in 0..n
        invariant
            n == qs.len(),
            arr_view(r@) == qs.deep_view().subrange(0, i as int).map_values(
                |x: QueryStringPairV| spec_enc_query_string_pair(x),
            ),
    {
        r.push(encode_query_string_pair_value(&qs[i]));
        proof {
            assert(arr_view(r@) =~= qs.deep_view().subrange(0, i as int + 1).map_values(
                |x: QueryStringPairV| spec_enc_query_string_pair(x),
            ));
        }
    }
    proof {
        assert(qs.deep_view().subrange(0, n as int) =~= qs.deep_view());
        assert(arr_view(r@) =~= qs.deep_view().map_values(
            |x: QueryStringPairV| spec_enc_query_string_pair(x),
        ));
    }
    r
}

pub fn encode_request_value(r: &Request) -> (res: JsonValue)
    ensures
        res@ == spec_enc_request(r.deep_view()),
{
    let mut o: Vec<(String, JsonValue)> = Vec::new();
    push_str(&mut o, "method", &r.method);
    push_str(&mut o, "url", &r.url);
    push_str(&mut o, "httpVersion", &r.http_version);
    push_value(&mut o, "cookies", JsonValue::Arr(encode_cookie_list(&r.cookies)));
    push_value(&mut o, "headers", JsonValue::Arr(encode_header_list(&r.headers)));
    push_value(&mut o, "queryString", JsonValue::Arr(encode_query_string_list(&r.query_string)));
    if let Some(p) = &r.post_data {
        push_value(&mut o, "postData", encode_post_data_value(p));
    }
    push_opt_i32(&mut o, "headersSize", &r.headers_size);
    push_opt_i32(&mut o, "bodySize", &r.body_size);
    push_opt_str(&mut o, "comment", &r.comment);
    let res = JsonValue::Obj(o);
    proof {
        assert(res@ =~~= spec_enc_request(r.deep_view()));
    }
    res
}

pub fn encode_response_value(r: &Response) -> (res: JsonValue)
    ensures
        res@ == spec_enc_response(r.deep_view()),
{
    let mut o: Vec<(String, JsonValue)> = Vec::new();
    push_i32(&mut o, "status", r.status);
    push_str(&mut o, "statusText", &r.status_text);
    push_str(&mut o, "httpVersion", &r.http_version);
    push_value(&mut o, "cookies", JsonValue::Arr(encode_cookie_list(&r.cookies)));
    push_value(&mut o, "headers", JsonValue::Arr(encode_header_list(&r.headers)));
    push_value(&mut o, "content", encode_content_value(&r.content));
    push_str(&mut o, "redirectURL", &r.redirect_url);
    push_opt_i32(&mut o, "headersSize", &r.headers_size);
    push_opt_i32(&mut o, "bodySize", &r.body_size);
    push_opt_str(&mut o, "comment", &r.comment);
    let res = JsonValue::Obj(o);
    proof {
        assert(res@ =~~= spec_enc_response(r.deep_view()));
    }
    res
}

pub fn encode_cache_entry_value(e: &CacheEntry) -> (r: JsonValue)
    ensures
        r@ == spec_enc_cache_entry(e.deep_view()),
{
    let mut o: Vec<(String, JsonValue)> = Vec::new();
    push_opt_str(&mut o, "expires", &e.expires);
    push_str(&mut o, "lastAccess", &e.last_access);
    push_str(&mut o, "eTag", &e.e_tag);
    push_i32(&mut o, "hitCount", e.hit_count);
    push_opt_str(&mut o, "comment", &e.comment);
    let r = JsonValue::Obj(o);
    proof {
        assert(r@ =~~= spec_enc_cache_entry(e.deep_view()));
    }
    r
}

pub fn encode_cache_value(c: &Cache) -> (r: JsonValue)
    ensures
        r@ == spec_enc_cache(c.deep_view()),
{
    let mut o: Vec<(String, JsonValue)> = Vec::new();
    match &c.before_request {
        CacheState::Unknown => {
            proof {
                assert(pairs_view(o@) =~= pairs_view(o@) + opt_fld(
                    "beforeRequest"@,
                    spec_enc_cache_state(c.deep_view().before_request),
                ));
            }
        },
        CacheState::Absent => push_value(&mut o, "beforeRequest", JsonValue::Null),
        CacheState::Present(e) => push_value(&mut o, "beforeRequest", encode_cache_entry_value(e)),
    }
    match &c.after_request {
        CacheState::Unknown => {},
        CacheState::Absent => push_value(&mut o, "afterRequest", JsonValue::Null),
        CacheState::Present(e) => push_value(&mut o, "afterRequest", encode_cache_entry_value(e)),
    }
    push_opt_str(&mut o, "comment", &c.comment);
    let r = JsonValue::Obj(o);
    proof {
        assert(r@ =~~= spec_enc_cache(c.deep_view()));
    }
    r
}

pub fn encode_timing_value(t: &Timing) -> (r: JsonValue)
    ensures
        r@ == spec_enc_timing(t.deep_view()),
{
    let mut o: Vec<(String, JsonValue)> = Vec::new();
    push_timing(&mut o, "blocked", t.blocked);
    push_timing(&mut o, "dns", t.dns);
    push_timing(&mut o, "connect", t.connect);
    push_u32(&mut o, "send", t.send);
    push_u32(&mut o, "wait", t.wait);
    push_u32(&mut o, "receive", t.receive);
    push_timing(&mut o, "ssl", t.ssl);
    push_opt_str(&mut o, "comment", &t.comment);
    let r = JsonValue::Obj(o);
    proof {
        assert(r@ =~~= spec_enc_timing(t.deep_view()));
    }
    r
}

pub fn encode_page_timings_value(t: &PageTimings) -> (r: JsonValue)
    ensures
        r@ == spec_enc_page_timings(t.deep_view()),
{
    let mut o: Vec<(String, JsonValue)> = Vec::new();
    push_timing(&mut o, "onContentLoad", t.on_content_load);
    push_timing(&mut o, "onLoad", t.on_load);
    push_opt_str(&mut o, "comment", &t.comment);
    let r = JsonValue::Obj(o);
    proof {
        assert(r@ =~~= spec_enc_page_timings(t.deep_view()));
    }
    r
}

pub fn encode_page_value(p: &Page) -> (r: JsonValue)
    ensures
        r@ == spec_enc_page(p.deep_view()),
{
    let mut o: Vec<(String, JsonValue)> = Vec::new();
    push_str(&mut o, "startedDateTime", &p.started_date_time);
    push_str(&mut o, "id", &p.id);
    push_str(&mut o, "title", &p.title);
    push_value(&mut o, "pageTimings", encode_page_timings_value(&p.page_timings));
    push_opt_str(&mut o, "comment", &p.comment);
    let r = JsonValue::Obj(o);
    proof {
        assert(r@ =~~= spec_enc_page(p.deep_view()));
    }
    r
}

pub fn encode_entry_value(e: &Entry) -> (r: JsonValue)
    ensures
        r@ == spec_enc_entry(e.deep_view()),
{
    let mut o: Vec<(String, JsonValue)> = Vec::new();
    push_opt_str(&mut o, "pageref", &e.pageref);
    push_str(&mut o, "startedDateTime", &e.started_date_time);
    push_value(&mut o, "request", encode_request_value(&e.request));
    push_value(&mut o, "response", encode_response_value(&e.response));
    push_value(&mut o, "cache", encode_cache_value(&e.cache));
    push_value(&mut o, "timings", encode_timing_value(&e.timings));
    push_opt_str(&mut o, "serverIPAddress", &e.server_ip_address);
    push_opt_str(&mut o, "connection", &e.connection);
    push_opt_str(&mut o, "comment", &e.comment);
    let r = JsonValue::Obj(o);
    proof {
        assert(r@ =~~= spec_enc_entry(e.deep_view()));
    }
    r
}

fn encode_page_list(ps: &Vec<Page>) -> (r: Vec<JsonValue>)
    ensures
        arr_view(r@) == ps.deep_view().map_values(|x: PageV| spec_enc_page(x)),
{
    let mut r: Vec<JsonValue> = Vec::new();
    let n = ps.len();
    for i in 0..n
        invariant
            n == ps.len(),
            arr_view(r@) == ps.deep_view().subrange(0, i as int).map_values(
                |x: PageV| spec_enc_page(x),
            ),
    {
        r.push(encode_page_value(&ps[i]));
        proof {
            assert(arr_view(r@) =~= ps.deep_view().subrange(0, i as int + 1).map_values(
                |x: PageV| spec_enc_page(x),
            ));
        }
    }
    proof {
        assert(ps.deep_view().subrange(0, n as int) =~= ps.deep_view());
        assert(arr_view(r@) =~= ps.deep_view().map_values(|x: PageV| spec_enc_page(x)));
    }
    r
}

fn encode_entry_list(es: &Vec<Entry>) -> (r: Vec<JsonValue>)
    ensures
        arr_view(r@) == es.deep_view().map_values(|x: EntryV| spec_enc_entry(x)),
{
    let mut r: Vec<JsonValue> = Vec::new();
    let n = es.len();
    for i in 0..n
        invariant
            n == es.len(),
            arr_view(r@) == es.deep_view().subrange(0, i as int).map_values(
                |x: EntryV| spec_enc_entry(x),
            ),
    {
        r.push(encode_entry_value(&es[i]));
        proof {
            assert(arr_view(r@) =~= es.deep_view().subrange(0, i as int + 1).map_values(
                |x: EntryV| spec_enc_entry(x),
            ));
        }
    }
    proof {
        assert(es.deep_view().subrange(0, n as int) =~= es.deep_view());
        assert(arr_view(r@) =~= es.deep_view().map_values(|x: EntryV| spec_enc_entry(x)));
    }
    r
}

pub fn encode_log_value(l: &Log) -> (r: JsonValue)
    ensures
        r@ == spec_enc_log(l.deep_view()),
{
    let mut o: Vec<(String, JsonValue)> = Vec::new();
    push_str(&mut o, "version", &l.version);
    push_value(&mut o, "creator", encode_creator_value(&l.creator));
    if let Some(b) = &l.browser {
        push_value(&mut o, "browser", encode_browser_value(b));
    }
    if let Some(ps) = &l.pages {
        push_value(&mut o, "pages", JsonValue::Arr(encode_page_list(ps)));
    }
    push_value(&mut o, "entries", JsonValue::Arr(encode_entry_list(&l.entries)));
    push_opt_str(&mut o, "comment", &l.comment);
    let r = JsonValue::Obj(o);
    proof {
        assert(r@ =~~= spec_enc_log(l.deep_view()));
    }
    r
}

} // verus!
