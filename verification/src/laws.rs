//! The laws the codec obeys, proved once and for all.
//!
//! The central law is round-trip fidelity: decoding what was encoded gives
//! back the value, for every valid value of every entity, with every
//! optional field covered in both its present and its absent state. The
//! remaining laws pin down the always-present sequences, the `pages` key of
//! a log, and the silent tolerance of unknown keys.

use vstd::prelude::*;
use crate::json::{JsonV, fld, group_json_lemmas, obj_get, obj_has};
use crate::codec::{
    DecodeErrorV, dec_cache_state, dec_opt_str, dec_opt_timing, dec_req_str, opt_str_v,
    spec_enc_cache_state, spec_enc_opt_timing, spec_dec_browser, spec_dec_cache, spec_dec_cache_entry, spec_dec_content,
    spec_dec_cookie, spec_dec_cookies, spec_dec_creator, spec_dec_entries, spec_dec_entry,
    spec_dec_header, spec_dec_headers, spec_dec_log, spec_dec_page, spec_dec_page_timings,
    spec_dec_pages, spec_dec_param, spec_dec_params, spec_dec_post_data,
    spec_dec_query_string_pair, spec_dec_query_string_pairs, spec_dec_request, spec_dec_response,
    spec_dec_timing, spec_enc_browser, spec_enc_cache, spec_enc_cache_entry, spec_enc_content,
    spec_enc_cookie, spec_enc_creator, spec_enc_entry, spec_enc_header, spec_enc_log,
    spec_enc_page, spec_enc_page_timings, spec_enc_param, spec_enc_post_data,
    spec_enc_query_string_pair, spec_enc_request, spec_enc_response, spec_enc_timing,
};
use crate::model::{
    BrowserV, CacheEntryV, CacheStateV, CacheV, OptionalTiming, ContentV, CookieV, CreatorV, EntryV, HeaderV,
    LogV, PageTimingsV, PageV, ParamV, PostDataV, QueryStringPairV, RequestV, ResponseV, TimingV,
};

verus! {

broadcast use group_json_lemmas;

/// A request the codec can faithfully round-trip: a size that is available
/// is never the `-1` the wire reserves for unavailable data.
pub open spec fn wf_request(r: RequestV) -> bool {
    &&& match r.headers_size {
        Some(n) => n != -1,
        None => true,
    }
    &&& match r.body_size {
        Some(n) => n != -1,
        None => true,
    }
}

/// A response the codec can faithfully round-trip: see [`wf_request`].
pub open spec fn wf_response(r: ResponseV) -> bool {
    &&& match r.headers_size {
        Some(n) => n != -1,
        None => true,
    }
    &&& match r.body_size {
        Some(n) => n != -1,
        None => true,
    }
}

/// An entry the codec can faithfully round-trip.
pub open spec fn wf_entry(e: EntryV) -> bool {
    wf_request(e.request) && wf_response(e.response)
}

/// A log the codec can faithfully round-trip.
pub open spec fn wf_log(l: LogV) -> bool {
    forall|i: int| 0 <= i < l.entries.len() ==> wf_entry(#[trigger] l.entries[i])
}

/// Round trip: decoding an encoded value gives it back.
pub proof fn lemma_creator_round_trip(x: CreatorV)
    ensures
        spec_dec_creator(spec_enc_creator(x)) == Ok::<CreatorV, DecodeErrorV>(x),
{
    reveal_strlit("name");
    reveal_strlit("version");
    reveal_strlit("comment");
    assert("name"@ != "version"@) by {
        assert("name"@.len() == 4);
        assert("version"@.len() == 7);
    }
    assert("name"@ != "comment"@) by {
        assert("name"@.len() == 4);
        assert("comment"@.len() == 7);
    }
    assert("version"@ != "comment"@) by {
        assert("version"@[0] == 'v');
        assert("comment"@[0] == 'c');
    }
    assert(spec_dec_creator(spec_enc_creator(x)) =~~= Ok::<CreatorV, DecodeErrorV>(x));
}

/// Round trip: decoding an encoded value gives it back.
pub proof fn lemma_browser_round_trip(x: BrowserV)
    ensures
        spec_dec_browser(spec_enc_browser(x)) == Ok::<BrowserV, DecodeErrorV>(x),
{
    reveal_strlit("name");
    reveal_strlit("version");
    reveal_strlit("comment");
    assert("name"@ != "version"@) by {
        assert("name"@.len() == 4);
        assert("version"@.len() == 7);
    }
    assert("name"@ != "comment"@) by {
        assert("name"@.len() == 4);
        assert("comment"@.len() == 7);
    }
    assert("version"@ != "comment"@) by {
        assert("version"@[0] == 'v');
        assert("comment"@[0] == 'c');
    }
    assert(spec_dec_browser(spec_enc_browser(x)) =~~= Ok::<BrowserV, DecodeErrorV>(x));
}

/// Round trip: decoding an encoded value gives it back.
pub proof fn lemma_cookie_round_trip(x: CookieV)
    ensures
        spec_dec_cookie(spec_enc_cookie(x)) == Ok::<CookieV, DecodeErrorV>(x),
{
    reveal_strlit("name");
    reveal_strlit("value");
    reveal_strlit("path");
    reveal_strlit("domain");
    reveal_strlit("expires");
    reveal_strlit("httpOnly");
    reveal_strlit("secure");
    reveal_strlit("comment");
    assert("name"@ != "value"@) by {
        assert("name"@.len() == 4);
        assert("value"@.len() == 5);
    }
    assert("name"@ != "path"@) by {
        assert("name"@[0] == 'n');
        assert("path"@[0] == 'p');
    }
    assert("name"@ != "domain"@) by {
        assert("name"@.len() == 4);
        assert("domain"@.len() == 6);
    }
    assert("name"@ != "expires"@) by {
        assert("name"@.len() == 4);
        assert("expires"@.len() == 7);
    }
    assert("name"@ != "httpOnly"@) by {
        assert("name"@.len() == 4);
        assert("httpOnly"@.len() == 8);
    }
    assert("name"@ != "secure"@) by {
        assert("name"@.len() == 4);
        assert("secure"@.len() == 6);
    }
    assert("name"@ != "comment"@) by {
        assert("name"@.len() == 4);
        assert("comment"@.len() == 7);
    }
    assert("value"@ != "path"@) by {
        assert("value"@.len() == 5);
        assert("path"@.len() == 4);
    }
    assert("value"@ != "domain"@) by {
        assert("value"@.len() == 5);
        assert("domain"@.len() == 6);
    }
    assert("value"@ != "expires"@) by {
        assert("value"@.len() == 5);
        assert("expires"@.len() == 7);
    }
    assert("value"@ != "httpOnly"@) by {
        assert("value"@.len() == 5);
        assert("httpOnly"@.len() == 8);
    }
    assert("value"@ != "secure"@) by {
        assert("value"@.len() == 5);
        assert("secure"@.len() == 6);
    }
    assert("value"@ != "comment"@) by {
        assert("value"@.len() == 5);
        assert("comment"@.len() == 7);
    }
    assert("path"@ != "domain"@) by {
        assert("path"@.len() == 4);
        assert("domain"@.len() == 6);
    }
    assert("path"@ != "expires"@) by {
        assert("path"@.len() == 4);
        assert("expires"@.len() == 7);
    }
    assert("path"@ != "httpOnly"@) by {
        assert("path"@.len() == 4);
        assert("httpOnly"@.len() == 8);
    }
    assert("path"@ != "secure"@) by {
        assert("path"@.len() == 4);
        assert("secure"@.len() == 6);
    }
    assert("path"@ != "comment"@) by {
        assert("path"@.len() == 4);
        assert("comment"@.len() == 7);
    }
    assert("domain"@ != "expires"@) by {
        assert("domain"@.len() == 6);
        assert("expires"@.len() == 7);
    }
    assert("domain"@ != "httpOnly"@) by {
        assert("domain"@.len() == 6);
        assert("httpOnly"@.len() == 8);
    }
    assert("domain"@ != "secure"@) by {
        assert("domain"@[0] == 'd');
        assert("secure"@[0] == 's');
    }
    assert("domain"@ != "comment"@) by {
        assert("domain"@.len() == 6);
        assert("comment"@.len() == 7);
    }
    assert("expires"@ != "httpOnly"@) by {
        assert("expires"@.len() == 7);
        assert("httpOnly"@.len() == 8);
    }
    assert("expires"@ != "secure"@) by {
        assert("expires"@.len() == 7);
        assert("secure"@.len() == 6);
    }
    assert("expires"@ != "comment"@) by {
        assert("expires"@[0] == 'e');
        assert("comment"@[0] == 'c');
    }
    assert("httpOnly"@ != "secure"@) by {
        assert("httpOnly"@.len() == 8);
        assert("secure"@.len() == 6);
    }
    assert("httpOnly"@ != "comment"@) by {
        assert("httpOnly"@.len() == 8);
        assert("comment"@.len() == 7);
    }
    assert("secure"@ != "comment"@) by {
        assert("secure"@.len() == 6);
        assert("comment"@.len() == 7);
    }
    assert(spec_dec_cookie(spec_enc_cookie(x)) =~~= Ok::<CookieV, DecodeErrorV>(x));
}

/// Round trip: decoding an encoded value gives it back.
pub proof fn lemma_header_round_trip(x: HeaderV)
    ensures
        spec_dec_header(spec_enc_header(x)) == Ok::<HeaderV, DecodeErrorV>(x),
{
    reveal_strlit("name");
    reveal_strlit("value");
    reveal_strlit("comment");
    assert("name"@ != "value"@) by {
        assert("name"@.len() == 4);
        assert("value"@.len() == 5);
    }
    assert("name"@ != "comment"@) by {
        assert("name"@.len() == 4);
        assert("comment"@.len() == 7);
    }
    assert("value"@ != "comment"@) by {
        assert("value"@.len() == 5);
        assert("comment"@.len() == 7);
    }
    assert(spec_dec_header(spec_enc_header(x)) =~~= Ok::<HeaderV, DecodeErrorV>(x));
}

/// Round trip: decoding an encoded value gives it back.
pub proof fn lemma_query_string_pair_round_trip(x: QueryStringPairV)
    ensures
        spec_dec_query_string_pair(spec_enc_query_string_pair(x)) == Ok::<QueryStringPairV, DecodeErrorV>(x),
{
    reveal_strlit("name");
    reveal_strlit("value");
    reveal_strlit("comment");
    assert("name"@ != "value"@) by {
        assert("name"@.len() == 4);
        assert("value"@.len() == 5);
    }
    assert("name"@ != "comment"@) by {
        assert("name"@.len() == 4);
        assert("comment"@.len() == 7);
    }
    assert("value"@ != "comment"@) by {
        assert("value"@.len() == 5);
        assert("comment"@.len() == 7);
    }
    assert(spec_dec_query_string_pair(spec_enc_query_string_pair(x)) =~~= Ok::<QueryStringPairV, DecodeErrorV>(x));
}

/// Round trip: decoding an encoded value gives it back.
pub proof fn lemma_param_round_trip(x: ParamV)
    ensures
        spec_dec_param(spec_enc_param(x)) == Ok::<ParamV, DecodeErrorV>(x),
{
    reveal_strlit("name");
    reveal_strlit("value");
    reveal_strlit("fileName");
    reveal_strlit("contentType");
    reveal_strlit("comment");
    assert("name"@ != "value"@) by {
        assert("name"@.len() == 4);
        assert("value"@.len() == 5);
    }
    assert("name"@ != "fileName"@) by {
        assert("name"@.len() == 4);
        assert("fileName"@.len() == 8);
    }
    assert("name"@ != "contentType"@) by {
        assert("name"@.len() == 4);
        assert("contentType"@.len() == 11);
    }
    assert("name"@ != "comment"@) by {
        assert("name"@.len() == 4);
        assert("comment"@.len() == 7);
    }
    assert("value"@ != "fileName"@) by {
        assert("value"@.len() == 5);
        assert("fileName"@.len() == 8);
    }
    assert("value"@ != "contentType"@) by {
        assert("value"@.len() == 5);
        assert("contentType"@.len() == 11);
    }
    assert("value"@ != "comment"@) by {
        assert("value"@.len() == 5);
        assert("comment"@.len() == 7);
    }
    assert("fileName"@ != "contentType"@) by {
        assert("fileName"@.len() == 8);
        assert("contentType"@.len() == 11);
    }
    assert("fileName"@ != "comment"@) by {
        assert("fileName"@.len() == 8);
        assert("comment"@.len() == 7);
    }
    assert("contentType"@ != "comment"@) by {
        assert("contentType"@.len() == 11);
        assert("comment"@.len() == 7);
    }
    assert(spec_dec_param(spec_enc_param(x)) =~~= Ok::<ParamV, DecodeErrorV>(x));
}

/// Round trip over a whole sequence of elements.
pub proof fn lemma_params_round_trip(s: Seq<ParamV>)
    ensures
        spec_dec_params(s.map_values(|x: ParamV| spec_enc_param(x))) == Ok::<Seq<ParamV>, DecodeErrorV>(s),
    decreases s.len(),
{
    let m = s.map_values(|x: ParamV| spec_enc_param(x));
    if s.len() == 0 {
        assert(m.len() == 0);
        assert(s =~= Seq::<ParamV>::empty());
    } else {
        lemma_param_round_trip(s[0]);
        lemma_params_round_trip(s.drop_first());
        assert(m.drop_first() =~= s.drop_first().map_values(|x: ParamV| spec_enc_param(x)));
        assert(m[0] == spec_enc_param(s[0]));
        assert(seq![s[0]] + s.drop_first() =~= s);
    }
}

/// Round trip: decoding an encoded value gives it back.
pub proof fn lemma_post_data_round_trip(x: PostDataV)
    ensures
        spec_dec_post_data(spec_enc_post_data(x)) == Ok::<PostDataV, DecodeErrorV>(x),
{
    reveal_strlit("mimeType");
    reveal_strlit("params");
    reveal_strlit("text");
    reveal_strlit("comment");
    assert("mimeType"@ != "params"@) by {
        assert("mimeType"@.len() == 8);
        assert("params"@.len() == 6);
    }
    assert("mimeType"@ != "text"@) by {
        assert("mimeType"@.len() == 8);
        assert("text"@.len() == 4);
    }
    assert("mimeType"@ != "comment"@) by {
        assert("mimeType"@.len() == 8);
        assert("comment"@.len() == 7);
    }
    assert("params"@ != "text"@) by {
        assert("params"@.len() == 6);
        assert("text"@.len() == 4);
    }
    assert("params"@ != "comment"@) by {
        assert("params"@.len() == 6);
        assert("comment"@.len() == 7);
    }
    assert("text"@ != "comment"@) by {
        assert("text"@.len() == 4);
        assert("comment"@.len() == 7);
    }
    lemma_params_round_trip(x.params);
    assert(spec_dec_post_data(spec_enc_post_data(x)) =~~= Ok::<PostDataV, DecodeErrorV>(x));
}

/// Round trip: decoding an encoded value gives it back.
pub proof fn lemma_content_round_trip(x: ContentV)
    ensures
        spec_dec_content(spec_enc_content(x)) == Ok::<ContentV, DecodeErrorV>(x),
{
    reveal_strlit("size");
    reveal_strlit("compression");
    reveal_strlit("mimeType");
    reveal_strlit("text");
    reveal_strlit("encoding");
    reveal_strlit("comment");
    assert("size"@ != "compression"@) by {
        assert("size"@.len() == 4);
        assert("compression"@.len() == 11);
    }
    assert("size"@ != "mimeType"@) by {
        assert("size"@.len() == 4);
        assert("mimeType"@.len() == 8);
    }
    assert("size"@ != "text"@) by {
        assert("size"@[0] == 's');
        assert("text"@[0] == 't');
    }
    assert("size"@ != "encoding"@) by {
        assert("size"@.len() == 4);
        assert("encoding"@.len() == 8);
    }
    assert("size"@ != "comment"@) by {
        assert("size"@.len() == 4);
        assert("comment"@.len() == 7);
    }
    assert("compression"@ != "mimeType"@) by {
        assert("compression"@.len() == 11);
        assert("mimeType"@.len() == 8);
    }
    assert("compression"@ != "text"@) by {
        assert("compression"@.len() == 11);
        assert("text"@.len() == 4);
    }
    assert("compression"@ != "encoding"@) by {
        assert("compression"@.len() == 11);
        assert("encoding"@.len() == 8);
    }
    assert("compression"@ != "comment"@) by {
        assert("compression"@.len() == 11);
        assert("comment"@.len() == 7);
    }
    assert("mimeType"@ != "text"@) by {
        assert("mimeType"@.len() == 8);
        assert("text"@.len() == 4);
    }
    assert("mimeType"@ != "encoding"@) by {
        assert("mimeType"@[0] == 'm');
        assert("encoding"@[0] == 'e');
    }
    assert("mimeType"@ != "comment"@) by {
        assert("mimeType"@.len() == 8);
        assert("comment"@.len() == 7);
    }
    assert("text"@ != "encoding"@) by {
        assert("text"@.len() == 4);
        assert("encoding"@.len() == 8);
    }
    assert("text"@ != "comment"@) by {
        assert("text"@.len() == 4);
        assert("comment"@.len() == 7);
    }
    assert("encoding"@ != "comment"@) by {
        assert("encoding"@.len() == 8);
        assert("comment"@.len() == 7);
    }
    assert(spec_dec_content(spec_enc_content(x)) =~~= Ok::<ContentV, DecodeErrorV>(x));
}

/// Round trip over a whole sequence of elements.
pub proof fn lemma_cookies_round_trip(s: Seq<CookieV>)
    ensures
        spec_dec_cookies(s.map_values(|x: CookieV| spec_enc_cookie(x))) == Ok::<Seq<CookieV>, DecodeErrorV>(s),
    decreases s.len(),
{
    let m = s.map_values(|x: CookieV| spec_enc_cookie(x));
    if s.len() == 0 {
        assert(m.len() == 0);
        assert(s =~= Seq::<CookieV>::empty());
    } else {
        lemma_cookie_round_trip(s[0]);
        lemma_cookies_round_trip(s.drop_first());
        assert(m.drop_first() =~= s.drop_first().map_values(|x: CookieV| spec_enc_cookie(x)));
        assert(m[0] == spec_enc_cookie(s[0]));
        assert(seq![s[0]] + s.drop_first() =~= s);
    }
}

/// Round trip over a whole sequence of elements.
pub proof fn lemma_headers_round_trip(s: Seq<HeaderV>)
    ensures
        spec_dec_headers(s.map_values(|x: HeaderV| spec_enc_header(x))) == Ok::<Seq<HeaderV>, DecodeErrorV>(s),
    decreases s.len(),
{
    let m = s.map_values(|x: HeaderV| spec_enc_header(x));
    if s.len() == 0 {
        assert(m.len() == 0);
        assert(s =~= Seq::<HeaderV>::empty());
    } else {
        lemma_header_round_trip(s[0]);
        lemma_headers_round_trip(s.drop_first());
        assert(m.drop_first() =~= s.drop_first().map_values(|x: HeaderV| spec_enc_header(x)));
        assert(m[0] == spec_enc_header(s[0]));
        assert(seq![s[0]] + s.drop_first() =~= s);
    }
}

/// Round trip over a whole sequence of elements.
pub proof fn lemma_query_string_pairs_round_trip(s: Seq<QueryStringPairV>)
    ensures
        spec_dec_query_string_pairs(s.map_values(|x: QueryStringPairV| spec_enc_query_string_pair(x))) == Ok::<Seq<QueryStringPairV>, DecodeErrorV>(s),
    decreases s.len(),
{
    let m = s.map_values(|x: QueryStringPairV| spec_enc_query_string_pair(x));
    if s.len() == 0 {
        assert(m.len() == 0);
        assert(s =~= Seq::<QueryStringPairV>::empty());
    } else {
        lemma_query_string_pair_round_trip(s[0]);
        lemma_query_string_pairs_round_trip(s.drop_first());
        assert(m.drop_first() =~= s.drop_first().map_values(|x: QueryStringPairV| spec_enc_query_string_pair(x)));
        assert(m[0] == spec_enc_query_string_pair(s[0]));
        assert(seq![s[0]] + s.drop_first() =~= s);
    }
}

/// Round trip: decoding an encoded value gives it back.
pub proof fn lemma_request_round_trip(x: RequestV)
    requires
        wf_request(x),
    ensures
        spec_dec_request(spec_enc_request(x)) == Ok::<RequestV, DecodeErrorV>(x),
{
    reveal_strlit("method");
    reveal_strlit("url");
    reveal_strlit("httpVersion");
    reveal_strlit("cookies");
    reveal_strlit("headers");
    reveal_strlit("queryString");
    reveal_strlit("postData");
    reveal_strlit("headersSize");
    reveal_strlit("bodySize");
    reveal_strlit("comment");
    assert("method"@ != "url"@) by {
        assert("method"@.len() == 6);
        assert("url"@.len() == 3);
    }
    assert("method"@ != "httpVersion"@) by {
        assert("method"@.len() == 6);
        assert("httpVersion"@.len() == 11);
    }
    assert("method"@ != "cookies"@) by {
        assert("method"@.len() == 6);
        assert("cookies"@.len() == 7);
    }
    assert("method"@ != "headers"@) by {
        assert("method"@.len() == 6);
        assert("headers"@.len() == 7);
    }
    assert("method"@ != "queryString"@) by {
        assert("method"@.len() == 6);
        assert("queryString"@.len() == 11);
    }
    assert("method"@ != "postData"@) by {
        assert("method"@.len() == 6);
        assert("postData"@.len() == 8);
    }
    assert("method"@ != "headersSize"@) by {
        assert("method"@.len() == 6);
        assert("headersSize"@.len() == 11);
    }
    assert("method"@ != "bodySize"@) by {
        assert("method"@.len() == 6);
        assert("bodySize"@.len() == 8);
    }
    assert("method"@ != "comment"@) by {
        assert("method"@.len() == 6);
        assert("comment"@.len() == 7);
    }
    assert("url"@ != "httpVersion"@) by {
        assert("url"@.len() == 3);
        assert("httpVersion"@.len() == 11);
    }
    assert("url"@ != "cookies"@) by {
        assert("url"@.len() == 3);
        assert("cookies"@.len() == 7);
    }
    assert("url"@ != "headers"@) by {
        assert("url"@.len() == 3);
        assert("headers"@.len() == 7);
    }
    assert("url"@ != "queryString"@) by {
        assert("url"@.len() == 3);
        assert("queryString"@.len() == 11);
    }
    assert("url"@ != "postData"@) by {
        assert("url"@.len() == 3);
        assert("postData"@.len() == 8);
    }
    assert("url"@ != "headersSize"@) by {
        assert("url"@.len() == 3);
        assert("headersSize"@.len() == 11);
    }
    assert("url"@ != "bodySize"@) by {
        assert("url"@.len() == 3);
        assert("bodySize"@.len() == 8);
    }
    assert("url"@ != "comment"@) by {
        assert("url"@.len() == 3);
        assert("comment"@.len() == 7);
    }
    assert("httpVersion"@ != "cookies"@) by {
        assert("httpVersion"@.len() == 11);
        assert("cookies"@.len() == 7);
    }
    assert("httpVersion"@ != "headers"@) by {
        assert("httpVersion"@.len() == 11);
        assert("headers"@.len() == 7);
    }
    assert("httpVersion"@ != "queryString"@) by {
        assert("httpVersion"@[0] == 'h');
        assert("queryString"@[0] == 'q');
    }
    assert("httpVersion"@ != "postData"@) by {
        assert("httpVersion"@.len() == 11);
        assert("postData"@.len() == 8);
    }
    assert("httpVersion"@ != "headersSize"@) by {
        assert("httpVersion"@[1] == 't');
        assert("headersSize"@[1] == 'e');
    }
    assert("httpVersion"@ != "bodySize"@) by {
        assert("httpVersion"@.len() == 11);
        assert("bodySize"@.len() == 8);
    }
    assert("httpVersion"@ != "comment"@) by {
        assert("httpVersion"@.len() == 11);
        assert("comment"@.len() == 7);
    }
    assert("cookies"@ != "headers"@) by {
        assert("cookies"@[0] == 'c');
        assert("headers"@[0] == 'h');
    }
    assert("cookies"@ != "queryString"@) by {
        assert("cookies"@.len() == 7);
        assert("queryString"@.len() == 11);
    }
    assert("cookies"@ != "postData"@) by {
        assert("cookies"@.len() == 7);
        assert("postData"@.len() == 8);
    }
    assert("cookies"@ != "headersSize"@) by {
        assert("cookies"@.len() == 7);
        assert("headersSize"@.len() == 11);
    }
    assert("cookies"@ != "bodySize"@) by {
        assert("cookies"@.len() == 7);
        assert("bodySize"@.len() == 8);
    }
    assert("cookies"@ != "comment"@) by {
        assert("cookies"@[2] == 'o');
        assert("comment"@[2] == 'm');
    }
    assert("headers"@ != "queryString"@) by {
        assert("headers"@.len() == 7);
        assert("queryString"@.len() == 11);
    }
    assert("headers"@ != "postData"@) by {
        assert("headers"@.len() == 7);
        assert("postData"@.len() == 8);
    }
    assert("headers"@ != "headersSize"@) by {
        assert("headers"@.len() == 7);
        assert("headersSize"@.len() == 11);
    }
    assert("headers"@ != "bodySize"@) by {
        assert("headers"@.len() == 7);
        assert("bodySize"@.len() == 8);
    }
    assert("headers"@ != "comment"@) by {
        assert("headers"@[0] == 'h');
        assert("comment"@[0] == 'c');
    }
    assert("queryString"@ != "postData"@) by {
        assert("queryString"@.len() == 11);
        assert("postData"@.len() == 8);
    }
    assert("queryString"@ != "headersSize"@) by {
        assert("queryString"@[0] == 'q');
        assert("headersSize"@[0] == 'h');
    }
    assert("queryString"@ != "bodySize"@) by {
        assert("queryString"@.len() == 11);
        assert("bodySize"@.len() == 8);
    }
    assert("queryString"@ != "comment"@) by {
        assert("queryString"@.len() == 11);
        assert("comment"@.len() == 7);
    }
    assert("postData"@ != "headersSize"@) by {
        assert("postData"@.len() == 8);
        assert("headersSize"@.len() == 11);
    }
    assert("postData"@ != "bodySize"@) by {
        assert("postData"@[0] == 'p');
        assert("bodySize"@[0] == 'b');
    }
    assert("postData"@ != "comment"@) by {
        assert("postData"@.len() == 8);
        assert("comment"@.len() == 7);
    }
    assert("headersSize"@ != "bodySize"@) by {
        assert("headersSize"@.len() == 11);
        assert("bodySize"@.len() == 8);
    }
    assert("headersSize"@ != "comment"@) by {
        assert("headersSize"@.len() == 11);
        assert("comment"@.len() == 7);
    }
    assert("bodySize"@ != "comment"@) by {
        assert("bodySize"@.len() == 8);
        assert("comment"@.len() == 7);
    }
    lemma_cookies_round_trip(x.cookies);
    lemma_headers_round_trip(x.headers);
    lemma_query_string_pairs_round_trip(x.query_string);
    match x.post_data {
        Some(p) => lemma_post_data_round_trip(p),
        None => {},
    }
    assert(spec_dec_request(spec_enc_request(x)) =~~= Ok::<RequestV, DecodeErrorV>(x));
}

/// Round trip: decoding an encoded value gives it back.
pub proof fn lemma_response_round_trip(x: ResponseV)
    requires
        wf_response(x),
    ensures
        spec_dec_response(spec_enc_response(x)) == Ok::<ResponseV, DecodeErrorV>(x),
{
    reveal_strlit("status");
    reveal_strlit("statusText");
    reveal_strlit("httpVersion");
    reveal_strlit("cookies");
    reveal_strlit("headers");
    reveal_strlit("content");
    reveal_strlit("redirectURL");
    reveal_strlit("headersSize");
    reveal_strlit("bodySize");
    reveal_strlit("comment");
    assert("status"@ != "statusText"@) by {
        assert("status"@.len() == 6);
        assert("statusText"@.len() == 10);
    }
    assert("status"@ != "httpVersion"@) by {
        assert("status"@.len() == 6);
        assert("httpVersion"@.len() == 11);
    }
    assert("status"@ != "cookies"@) by {
        assert("status"@.len() == 6);
        assert("cookies"@.len() == 7);
    }
    assert("status"@ != "headers"@) by {
        assert("status"@.len() == 6);
        assert("headers"@.len() == 7);
    }
    assert("status"@ != "content"@) by {
        assert("status"@.len() == 6);
        assert("content"@.len() == 7);
    }
    assert("status"@ != "redirectURL"@) by {
        assert("status"@.len() == 6);
        assert("redirectURL"@.len() == 11);
    }
    assert("status"@ != "headersSize"@) by {
        assert("status"@.len() == 6);
        assert("headersSize"@.len() == 11);
    }
    assert("status"@ != "bodySize"@) by {
        assert("status"@.len() == 6);
        assert("bodySize"@.len() == 8);
    }
    assert("status"@ != "comment"@) by {
        assert("status"@.len() == 6);
        assert("comment"@.len() == 7);
    }
    assert("statusText"@ != "httpVersion"@) by {
        assert("statusText"@.len() == 10);
        assert("httpVersion"@.len() == 11);
    }
    assert("statusText"@ != "cookies"@) by {
        assert("statusText"@.len() == 10);
        assert("cookies"@.len() == 7);
    }
    assert("statusText"@ != "headers"@) by {
        assert("statusText"@.len() == 10);
        assert("headers"@.len() == 7);
    }
    assert("statusText"@ != "content"@) by {
        assert("statusText"@.len() == 10);
        assert("content"@.len() == 7);
    }
    assert("statusText"@ != "redirectURL"@) by {
        assert("statusText"@.len() == 10);
        assert("redirectURL"@.len() == 11);
    }
    assert("statusText"@ != "headersSize"@) by {
        assert("statusText"@.len() == 10);
        assert("headersSize"@.len() == 11);
    }
    assert("statusText"@ != "bodySize"@) by {
        assert("statusText"@.len() == 10);
        assert("bodySize"@.len() == 8);
    }
    assert("statusText"@ != "comment"@) by {
        assert("statusText"@.len() == 10);
        assert("comment"@.len() == 7);
    }
    assert("httpVersion"@ != "cookies"@) by {
        assert("httpVersion"@.len() == 11);
        assert("cookies"@.len() == 7);
    }
    assert("httpVersion"@ != "headers"@) by {
        assert("httpVersion"@.len() == 11);
        assert("headers"@.len() == 7);
    }
    assert("httpVersion"@ != "content"@) by {
        assert("httpVersion"@.len() == 11);
        assert("content"@.len() == 7);
    }
    assert("httpVersion"@ != "redirectURL"@) by {
        assert("httpVersion"@[0] == 'h');
        assert("redirectURL"@[0] == 'r');
    }
    assert("httpVersion"@ != "headersSize"@) by {
        assert("httpVersion"@[1] == 't');
        assert("headersSize"@[1] == 'e');
    }
    assert("httpVersion"@ != "bodySize"@) by {
        assert("httpVersion"@.len() == 11);
        assert("bodySize"@.len() == 8);
    }
    assert("httpVersion"@ != "comment"@) by {
        assert("httpVersion"@.len() == 11);
        assert("comment"@.len() == 7);
    }
    assert("cookies"@ != "headers"@) by {
        assert("cookies"@[0] == 'c');
        assert("headers"@[0] == 'h');
    }
    assert("cookies"@ != "content"@) by {
        assert("cookies"@[2] == 'o');
        assert("content"@[2] == 'n');
    }
    assert("cookies"@ != "redirectURL"@) by {
        assert("cookies"@.len() == 7);
        assert("redirectURL"@.len() == 11);
    }
    assert("cookies"@ != "headersSize"@) by {
        assert("cookies"@.len() == 7);
        assert("headersSize"@.len() == 11);
    }
    assert("cookies"@ != "bodySize"@) by {
        assert("cookies"@.len() == 7);
        assert("bodySize"@.len() == 8);
    }
    assert("cookies"@ != "comment"@) by {
        assert("cookies"@[2] == 'o');
        assert("comment"@[2] == 'm');
    }
    assert("headers"@ != "content"@) by {
        assert("headers"@[0] == 'h');
        assert("content"@[0] == 'c');
    }
    assert("headers"@ != "redirectURL"@) by {
        assert("headers"@.len() == 7);
        assert("redirectURL"@.len() == 11);
    }
    assert("headers"@ != "headersSize"@) by {
        assert("headers"@.len() == 7);
        assert("headersSize"@.len() == 11);
    }
    assert("headers"@ != "bodySize"@) by {
        assert("headers"@.len() == 7);
        assert("bodySize"@.len() == 8);
    }
    assert("headers"@ != "comment"@) by {
        assert("headers"@[0] == 'h');
        assert("comment"@[0] == 'c');
    }
    assert("content"@ != "redirectURL"@) by {
        assert("content"@.len() == 7);
        assert("redirectURL"@.len() == 11);
    }
    assert("content"@ != "headersSize"@) by {
        assert("content"@.len() == 7);
        assert("headersSize"@.len() == 11);
    }
    assert("content"@ != "bodySize"@) by {
        assert("content"@.len() == 7);
        assert("bodySize"@.len() == 8);
    }
    assert("content"@ != "comment"@) by {
        assert("content"@[2] == 'n');
        assert("comment"@[2] == 'm');
    }
    assert("redirectURL"@ != "headersSize"@) by {
        assert("redirectURL"@[0] == 'r');
        assert("headersSize"@[0] == 'h');
    }
    assert("redirectURL"@ != "bodySize"@) by {
        assert("redirectURL"@.len() == 11);
        assert("bodySize"@.len() == 8);
    }
    assert("redirectURL"@ != "comment"@) by {
        assert("redirectURL"@.len() == 11);
        assert("comment"@.len() == 7);
    }
    assert("headersSize"@ != "bodySize"@) by {
        assert("headersSize"@.len() == 11);
        assert("bodySize"@.len() == 8);
    }
    assert("headersSize"@ != "comment"@) by {
        assert("headersSize"@.len() == 11);
        assert("comment"@.len() == 7);
    }
    assert("bodySize"@ != "comment"@) by {
        assert("bodySize"@.len() == 8);
        assert("comment"@.len() == 7);
    }
    lemma_cookies_round_trip(x.cookies);
    lemma_headers_round_trip(x.headers);
    lemma_content_round_trip(x.content);
    assert(spec_dec_response(spec_enc_response(x)) =~~= Ok::<ResponseV, DecodeErrorV>(x));
}

/// Round trip: decoding an encoded value gives it back.
pub proof fn lemma_cache_entry_round_trip(x: CacheEntryV)
    ensures
        spec_dec_cache_entry(spec_enc_cache_entry(x)) == Ok::<CacheEntryV, DecodeErrorV>(x),
{
    reveal_strlit("expires");
    reveal_strlit("lastAccess");
    reveal_strlit("eTag");
    reveal_strlit("hitCount");
    reveal_strlit("comment");
    assert("expires"@ != "lastAccess"@) by {
        assert("expires"@.len() == 7);
        assert("lastAccess"@.len() == 10);
    }
    assert("expires"@ != "eTag"@) by {
        assert("expires"@.len() == 7);
        assert("eTag"@.len() == 4);
    }
    assert("expires"@ != "hitCount"@) by {
        assert("expires"@.len() == 7);
        assert("hitCount"@.len() == 8);
    }
    assert("expires"@ != "comment"@) by {
        assert("expires"@[0] == 'e');
        assert("comment"@[0] == 'c');
    }
    assert("lastAccess"@ != "eTag"@) by {
        assert("lastAccess"@.len() == 10);
        assert("eTag"@.len() == 4);
    }
    assert("lastAccess"@ != "hitCount"@) by {
        assert("lastAccess"@.len() == 10);
        assert("hitCount"@.len() == 8);
    }
    assert("lastAccess"@ != "comment"@) by {
        assert("lastAccess"@.len() == 10);
        assert("comment"@.len() == 7);
    }
    assert("eTag"@ != "hitCount"@) by {
        assert("eTag"@.len() == 4);
        assert("hitCount"@.len() == 8);
    }
    assert("eTag"@ != "comment"@) by {
        assert("eTag"@.len() == 4);
        assert("comment"@.len() == 7);
    }
    assert("hitCount"@ != "comment"@) by {
        assert("hitCount"@.len() == 8);
        assert("comment"@.len() == 7);
    }
    assert(spec_dec_cache_entry(spec_enc_cache_entry(x)) =~~= Ok::<CacheEntryV, DecodeErrorV>(x));
}

/// Round trip: decoding an encoded value gives it back.
pub proof fn lemma_cache_round_trip(x: CacheV)
    ensures
        spec_dec_cache(spec_enc_cache(x)) == Ok::<CacheV, DecodeErrorV>(x),
{
    reveal_strlit("beforeRequest");
    reveal_strlit("afterRequest");
    reveal_strlit("comment");
    assert("beforeRequest"@ != "afterRequest"@) by {
        assert("beforeRequest"@.len() == 13);
        assert("afterRequest"@.len() == 12);
    }
    assert("beforeRequest"@ != "comment"@) by {
        assert("beforeRequest"@.len() == 13);
        assert("comment"@.len() == 7);
    }
    assert("afterRequest"@ != "comment"@) by {
        assert("afterRequest"@.len() == 12);
        assert("comment"@.len() == 7);
    }
    match x.before_request {
        CacheStateV::Present(e) => lemma_cache_entry_round_trip(e),
        _ => {},
    }
    match x.after_request {
        CacheStateV::Present(e) => lemma_cache_entry_round_trip(e),
        _ => {},
    }
    assert(spec_dec_cache(spec_enc_cache(x)) =~~= Ok::<CacheV, DecodeErrorV>(x));
}

/// Round trip: decoding an encoded value gives it back.
pub proof fn lemma_timing_round_trip(x: TimingV)
    ensures
        spec_dec_timing(spec_enc_timing(x)) == Ok::<TimingV, DecodeErrorV>(x),
{
    reveal_strlit("blocked");
    reveal_strlit("dns");
    reveal_strlit("connect");
    reveal_strlit("send");
    reveal_strlit("wait");
    reveal_strlit("receive");
    reveal_strlit("ssl");
    reveal_strlit("comment");
    assert("blocked"@ != "dns"@) by {
        assert("blocked"@.len() == 7);
        assert("dns"@.len() == 3);
    }
    assert("blocked"@ != "connect"@) by {
        assert("blocked"@[0] == 'b');
        assert("connect"@[0] == 'c');
    }
    assert("blocked"@ != "send"@) by {
        assert("blocked"@.len() == 7);
        assert("send"@.len() == 4);
    }
    assert("blocked"@ != "wait"@) by {
        assert("blocked"@.len() == 7);
        assert("wait"@.len() == 4);
    }
    assert("blocked"@ != "receive"@) by {
        assert("blocked"@[0] == 'b');
        assert("receive"@[0] == 'r');
    }
    assert("blocked"@ != "ssl"@) by {
        assert("blocked"@.len() == 7);
        assert("ssl"@.len() == 3);
    }
    assert("blocked"@ != "comment"@) by {
        assert("blocked"@[0] == 'b');
        assert("comment"@[0] == 'c');
    }
    assert("dns"@ != "connect"@) by {
        assert("dns"@.len() == 3);
        assert("connect"@.len() == 7);
    }
    assert("dns"@ != "send"@) by {
        assert("dns"@.len() == 3);
        assert("send"@.len() == 4);
    }
    assert("dns"@ != "wait"@) by {
        assert("dns"@.len() == 3);
        assert("wait"@.len() == 4);
    }
    assert("dns"@ != "receive"@) by {
        assert("dns"@.len() == 3);
        assert("receive"@.len() == 7);
    }
    assert("dns"@ != "ssl"@) by {
        assert("dns"@[0] == 'd');
        assert("ssl"@[0] == 's');
    }
    assert("dns"@ != "comment"@) by {
        assert("dns"@.len() == 3);
        assert("comment"@.len() == 7);
    }
    assert("connect"@ != "send"@) by {
        assert("connect"@.len() == 7);
        assert("send"@.len() == 4);
    }
    assert("connect"@ != "wait"@) by {
        assert("connect"@.len() == 7);
        assert("wait"@.len() == 4);
    }
    assert("connect"@ != "receive"@) by {
        assert("connect"@[0] == 'c');
        assert("receive"@[0] == 'r');
    }
    assert("connect"@ != "ssl"@) by {
        assert("connect"@.len() == 7);
        assert("ssl"@.len() == 3);
    }
    assert("connect"@ != "comment"@) by {
        assert("connect"@[2] == 'n');
        assert("comment"@[2] == 'm');
    }
    assert("send"@ != "wait"@) by {
        assert("send"@[0] == 's');
        assert("wait"@[0] == 'w');
    }
    assert("send"@ != "receive"@) by {
        assert("send"@.len() == 4);
        assert("receive"@.len() == 7);
    }
    assert("send"@ != "ssl"@) by {
        assert("send"@.len() == 4);
        assert("ssl"@.len() == 3);
    }
    assert("send"@ != "comment"@) by {
        assert("send"@.len() == 4);
        assert("comment"@.len() == 7);
    }
    assert("wait"@ != "receive"@) by {
        assert("wait"@.len() == 4);
        assert("receive"@.len() == 7);
    }
    assert("wait"@ != "ssl"@) by {
        assert("wait"@.len() == 4);
        assert("ssl"@.len() == 3);
    }
    assert("wait"@ != "comment"@) by {
        assert("wait"@.len() == 4);
        assert("comment"@.len() == 7);
    }
    assert("receive"@ != "ssl"@) by {
        assert("receive"@.len() == 7);
        assert("ssl"@.len() == 3);
    }
    assert("receive"@ != "comment"@) by {
        assert("receive"@[0] == 'r');
        assert("comment"@[0] == 'c');
    }
    assert("ssl"@ != "comment"@) by {
        assert("ssl"@.len() == 3);
        assert("comment"@.len() == 7);
    }
    assert(spec_dec_timing(spec_enc_timing(x)) =~~= Ok::<TimingV, DecodeErrorV>(x));
}

/// Round trip: decoding an encoded value gives it back.
pub proof fn lemma_page_timings_round_trip(x: PageTimingsV)
    ensures
        spec_dec_page_timings(spec_enc_page_timings(x)) == Ok::<PageTimingsV, DecodeErrorV>(x),
{
    reveal_strlit("onContentLoad");
    reveal_strlit("onLoad");
    reveal_strlit("comment");
    assert("onContentLoad"@ != "onLoad"@) by {
        assert("onContentLoad"@.len() == 13);
        assert("onLoad"@.len() == 6);
    }
    assert("onContentLoad"@ != "comment"@) by {
        assert("onContentLoad"@.len() == 13);
        assert("comment"@.len() == 7);
    }
    assert("onLoad"@ != "comment"@) by {
        assert("onLoad"@.len() == 6);
        assert("comment"@.len() == 7);
    }
    assert(spec_dec_page_timings(spec_enc_page_timings(x)) =~~= Ok::<PageTimingsV, DecodeErrorV>(x));
}

/// Round trip: decoding an encoded value gives it back.
pub proof fn lemma_page_round_trip(x: PageV)
    ensures
        spec_dec_page(spec_enc_page(x)) == Ok::<PageV, DecodeErrorV>(x),
{
    reveal_strlit("startedDateTime");
    reveal_strlit("id");
    reveal_strlit("title");
    reveal_strlit("pageTimings");
    reveal_strlit("comment");
    assert("startedDateTime"@ != "id"@) by {
        assert("startedDateTime"@.len() == 15);
        assert("id"@.len() == 2);
    }
    assert("startedDateTime"@ != "title"@) by {
        assert("startedDateTime"@.len() == 15);
        assert("title"@.len() == 5);
    }
    assert("startedDateTime"@ != "pageTimings"@) by {
        assert("startedDateTime"@.len() == 15);
        assert("pageTimings"@.len() == 11);
    }
    assert("startedDateTime"@ != "comment"@) by {
        assert("startedDateTime"@.len() == 15);
        assert("comment"@.len() == 7);
    }
    assert("id"@ != "title"@) by {
        assert("id"@.len() == 2);
        assert("title"@.len() == 5);
    }
    assert("id"@ != "pageTimings"@) by {
        assert("id"@.len() == 2);
        assert("pageTimings"@.len() == 11);
    }
    assert("id"@ != "comment"@) by {
        assert("id"@.len() == 2);
        assert("comment"@.len() == 7);
    }
    assert("title"@ != "pageTimings"@) by {
        assert("title"@.len() == 5);
        assert("pageTimings"@.len() == 11);
    }
    assert("title"@ != "comment"@) by {
        assert("title"@.len() == 5);
        assert("comment"@.len() == 7);
    }
    assert("pageTimings"@ != "comment"@) by {
        assert("pageTimings"@.len() == 11);
        assert("comment"@.len() == 7);
    }
    lemma_page_timings_round_trip(x.page_timings);
    assert(spec_dec_page(spec_enc_page(x)) =~~= Ok::<PageV, DecodeErrorV>(x));
}

/// Round trip over a whole sequence of elements.
pub proof fn lemma_pages_round_trip(s: Seq<PageV>)
    ensures
        spec_dec_pages(s.map_values(|x: PageV| spec_enc_page(x))) == Ok::<Seq<PageV>, DecodeErrorV>(s),
    decreases s.len(),
{
    let m = s.map_values(|x: PageV| spec_enc_page(x));
    if s.len() == 0 {
        assert(m.len() == 0);
        assert(s =~= Seq::<PageV>::empty());
    } else {
        lemma_page_round_trip(s[0]);
        lemma_pages_round_trip(s.drop_first());
        assert(m.drop_first() =~= s.drop_first().map_values(|x: PageV| spec_enc_page(x)));
        assert(m[0] == spec_enc_page(s[0]));
        assert(seq![s[0]] + s.drop_first() =~= s);
    }
}

/// Round trip: decoding an encoded value gives it back.
#[verifier::rlimit(100)]
pub proof fn lemma_entry_round_trip(x: EntryV)
    requires
        wf_entry(x),
    ensures
        spec_dec_entry(spec_enc_entry(x)) == Ok::<EntryV, DecodeErrorV>(x),
{
    reveal_strlit("pageref");
    reveal_strlit("startedDateTime");
    reveal_strlit("request");
    reveal_strlit("response");
    reveal_strlit("cache");
    reveal_strlit("timings");
    reveal_strlit("serverIPAddress");
    reveal_strlit("connection");
    reveal_strlit("comment");
    assert("pageref"@ != "startedDateTime"@) by {
        assert("pageref"@.len() == 7);
        assert("startedDateTime"@.len() == 15);
    }
    assert("pageref"@ != "request"@) by {
        assert("pageref"@[0] == 'p');
        assert("request"@[0] == 'r');
    }
    assert("pageref"@ != "response"@) by {
        assert("pageref"@.len() == 7);
        assert("response"@.len() == 8);
    }
    assert("pageref"@ != "cache"@) by {
        assert("pageref"@.len() == 7);
        assert("cache"@.len() == 5);
    }
    assert("pageref"@ != "timings"@) by {
        assert("pageref"@[0] == 'p');
        assert("timings"@[0] == 't');
    }
    assert("pageref"@ != "serverIPAddress"@) by {
        assert("pageref"@.len() == 7);
        assert("serverIPAddress"@.len() == 15);
    }
    assert("pageref"@ != "connection"@) by {
        assert("pageref"@.len() == 7);
        assert("connection"@.len() == 10);
    }
    assert("pageref"@ != "comment"@) by {
        assert("pageref"@[0] == 'p');
        assert("comment"@[0] == 'c');
    }
    assert("startedDateTime"@ != "request"@) by {
        assert("startedDateTime"@.len() == 15);
        assert("request"@.len() == 7);
    }
    assert("startedDateTime"@ != "response"@) by {
        assert("startedDateTime"@.len() == 15);
        assert("response"@.len() == 8);
    }
    assert("startedDateTime"@ != "cache"@) by {
        assert("startedDateTime"@.len() == 15);
        assert("cache"@.len() == 5);
    }
    assert("startedDateTime"@ != "timings"@) by {
        assert("startedDateTime"@.len() == 15);
        assert("timings"@.len() == 7);
    }
    assert("startedDateTime"@ != "serverIPAddress"@) by {
        assert("startedDateTime"@[1] == 't');
        assert("serverIPAddress"@[1] == 'e');
    }
    assert("startedDateTime"@ != "connection"@) by {
        assert("startedDateTime"@.len() == 15);
        assert("connection"@.len() == 10);
    }
    assert("startedDateTime"@ != "comment"@) by {
        assert("startedDateTime"@.len() == 15);
        assert("comment"@.len() == 7);
    }
    assert("request"@ != "response"@) by {
        assert("request"@.len() == 7);
        assert("response"@.len() == 8);
    }
    assert("request"@ != "cache"@) by {
        assert("request"@.len() == 7);
        assert("cache"@.len() == 5);
    }
    assert("request"@ != "timings"@) by {
        assert("request"@[0] == 'r');
        assert("timings"@[0] == 't');
    }
    assert("request"@ != "serverIPAddress"@) by {
        assert("request"@.len() == 7);
        assert("serverIPAddress"@.len() == 15);
    }
    assert("request"@ != "connection"@) by {
        assert("request"@.len() == 7);
        assert("connection"@.len() == 10);
    }
    assert("request"@ != "comment"@) by {
        assert("request"@[0] == 'r');
        assert("comment"@[0] == 'c');
    }
    assert("response"@ != "cache"@) by {
        assert("response"@.len() == 8);
        assert("cache"@.len() == 5);
    }
    assert("response"@ != "timings"@) by {
        assert("response"@.len() == 8);
        assert("timings"@.len() == 7);
    }
    assert("response"@ != "serverIPAddress"@) by {
        assert("response"@.len() == 8);
        assert("serverIPAddress"@.len() == 15);
    }
    assert("response"@ != "connection"@) by {
        assert("response"@.len() == 8);
        assert("connection"@.len() == 10);
    }
    assert("response"@ != "comment"@) by {
        assert("response"@.len() == 8);
        assert("comment"@.len() == 7);
    }
    assert("cache"@ != "timings"@) by {
        assert("cache"@.len() == 5);
        assert("timings"@.len() == 7);
    }
    assert("cache"@ != "serverIPAddress"@) by {
        assert("cache"@.len() == 5);
        assert("serverIPAddress"@.len() == 15);
    }
    assert("cache"@ != "connection"@) by {
        assert("cache"@.len() == 5);
        assert("connection"@.len() == 10);
    }
    assert("cache"@ != "comment"@) by {
        assert("cache"@.len() == 5);
        assert("comment"@.len() == 7);
    }
    assert("timings"@ != "serverIPAddress"@) by {
        assert("timings"@.len() == 7);
        assert("serverIPAddress"@.len() == 15);
    }
    assert("timings"@ != "connection"@) by {
        assert("timings"@.len() == 7);
        assert("connection"@.len() == 10);
    }
    assert("timings"@ != "comment"@) by {
        assert("timings"@[0] == 't');
        assert("comment"@[0] == 'c');
    }
    assert("serverIPAddress"@ != "connection"@) by {
        assert("serverIPAddress"@.len() == 15);
        assert("connection"@.len() == 10);
    }
    assert("serverIPAddress"@ != "comment"@) by {
        assert("serverIPAddress"@.len() == 15);
        assert("comment"@.len() == 7);
    }
    assert("connection"@ != "comment"@) by {
        assert("connection"@.len() == 10);
        assert("comment"@.len() == 7);
    }
    lemma_request_round_trip(x.request);
    lemma_response_round_trip(x.response);
    lemma_cache_round_trip(x.cache);
    lemma_timing_round_trip(x.timings);
    let o = spec_enc_entry(x)->Obj_0;
    assert(obj_get(o, "pageref"@) == opt_str_v(x.pageref));
    assert(obj_get(o, "startedDateTime"@) == Some(JsonV::Str(x.started_date_time)));
    assert(obj_get(o, "request"@) == Some(spec_enc_request(x.request)));
    assert(obj_get(o, "response"@) == Some(spec_enc_response(x.response)));
    assert(obj_get(o, "cache"@) == Some(spec_enc_cache(x.cache)));
    assert(obj_get(o, "timings"@) == Some(spec_enc_timing(x.timings)));
    assert(obj_get(o, "serverIPAddress"@) == opt_str_v(x.server_ip_address));
    assert(obj_get(o, "connection"@) == opt_str_v(x.connection));
    assert(obj_get(o, "comment"@) == opt_str_v(x.comment));
    assert(dec_opt_str(o, "entry"@, "pageref"@) == Ok::<Option<Seq<char>>, DecodeErrorV>(
        x.pageref,
    ));
    assert(dec_req_str(o, "entry"@, "startedDateTime"@) == Ok::<Seq<char>, DecodeErrorV>(
        x.started_date_time,
    ));
    assert(dec_opt_str(o, "entry"@, "serverIPAddress"@) == Ok::<Option<Seq<char>>, DecodeErrorV>(
        x.server_ip_address,
    ));
    assert(dec_opt_str(o, "entry"@, "connection"@) == Ok::<Option<Seq<char>>, DecodeErrorV>(
        x.connection,
    ));
    assert(dec_opt_str(o, "entry"@, "comment"@) == Ok::<Option<Seq<char>>, DecodeErrorV>(
        x.comment,
    ));
    assert(spec_dec_entry(spec_enc_entry(x)) =~~= Ok::<EntryV, DecodeErrorV>(x));
}

/// Round trip over a whole sequence of elements.
#[verifier::rlimit(100)]
#[verifier::spinoff_prover]
pub proof fn lemma_entries_round_trip(s: Seq<EntryV>)
    requires
        forall|i: int| 0 <= i < s.len() ==> wf_entry(#[trigger] s[i]),
    ensures
        spec_dec_entries(s.map_values(|x: EntryV| spec_enc_entry(x))) == Ok::<Seq<EntryV>, DecodeErrorV>(s),
    decreases s.len(),
{
    let m = s.map_values(|x: EntryV| spec_enc_entry(x));
    if s.len() == 0 {
        assert(m.len() == 0);
        assert(s =~= Seq::<EntryV>::empty());
    } else {
        lemma_entry_round_trip(s[0]);
        assert forall|i: int| 0 <= i < s.drop_first().len() implies wf_entry(#[trigger] s.drop_first()[i]) by {
            assert(s.drop_first()[i] == s[i + 1]);
        }
        lemma_entries_round_trip(s.drop_first());
        assert(m.drop_first() =~= s.drop_first().map_values(|x: EntryV| spec_enc_entry(x)));
        assert(m[0] == spec_enc_entry(s[0]));
        assert(seq![s[0]] + s.drop_first() =~= s);
    }
}

/// Round trip: decoding an encoded value gives it back.
#[verifier::rlimit(100)]
pub proof fn lemma_log_round_trip(x: LogV)
    requires
        wf_log(x),
    ensures
        spec_dec_log(spec_enc_log(x)) == Ok::<LogV, DecodeErrorV>(x),
{
    reveal_strlit("version");
    reveal_strlit("creator");
    reveal_strlit("browser");
    reveal_strlit("pages");
    reveal_strlit("entries");
    reveal_strlit("comment");
    assert("version"@ != "creator"@) by {
        assert("version"@[0] == 'v');
        assert("creator"@[0] == 'c');
    }
    assert("version"@ != "browser"@) by {
        assert("version"@[0] == 'v');
        assert("browser"@[0] == 'b');
    }
    assert("version"@ != "pages"@) by {
        assert("version"@.len() == 7);
        assert("pages"@.len() == 5);
    }
    assert("version"@ != "entries"@) by {
        assert("version"@[0] == 'v');
        assert("entries"@[0] == 'e');
    }
    assert("version"@ != "comment"@) by {
        assert("version"@[0] == 'v');
        assert("comment"@[0] == 'c');
    }
    assert("creator"@ != "browser"@) by {
        assert("creator"@[0] == 'c');
        assert("browser"@[0] == 'b');
    }
    assert("creator"@ != "pages"@) by {
        assert("creator"@.len() == 7);
        assert("pages"@.len() == 5);
    }
    assert("creator"@ != "entries"@) by {
        assert("creator"@[0] == 'c');
        assert("entries"@[0] == 'e');
    }
    assert("creator"@ != "comment"@) by {
        assert("creator"@[1] == 'r');
        assert("comment"@[1] == 'o');
    }
    assert("browser"@ != "pages"@) by {
        assert("browser"@.len() == 7);
        assert("pages"@.len() == 5);
    }
    assert("browser"@ != "entries"@) by {
        assert("browser"@[0] == 'b');
        assert("entries"@[0] == 'e');
    }
    assert("browser"@ != "comment"@) by {
        assert("browser"@[0] == 'b');
        assert("comment"@[0] == 'c');
    }
    assert("pages"@ != "entries"@) by {
        assert("pages"@.len() == 5);
        assert("entries"@.len() == 7);
    }
    assert("pages"@ != "comment"@) by {
        assert("pages"@.len() == 5);
        assert("comment"@.len() == 7);
    }
    assert("entries"@ != "comment"@) by {
        assert("entries"@[0] == 'e');
        assert("comment"@[0] == 'c');
    }
    lemma_creator_round_trip(x.creator);
    match x.browser {
        Some(b) => lemma_browser_round_trip(b),
        None => {},
    }
    match x.pages {
        Some(ps) => lemma_pages_round_trip(ps),
        None => {},
    }
    lemma_entries_round_trip(x.entries);
    assert(spec_dec_log(spec_enc_log(x)) =~~= Ok::<LogV, DecodeErrorV>(x));
}

/// Always-present sequences: an encoded request carries its `cookies`,
/// `headers` and `queryString` keys whatever the lists hold; when a list is
/// empty the member is the empty array, never an omitted key.
pub proof fn lemma_request_sequences_always_present(r: RequestV)
    ensures
        obj_has(spec_enc_request(r)->Obj_0, "cookies"@),
        obj_has(spec_enc_request(r)->Obj_0, "headers"@),
        obj_has(spec_enc_request(r)->Obj_0, "queryString"@),
        r.cookies.len() == 0 ==> obj_get(spec_enc_request(r)->Obj_0, "cookies"@) == Some(
            JsonV::Arr(Seq::<JsonV>::empty()),
        ),
        r.headers.len() == 0 ==> obj_get(spec_enc_request(r)->Obj_0, "headers"@) == Some(
            JsonV::Arr(Seq::<JsonV>::empty()),
        ),
        r.query_string.len() == 0 ==> obj_get(spec_enc_request(r)->Obj_0, "queryString"@) == Some(
            JsonV::Arr(Seq::<JsonV>::empty()),
        ),
{
    reveal_strlit("method");
    reveal_strlit("url");
    reveal_strlit("httpVersion");
    reveal_strlit("cookies");
    reveal_strlit("headers");
    reveal_strlit("queryString");
    reveal_strlit("postData");
    reveal_strlit("headersSize");
    reveal_strlit("bodySize");
    reveal_strlit("comment");
    assert("method"@ != "url"@) by {
        assert("method"@.len() == 6);
        assert("url"@.len() == 3);
    }
    assert("method"@ != "httpVersion"@) by {
        assert("method"@.len() == 6);
        assert("httpVersion"@.len() == 11);
    }
    assert("method"@ != "cookies"@) by {
        assert("method"@.len() == 6);
        assert("cookies"@.len() == 7);
    }
    assert("method"@ != "headers"@) by {
        assert("method"@.len() == 6);
        assert("headers"@.len() == 7);
    }
    assert("method"@ != "queryString"@) by {
        assert("method"@.len() == 6);
        assert("queryString"@.len() == 11);
    }
    assert("method"@ != "postData"@) by {
        assert("method"@.len() == 6);
        assert("postData"@.len() == 8);
    }
    assert("method"@ != "headersSize"@) by {
        assert("method"@.len() == 6);
        assert("headersSize"@.len() == 11);
    }
    assert("method"@ != "bodySize"@) by {
        assert("method"@.len() == 6);
        assert("bodySize"@.len() == 8);
    }
    assert("method"@ != "comment"@) by {
        assert("method"@.len() == 6);
        assert("comment"@.len() == 7);
    }
    assert("url"@ != "httpVersion"@) by {
        assert("url"@.len() == 3);
        assert("httpVersion"@.len() == 11);
    }
    assert("url"@ != "cookies"@) by {
        assert("url"@.len() == 3);
        assert("cookies"@.len() == 7);
    }
    assert("url"@ != "headers"@) by {
        assert("url"@.len() == 3);
        assert("headers"@.len() == 7);
    }
    assert("url"@ != "queryString"@) by {
        assert("url"@.len() == 3);
        assert("queryString"@.len() == 11);
    }
    assert("url"@ != "postData"@) by {
        assert("url"@.len() == 3);
        assert("postData"@.len() == 8);
    }
    assert("url"@ != "headersSize"@) by {
        assert("url"@.len() == 3);
        assert("headersSize"@.len() == 11);
    }
    assert("url"@ != "bodySize"@) by {
        assert("url"@.len() == 3);
        assert("bodySize"@.len() == 8);
    }
    assert("url"@ != "comment"@) by {
        assert("url"@.len() == 3);
        assert("comment"@.len() == 7);
    }
    assert("httpVersion"@ != "cookies"@) by {
        assert("httpVersion"@.len() == 11);
        assert("cookies"@.len() == 7);
    }
    assert("httpVersion"@ != "headers"@) by {
        assert("httpVersion"@.len() == 11);
        assert("headers"@.len() == 7);
    }
    assert("httpVersion"@ != "queryString"@) by {
        assert("httpVersion"@[0] == 'h');
        assert("queryString"@[0] == 'q');
    }
    assert("httpVersion"@ != "postData"@) by {
        assert("httpVersion"@.len() == 11);
        assert("postData"@.len() == 8);
    }
    assert("httpVersion"@ != "headersSize"@) by {
        assert("httpVersion"@[1] == 't');
        assert("headersSize"@[1] == 'e');
    }
    assert("httpVersion"@ != "bodySize"@) by {
        assert("httpVersion"@.len() == 11);
        assert("bodySize"@.len() == 8);
    }
    assert("httpVersion"@ != "comment"@) by {
        assert("httpVersion"@.len() == 11);
        assert("comment"@.len() == 7);
    }
    assert("cookies"@ != "headers"@) by {
        assert("cookies"@[0] == 'c');
        assert("headers"@[0] == 'h');
    }
    assert("cookies"@ != "queryString"@) by {
        assert("cookies"@.len() == 7);
        assert("queryString"@.len() == 11);
    }
    assert("cookies"@ != "postData"@) by {
        assert("cookies"@.len() == 7);
        assert("postData"@.len() == 8);
    }
    assert("cookies"@ != "headersSize"@) by {
        assert("cookies"@.len() == 7);
        assert("headersSize"@.len() == 11);
    }
    assert("cookies"@ != "bodySize"@) by {
        assert("cookies"@.len() == 7);
        assert("bodySize"@.len() == 8);
    }
    assert("cookies"@ != "comment"@) by {
        assert("cookies"@[2] == 'o');
        assert("comment"@[2] == 'm');
    }
    assert("headers"@ != "queryString"@) by {
        assert("headers"@.len() == 7);
        assert("queryString"@.len() == 11);
    }
    assert("headers"@ != "postData"@) by {
        assert("headers"@.len() == 7);
        assert("postData"@.len() == 8);
    }
    assert("headers"@ != "headersSize"@) by {
        assert("headers"@.len() == 7);
        assert("headersSize"@.len() == 11);
    }
    assert("headers"@ != "bodySize"@) by {
        assert("headers"@.len() == 7);
        assert("bodySize"@.len() == 8);
    }
    assert("headers"@ != "comment"@) by {
        assert("headers"@[0] == 'h');
        assert("comment"@[0] == 'c');
    }
    assert("queryString"@ != "postData"@) by {
        assert("queryString"@.len() == 11);
        assert("postData"@.len() == 8);
    }
    assert("queryString"@ != "headersSize"@) by {
        assert("queryString"@[0] == 'q');
        assert("headersSize"@[0] == 'h');
    }
    assert("queryString"@ != "bodySize"@) by {
        assert("queryString"@.len() == 11);
        assert("bodySize"@.len() == 8);
    }
    assert("queryString"@ != "comment"@) by {
        assert("queryString"@.len() == 11);
        assert("comment"@.len() == 7);
    }
    assert("postData"@ != "headersSize"@) by {
        assert("postData"@.len() == 8);
        assert("headersSize"@.len() == 11);
    }
    assert("postData"@ != "bodySize"@) by {
        assert("postData"@[0] == 'p');
        assert("bodySize"@[0] == 'b');
    }
    assert("postData"@ != "comment"@) by {
        assert("postData"@.len() == 8);
        assert("comment"@.len() == 7);
    }
    assert("headersSize"@ != "bodySize"@) by {
        assert("headersSize"@.len() == 11);
        assert("bodySize"@.len() == 8);
    }
    assert("headersSize"@ != "comment"@) by {
        assert("headersSize"@.len() == 11);
        assert("comment"@.len() == 7);
    }
    assert("bodySize"@ != "comment"@) by {
        assert("bodySize"@.len() == 8);
        assert("comment"@.len() == 7);
    }
    if r.cookies.len() == 0 {
        assert(r.cookies.map_values(|x: CookieV| spec_enc_cookie(x)) =~= Seq::<JsonV>::empty());
    }
    if r.headers.len() == 0 {
        assert(r.headers.map_values(|x: HeaderV| spec_enc_header(x)) =~= Seq::<JsonV>::empty());
    }
    if r.query_string.len() == 0 {
        assert(r.query_string.map_values(|x: QueryStringPairV| spec_enc_query_string_pair(x))
            =~= Seq::<JsonV>::empty());
    }
}

/// Always-present sequences: an encoded response carries its `cookies` and
/// `headers` keys whatever the lists hold; when a list is empty the member
/// is the empty array, never an omitted key.
pub proof fn lemma_response_sequences_always_present(r: ResponseV)
    ensures
        obj_has(spec_enc_response(r)->Obj_0, "cookies"@),
        obj_has(spec_enc_response(r)->Obj_0, "headers"@),
        r.cookies.len() == 0 ==> obj_get(spec_enc_response(r)->Obj_0, "cookies"@) == Some(
            JsonV::Arr(Seq::<JsonV>::empty()),
        ),
        r.headers.len() == 0 ==> obj_get(spec_enc_response(r)->Obj_0, "headers"@) == Some(
            JsonV::Arr(Seq::<JsonV>::empty()),
        ),
{
    reveal_strlit("status");
    reveal_strlit("statusText");
    reveal_strlit("httpVersion");
    reveal_strlit("cookies");
    reveal_strlit("headers");
    reveal_strlit("content");
    reveal_strlit("redirectURL");
    reveal_strlit("headersSize");
    reveal_strlit("bodySize");
    reveal_strlit("comment");
    assert("status"@ != "statusText"@) by {
        assert("status"@.len() == 6);
        assert("statusText"@.len() == 10);
    }
    assert("status"@ != "httpVersion"@) by {
        assert("status"@.len() == 6);
        assert("httpVersion"@.len() == 11);
    }
    assert("status"@ != "cookies"@) by {
        assert("status"@.len() == 6);
        assert("cookies"@.len() == 7);
    }
    assert("status"@ != "headers"@) by {
        assert("status"@.len() == 6);
        assert("headers"@.len() == 7);
    }
    assert("status"@ != "content"@) by {
        assert("status"@.len() == 6);
        assert("content"@.len() == 7);
    }
    assert("status"@ != "redirectURL"@) by {
        assert("status"@.len() == 6);
        assert("redirectURL"@.len() == 11);
    }
    assert("status"@ != "headersSize"@) by {
        assert("status"@.len() == 6);
        assert("headersSize"@.len() == 11);
    }
    assert("status"@ != "bodySize"@) by {
        assert("status"@.len() == 6);
        assert("bodySize"@.len() == 8);
    }
    assert("status"@ != "comment"@) by {
        assert("status"@.len() == 6);
        assert("comment"@.len() == 7);
    }
    assert("statusText"@ != "httpVersion"@) by {
        assert("statusText"@.len() == 10);
        assert("httpVersion"@.len() == 11);
    }
    assert("statusText"@ != "cookies"@) by {
        assert("statusText"@.len() == 10);
        assert("cookies"@.len() == 7);
    }
    assert("statusText"@ != "headers"@) by {
        assert("statusText"@.len() == 10);
        assert("headers"@.len() == 7);
    }
    assert("statusText"@ != "content"@) by {
        assert("statusText"@.len() == 10);
        assert("content"@.len() == 7);
    }
    assert("statusText"@ != "redirectURL"@) by {
        assert("statusText"@.len() == 10);
        assert("redirectURL"@.len() == 11);
    }
    assert("statusText"@ != "headersSize"@) by {
        assert("statusText"@.len() == 10);
        assert("headersSize"@.len() == 11);
    }
    assert("statusText"@ != "bodySize"@) by {
        assert("statusText"@.len() == 10);
        assert("bodySize"@.len() == 8);
    }
    assert("statusText"@ != "comment"@) by {
        assert("statusText"@.len() == 10);
        assert("comment"@.len() == 7);
    }
    assert("httpVersion"@ != "cookies"@) by {
        assert("httpVersion"@.len() == 11);
        assert("cookies"@.len() == 7);
    }
    assert("httpVersion"@ != "headers"@) by {
        assert("httpVersion"@.len() == 11);
        assert("headers"@.len() == 7);
    }
    assert("httpVersion"@ != "content"@) by {
        assert("httpVersion"@.len() == 11);
        assert("content"@.len() == 7);
    }
    assert("httpVersion"@ != "redirectURL"@) by {
        assert("httpVersion"@[0] == 'h');
        assert("redirectURL"@[0] == 'r');
    }
    assert("httpVersion"@ != "headersSize"@) by {
        assert("httpVersion"@[1] == 't');
        assert("headersSize"@[1] == 'e');
    }
    assert("httpVersion"@ != "bodySize"@) by {
        assert("httpVersion"@.len() == 11);
        assert("bodySize"@.len() == 8);
    }
    assert("httpVersion"@ != "comment"@) by {
        assert("httpVersion"@.len() == 11);
        assert("comment"@.len() == 7);
    }
    assert("cookies"@ != "headers"@) by {
        assert("cookies"@[0] == 'c');
        assert("headers"@[0] == 'h');
    }
    assert("cookies"@ != "content"@) by {
        assert("cookies"@[2] == 'o');
        assert("content"@[2] == 'n');
    }
    assert("cookies"@ != "redirectURL"@) by {
        assert("cookies"@.len() == 7);
        assert("redirectURL"@.len() == 11);
    }
    assert("cookies"@ != "headersSize"@) by {
        assert("cookies"@.len() == 7);
        assert("headersSize"@.len() == 11);
    }
    assert("cookies"@ != "bodySize"@) by {
        assert("cookies"@.len() == 7);
        assert("bodySize"@.len() == 8);
    }
    assert("cookies"@ != "comment"@) by {
        assert("cookies"@[2] == 'o');
        assert("comment"@[2] == 'm');
    }
    assert("headers"@ != "content"@) by {
        assert("headers"@[0] == 'h');
        assert("content"@[0] == 'c');
    }
    assert("headers"@ != "redirectURL"@) by {
        assert("headers"@.len() == 7);
        assert("redirectURL"@.len() == 11);
    }
    assert("headers"@ != "headersSize"@) by {
        assert("headers"@.len() == 7);
        assert("headersSize"@.len() == 11);
    }
    assert("headers"@ != "bodySize"@) by {
        assert("headers"@.len() == 7);
        assert("bodySize"@.len() == 8);
    }
    assert("headers"@ != "comment"@) by {
        assert("headers"@[0] == 'h');
        assert("comment"@[0] == 'c');
    }
    assert("content"@ != "redirectURL"@) by {
        assert("content"@.len() == 7);
        assert("redirectURL"@.len() == 11);
    }
    assert("content"@ != "headersSize"@) by {
        assert("content"@.len() == 7);
        assert("headersSize"@.len() == 11);
    }
    assert("content"@ != "bodySize"@) by {
        assert("content"@.len() == 7);
        assert("bodySize"@.len() == 8);
    }
    assert("content"@ != "comment"@) by {
        assert("content"@[2] == 'n');
        assert("comment"@[2] == 'm');
    }
    assert("redirectURL"@ != "headersSize"@) by {
        assert("redirectURL"@[0] == 'r');
        assert("headersSize"@[0] == 'h');
    }
    assert("redirectURL"@ != "bodySize"@) by {
        assert("redirectURL"@.len() == 11);
        assert("bodySize"@.len() == 8);
    }
    assert("redirectURL"@ != "comment"@) by {
        assert("redirectURL"@.len() == 11);
        assert("comment"@.len() == 7);
    }
    assert("headersSize"@ != "bodySize"@) by {
        assert("headersSize"@.len() == 11);
        assert("bodySize"@.len() == 8);
    }
    assert("headersSize"@ != "comment"@) by {
        assert("headersSize"@.len() == 11);
        assert("comment"@.len() == 7);
    }
    assert("bodySize"@ != "comment"@) by {
        assert("bodySize"@.len() == 8);
        assert("comment"@.len() == 7);
    }
    if r.cookies.len() == 0 {
        assert(r.cookies.map_values(|x: CookieV| spec_enc_cookie(x)) =~= Seq::<JsonV>::empty());
    }
    if r.headers.len() == 0 {
        assert(r.headers.map_values(|x: HeaderV| spec_enc_header(x)) =~= Seq::<JsonV>::empty());
    }
}

/// The `pages` key of an encoded log: a log with no page list collected
/// encodes without the key, and one with a page list encodes it as an array
/// with one element per page, in order.
pub proof fn lemma_log_pages_key(l: LogV)
    ensures
        l.pages is None ==> !obj_has(spec_enc_log(l)->Obj_0, "pages"@),
        (match l.pages {
            Some(ps) => obj_get(spec_enc_log(l)->Obj_0, "pages"@) == Some(
                JsonV::Arr(ps.map_values(|x: PageV| spec_enc_page(x))),
            ),
            None => true,
        }),
{
    reveal_strlit("version");
    reveal_strlit("creator");
    reveal_strlit("browser");
    reveal_strlit("pages");
    reveal_strlit("entries");
    reveal_strlit("comment");
    assert("version"@ != "creator"@) by {
        assert("version"@[0] == 'v');
        assert("creator"@[0] == 'c');
    }
    assert("version"@ != "browser"@) by {
        assert("version"@[0] == 'v');
        assert("browser"@[0] == 'b');
    }
    assert("version"@ != "pages"@) by {
        assert("version"@.len() == 7);
        assert("pages"@.len() == 5);
    }
    assert("version"@ != "entries"@) by {
        assert("version"@[0] == 'v');
        assert("entries"@[0] == 'e');
    }
    assert("version"@ != "comment"@) by {
        assert("version"@[0] == 'v');
        assert("comment"@[0] == 'c');
    }
    assert("creator"@ != "browser"@) by {
        assert("creator"@[0] == 'c');
        assert("browser"@[0] == 'b');
    }
    assert("creator"@ != "pages"@) by {
        assert("creator"@.len() == 7);
        assert("pages"@.len() == 5);
    }
    assert("creator"@ != "entries"@) by {
        assert("creator"@[0] == 'c');
        assert("entries"@[0] == 'e');
    }
    assert("creator"@ != "comment"@) by {
        assert("creator"@[1] == 'r');
        assert("comment"@[1] == 'o');
    }
    assert("browser"@ != "pages"@) by {
        assert("browser"@.len() == 7);
        assert("pages"@.len() == 5);
    }
    assert("browser"@ != "entries"@) by {
        assert("browser"@[0] == 'b');
        assert("entries"@[0] == 'e');
    }
    assert("browser"@ != "comment"@) by {
        assert("browser"@[0] == 'b');
        assert("comment"@[0] == 'c');
    }
    assert("pages"@ != "entries"@) by {
        assert("pages"@.len() == 5);
        assert("entries"@.len() == 7);
    }
    assert("pages"@ != "comment"@) by {
        assert("pages"@.len() == 5);
        assert("comment"@.len() == 7);
    }
    assert("entries"@ != "comment"@) by {
        assert("entries"@[0] == 'e');
        assert("comment"@[0] == 'c');
    }
}

/// Unknown keys are ignored: a member under a key outside the log schema
/// has no effect on decoding.
pub proof fn lemma_log_unknown_key_ignored(o: Seq<(Seq<char>, JsonV)>, k: Seq<char>, v: JsonV)
    requires
        k != "version"@,
        k != "creator"@,
        k != "browser"@,
        k != "pages"@,
        k != "entries"@,
        k != "comment"@,
    ensures
        spec_dec_log(JsonV::Obj(o.push((k, v)))) == spec_dec_log(JsonV::Obj(o)),
{
    assert(o.push((k, v)) =~= o + fld(k, v));
    assert(obj_get(o + fld(k, v), "version"@) == obj_get(o, "version"@));
    assert(obj_get(o + fld(k, v), "creator"@) == obj_get(o, "creator"@));
    assert(obj_get(o + fld(k, v), "browser"@) == obj_get(o, "browser"@));
    assert(obj_get(o + fld(k, v), "pages"@) == obj_get(o, "pages"@));
    assert(obj_get(o + fld(k, v), "entries"@) == obj_get(o, "entries"@));
    assert(obj_get(o + fld(k, v), "comment"@) == obj_get(o, "comment"@));
    assert(spec_dec_log(JsonV::Obj(o.push((k, v)))) =~~= spec_dec_log(JsonV::Obj(o)));
}

/// The timing sentinel: a timing that does not apply encodes as exactly the
/// number `-1`, and on decode `-1` is exactly the not-applicable state,
/// `-2` and below are invalid, and any non-negative number is a duration.
pub proof fn lemma_timing_sentinel(o: Seq<(Seq<char>, JsonV)>, ent: Seq<char>, k: Seq<char>)
    ensures
        spec_enc_opt_timing(OptionalTiming::NotApplicable) == JsonV::Num(-1),
        obj_get(o, k) == Some(JsonV::Num(-1)) ==> dec_opt_timing(o, ent, k) == Ok::<
            OptionalTiming,
            DecodeErrorV,
        >(OptionalTiming::NotApplicable),
        (match obj_get(o, k) {
            Some(JsonV::Num(n)) => n < -1 ==> dec_opt_timing(o, ent, k) == Err::<
                OptionalTiming,
                DecodeErrorV,
            >(DecodeErrorV::InvalidTiming(ent, k)),
            _ => true,
        }),
        obj_get(o, k) == Some(JsonV::Num(0)) ==> dec_opt_timing(o, ent, k) == Ok::<
            OptionalTiming,
            DecodeErrorV,
        >(OptionalTiming::TimedContent(0)),
{
}

/// The three-way cache state: a missing key means unknown, an explicit
/// `null` means absent, and only those two; a present entry object means
/// present. Encoding inverts this exactly.
pub proof fn lemma_cache_state_three_ways(o: Seq<(Seq<char>, JsonV)>, ent: Seq<char>, k: Seq<char>)
    ensures
        obj_get(o, k) is None <==> dec_cache_state(o, ent, k) == Ok::<CacheStateV, DecodeErrorV>(
            CacheStateV::Unknown,
        ),
        obj_get(o, k) == Some(JsonV::Null) <==> dec_cache_state(o, ent, k) == Ok::<
            CacheStateV,
            DecodeErrorV,
        >(CacheStateV::Absent),
        spec_enc_cache_state(CacheStateV::Unknown) is None,
        spec_enc_cache_state(CacheStateV::Absent) == Some(JsonV::Null),
        (match dec_cache_state(o, ent, k) {
            Ok(CacheStateV::Present(e)) => (match obj_get(o, k) {
                Some(ev) => spec_dec_cache_entry(ev) == Ok::<CacheEntryV, DecodeErrorV>(e),
                None => false,
            }),
            _ => true,
        }),
{
}

} // verus!
