//! Executable decoding: a [`JsonValue`] wire tree into each entity.
//!
//! Every function is proved to return exactly what its spec-level
//! counterpart in [`crate::codec`] describes: the decoded entity, or the
//! first error in field order.

use vstd::prelude::*;
use crate::json::{JsonV, JsonValue, arr_view, lookup, pairs_view};
use crate::codec::{
    DecodeError, DecodeErrorV, dec_cache_state, dec_opt_bool, dec_opt_str, dec_opt_i32,
    dec_opt_timing, dec_req_i32, dec_req_str, dec_req_u32, dec_size, lemma_spec_dec_cookies_concat,
    lemma_spec_dec_entries_concat, lemma_spec_dec_headers_concat, lemma_spec_dec_pages_concat,
    lemma_spec_dec_params_concat, lemma_spec_dec_query_string_pairs_concat, spec_dec_browser,
    spec_dec_cache, spec_dec_cache_entry, spec_dec_content, spec_dec_cookie, spec_dec_cookies,
    spec_dec_creator, spec_dec_entries, spec_dec_entry, spec_dec_header, spec_dec_headers,
    spec_dec_log, spec_dec_page, spec_dec_page_timings, spec_dec_pages, spec_dec_param,
    spec_dec_params, spec_dec_post_data, spec_dec_query_string_pair, spec_dec_query_string_pairs,
    spec_dec_request, spec_dec_response, spec_dec_timing,
};
use crate::model::{
    Browser, BrowserV, Cache, CacheEntry, CacheEntryV, CacheState, CacheStateV, CacheV, Content,
    ContentV, Cookie, CookieV, Creator, CreatorV, Entry, EntryV, Header, HeaderV, Log, LogV,
    OptionalTiming, Page, PageTimings, PageTimingsV, PageV, Param, ParamV, PostData, PostDataV,
    QueryStringPair, QueryStringPairV, Request, RequestV, Response, ResponseV, Timing, TimingV,
};

verus! {

/// A mandatory string member of `o`.
fn get_req_str(o: &Vec<(String, JsonValue)>, ent: &str, k: &str) -> (r: Result<String, DecodeError>)
    ensures
        match r {
            Ok(s) => dec_req_str(pairs_view(o@), ent@, k@) == Ok::<Seq<char>, DecodeErrorV>(s@),
            Err(e) => dec_req_str(pairs_view(o@), ent@, k@) == Err::<Seq<char>, DecodeErrorV>(
                e.deep_view(),
            ),
        },
{
    match lookup(o, k) {
        Some(JsonValue::Str(s)) => Ok(s.clone()),
        Some(_) => Err(DecodeError::TypeMismatch(ent.to_owned(), k.to_owned())),
        None => Err(DecodeError::MissingField(ent.to_owned(), k.to_owned())),
    }
}

/// An optional string member of `o`.
fn get_opt_str(o: &Vec<(String, JsonValue)>, ent: &str, k: &str) -> (r: Result<
    Option<String>,
    DecodeError,
>)
    ensures
        match r {
            Ok(s) => dec_opt_str(pairs_view(o@), ent@, k@) == Ok::<Option<Seq<char>>, DecodeErrorV>(
                s.deep_view(),
            ),
            Err(e) => dec_opt_str(pairs_view(o@), ent@, k@) == Err::<
                Option<Seq<char>>,
                DecodeErrorV,
            >(e.deep_view()),
        },
{
    match lookup(o, k) {
        None => Ok(None),
        Some(JsonValue::Null) => Ok(None),
        Some(JsonValue::Str(s)) => Ok(Some(s.clone())),
        Some(_) => Err(DecodeError::TypeMismatch(ent.to_owned(), k.to_owned())),
    }
}

/// An optional boolean member of `o`.
fn get_opt_bool(o: &Vec<(String, JsonValue)>, ent: &str, k: &str) -> (r: Result<
    Option<bool>,
    DecodeError,
>)
    ensures
        match r {
            Ok(b) => dec_opt_bool(pairs_view(o@), ent@, k@) == Ok::<Option<bool>, DecodeErrorV>(b),
            Err(e) => dec_opt_bool(pairs_view(o@), ent@, k@) == Err::<Option<bool>, DecodeErrorV>(
                e.deep_view(),
            ),
        },
{
    match lookup(o, k) {
        None => Ok(None),
        Some(JsonValue::Null) => Ok(None),
        Some(JsonValue::Bool(b)) => Ok(Some(*b)),
        Some(_) => Err(DecodeError::TypeMismatch(ent.to_owned(), k.to_owned())),
    }
}

/// A mandatory number member of `o` that must fit an `i32`.
fn get_req_i32(o: &Vec<(String, JsonValue)>, ent: &str, k: &str) -> (r: Result<i32, DecodeError>)
    ensures
        match r {
            Ok(n) => dec_req_i32(pairs_view(o@), ent@, k@) == Ok::<i32, DecodeErrorV>(n),
            Err(e) => dec_req_i32(pairs_view(o@), ent@, k@) == Err::<i32, DecodeErrorV>(
                e.deep_view(),
            ),
        },
{
    match lookup(o, k) {
        Some(JsonValue::Num(n)) => {
            let n = *n;
            if i32::MIN as i64 <= n && n <= i32::MAX as i64 {
                Ok(n as i32)
            } else {
                Err(DecodeError::TypeMismatch(ent.to_owned(), k.to_owned()))
            }
        },
        Some(_) => Err(DecodeError::TypeMismatch(ent.to_owned(), k.to_owned())),
        None => Err(DecodeError::MissingField(ent.to_owned(), k.to_owned())),
    }
}

/// An optional number member of `o` that must fit an `i32` when present.
fn get_opt_i32(o: &Vec<(String, JsonValue)>, ent: &str, k: &str) -> (r: Result<
    Option<i32>,
    DecodeError,
>)
    ensures
        match r {
            Ok(n) => dec_opt_i32(pairs_view(o@), ent@, k@) == Ok::<Option<i32>, DecodeErrorV>(n),
            Err(e) => dec_opt_i32(pairs_view(o@), ent@, k@) == Err::<Option<i32>, DecodeErrorV>(
                e.deep_view(),
            ),
        },
{
    match lookup(o, k) {
        None => Ok(None),
        Some(JsonValue::Null) => Ok(None),
        Some(JsonValue::Num(n)) => {
            let n = *n;
            if i32::MIN as i64 <= n && n <= i32::MAX as i64 {
                Ok(Some(n as i32))
            } else {
                Err(DecodeError::TypeMismatch(ent.to_owned(), k.to_owned()))
            }
        },
        Some(_) => Err(DecodeError::TypeMismatch(ent.to_owned(), k.to_owned())),
    }
}

/// A size member of `o`: the conventional `-1` also decodes as absent.
fn get_size(o: &Vec<(String, JsonValue)>, ent: &str, k: &str) -> (r: Result<
    Option<i32>,
    DecodeError,
>)
    ensures
        match r {
            Ok(n) => dec_size(pairs_view(o@), ent@, k@) == Ok::<Option<i32>, DecodeErrorV>(n),
            Err(e) => dec_size(pairs_view(o@), ent@, k@) == Err::<Option<i32>, DecodeErrorV>(
                e.deep_view(),
            ),
        },
{
    match lookup(o, k) {
        None => Ok(None),
        Some(JsonValue::Null) => Ok(None),
        Some(JsonValue::Num(n)) => {
            let n = *n;
            if n == -1 {
                Ok(None)
            } else if i32::MIN as i64 <= n && n <= i32::MAX as i64 {
                Ok(Some(n as i32))
            } else {
                Err(DecodeError::TypeMismatch(ent.to_owned(), k.to_owned()))
            }
        },
        Some(_) => Err(DecodeError::TypeMismatch(ent.to_owned(), k.to_owned())),
    }
}

/// A mandatory number member of `o` that must fit a `u32`.
fn get_req_u32(o: &Vec<(String, JsonValue)>, ent: &str, k: &str) -> (r: Result<u32, DecodeError>)
    ensures
        match r {
            Ok(n) => dec_req_u32(pairs_view(o@), ent@, k@) == Ok::<u32, DecodeErrorV>(n),
            Err(e) => dec_req_u32(pairs_view(o@), ent@, k@) == Err::<u32, DecodeErrorV>(
                e.deep_view(),
            ),
        },
{
    match lookup(o, k) {
        Some(JsonValue::Num(n)) => {
            let n = *n;
            if 0 <= n && n <= u32::MAX as i64 {
                Ok(n as u32)
            } else {
                Err(DecodeError::TypeMismatch(ent.to_owned(), k.to_owned()))
            }
        },
        Some(_) => Err(DecodeError::TypeMismatch(ent.to_owned(), k.to_owned())),
        None => Err(DecodeError::MissingField(ent.to_owned(), k.to_owned())),
    }
}

/// A mandatory timing member of `o`: `-1` is the not-applicable sentinel.
fn get_timing(o: &Vec<(String, JsonValue)>, ent: &str, k: &str) -> (r: Result<
    OptionalTiming,
    DecodeError,
>)
    ensures
        match r {
            Ok(t) => dec_opt_timing(pairs_view(o@), ent@, k@) == Ok::<OptionalTiming, DecodeErrorV>(
                t,
            ),
            Err(e) => dec_opt_timing(pairs_view(o@), ent@, k@) == Err::<
                OptionalTiming,
                DecodeErrorV,
            >(e.deep_view()),
        },
{
    match lookup(o, k) {
        Some(JsonValue::Num(n)) => {
            let n = *n;
            if n == -1 {
                Ok(OptionalTiming::NotApplicable)
            } else if n < -1 {
                Err(DecodeError::InvalidTiming(ent.to_owned(), k.to_owned()))
            } else if n <= u32::MAX as i64 {
                Ok(OptionalTiming::TimedContent(n as u32))
            } else {
                Err(DecodeError::TypeMismatch(ent.to_owned(), k.to_owned()))
            }
        },
        Some(_) => Err(DecodeError::TypeMismatch(ent.to_owned(), k.to_owned())),
        None => Err(DecodeError::MissingField(ent.to_owned(), k.to_owned())),
    }
}

/// Decode an array of cookie objects, or return the first failure.
fn decode_cookie_list(arr: &Vec<JsonValue>) -> (r: Result<Vec<Cookie>, DecodeError>)
    ensures
        match r {
            Ok(xs) => spec_dec_cookies(arr_view(arr@)) == Ok::<Seq<CookieV>, DecodeErrorV>(xs.deep_view()),
            Err(e) => spec_dec_cookies(arr_view(arr@)) == Err::<Seq<CookieV>, DecodeErrorV>(e.deep_view()),
        },
{
    let mut xs: Vec<Cookie> = Vec::new();
    let n = arr.len();
    proof {
        assert(spec_dec_cookies(arr_view(arr@).subrange(0, 0)) == Ok::<Seq<CookieV>, DecodeErrorV>(
            xs.deep_view(),
        )) by {
            assert(arr_view(arr@).subrange(0, 0) =~= Seq::<JsonV>::empty());
            assert(xs.deep_view() =~= Seq::<CookieV>::empty());
        }
    }
    for i in 0..n
        invariant
            n == arr.len(),
            spec_dec_cookies(arr_view(arr@).subrange(0, i as int)) == Ok::<Seq<CookieV>, DecodeErrorV>(
                xs.deep_view(),
            ),
    {
        proof {
            let s = arr_view(arr@);
            assert(s.subrange(0, i as int + 1) =~= s.subrange(0, i as int) + seq![s[i as int]]);
            lemma_spec_dec_cookies_concat(s.subrange(0, i as int), seq![s[i as int]]);
            assert(seq![s[i as int]].drop_first() =~= Seq::<JsonV>::empty());
            assert(spec_dec_cookies(Seq::<JsonV>::empty()) == Ok::<Seq<CookieV>, DecodeErrorV>(Seq::empty()));
            assert(s[i as int] == arr@[i as int]@);
        }
        match decode_cookie_value(&arr[i]) {
            Ok(x) => {
                let ghost prev = xs.deep_view();
                xs.push(x);
                proof {
                    assert(seq![x.deep_view()] + Seq::<CookieV>::empty() =~= seq![x.deep_view()]);
                    assert(xs.deep_view() =~= prev + seq![x.deep_view()]);
                }
            },
            Err(e) => {
                proof {
                    let s = arr_view(arr@);
                    assert(s =~= s.subrange(0, i as int + 1) + s.subrange(i as int + 1, n as int));
                    lemma_spec_dec_cookies_concat(
                        s.subrange(0, i as int + 1),
                        s.subrange(i as int + 1, n as int),
                    );
                }
                return Err(e);
            },
        }
    }
    proof {
        assert(arr_view(arr@).subrange(0, n as int) =~= arr_view(arr@));
    }
    Ok(xs)
}

/// Decode an array of header objects, or return the first failure.
fn decode_header_list(arr: &Vec<JsonValue>) -> (r: Result<Vec<Header>, DecodeError>)
    ensures
        match r {
            Ok(xs) => spec_dec_headers(arr_view(arr@)) == Ok::<Seq<HeaderV>, DecodeErrorV>(xs.deep_view()),
            Err(e) => spec_dec_headers(arr_view(arr@)) == Err::<Seq<HeaderV>, DecodeErrorV>(e.deep_view()),
        },
{
    let mut xs: Vec<Header> = Vec::new();
    let n = arr.len();
    proof {
        assert(spec_dec_headers(arr_view(arr@).subrange(0, 0)) == Ok::<Seq<HeaderV>, DecodeErrorV>(
            xs.deep_view(),
        )) by {
            assert(arr_view(arr@).subrange(0, 0) =~= Seq::<JsonV>::empty());
            assert(xs.deep_view() =~= Seq::<HeaderV>::empty());
        }
    }
    for i in 0..n
        invariant
            n == arr.len(),
            spec_dec_headers(arr_view(arr@).subrange(0, i as int)) == Ok::<Seq<HeaderV>, DecodeErrorV>(
                xs.deep_view(),
            ),
    {
        proof {
            let s = arr_view(arr@);
            assert(s.subrange(0, i as int + 1) =~= s.subrange(0, i as int) + seq![s[i as int]]);
            lemma_spec_dec_headers_concat(s.subrange(0, i as int), seq![s[i as int]]);
            assert(seq![s[i as int]].drop_first() =~= Seq::<JsonV>::empty());
            assert(spec_dec_headers(Seq::<JsonV>::empty()) == Ok::<Seq<HeaderV>, DecodeErrorV>(Seq::empty()));
            assert(s[i as int] == arr@[i as int]@);
        }
        match decode_header_value(&arr[i]) {
            Ok(x) => {
                let ghost prev = xs.deep_view();
                xs.push(x);
                proof {
                    assert(seq![x.deep_view()] + Seq::<HeaderV>::empty() =~= seq![x.deep_view()]);
                    assert(xs.deep_view() =~= prev + seq![x.deep_view()]);
                }
            },
            Err(e) => {
                proof {
                    let s = arr_view(arr@);
                    assert(s =~= s.subrange(0, i as int + 1) + s.subrange(i as int + 1, n as int));
                    lemma_spec_dec_headers_concat(
                        s.subrange(0, i as int + 1),
                        s.subrange(i as int + 1, n as int),
                    );
                }
                return Err(e);
            },
        }
    }
    proof {
        assert(arr_view(arr@).subrange(0, n as int) =~= arr_view(arr@));
    }
    Ok(xs)
}

/// Decode an array of query parameter objects, or return the first failure.
fn decode_query_string_list(arr: &Vec<JsonValue>) -> (r: Result<Vec<QueryStringPair>, DecodeError>)
    ensures
        match r {
            Ok(xs) => spec_dec_query_string_pairs(arr_view(arr@)) == Ok::<Seq<QueryStringPairV>, DecodeErrorV>(xs.deep_view()),
            Err(e) => spec_dec_query_string_pairs(arr_view(arr@)) == Err::<Seq<QueryStringPairV>, DecodeErrorV>(e.deep_view()),
        },
{
    let mut xs: Vec<QueryStringPair> = Vec::new();
    let n = arr.len();
    proof {
        assert(spec_dec_query_string_pairs(arr_view(arr@).subrange(0, 0)) == Ok::<Seq<QueryStringPairV>, DecodeErrorV>(
            xs.deep_view(),
        )) by {
            assert(arr_view(arr@).subrange(0, 0) =~= Seq::<JsonV>::empty());
            assert(xs.deep_view() =~= Seq::<QueryStringPairV>::empty());
        }
    }
    for i in 0..n
        invariant
            n == arr.len(),
            spec_dec_query_string_pairs(arr_view(arr@).subrange(0, i as int)) == Ok::<Seq<QueryStringPairV>, DecodeErrorV>(
                xs.deep_view(),
            ),
    {
        proof {
            let s = arr_view(arr@);
            assert(s.subrange(0, i as int + 1) =~= s.subrange(0, i as int) + seq![s[i as int]]);
            lemma_spec_dec_query_string_pairs_concat(s.subrange(0, i as int), seq![s[i as int]]);
            assert(seq![s[i as int]].drop_first() =~= Seq::<JsonV>::empty());
            assert(spec_dec_query_string_pairs(Seq::<JsonV>::empty()) == Ok::<Seq<QueryStringPairV>, DecodeErrorV>(Seq::empty()));
            assert(s[i as int] == arr@[i as int]@);
        }
        match decode_query_string_pair_value(&arr[i]) {
            Ok(x) => {
                let ghost prev = xs.deep_view();
                xs.push(x);
                proof {
                    assert(seq![x.deep_view()] + Seq::<QueryStringPairV>::empty() =~= seq![x.deep_view()]);
                    assert(xs.deep_view() =~= prev + seq![x.deep_view()]);
                }
            },
            Err(e) => {
                proof {
                    let s = arr_view(arr@);
                    assert(s =~= s.subrange(0, i as int + 1) + s.subrange(i as int + 1, n as int));
                    lemma_spec_dec_query_string_pairs_concat(
                        s.subrange(0, i as int + 1),
                        s.subrange(i as int + 1, n as int),
                    );
                }
                return Err(e);
            },
        }
    }
    proof {
        assert(arr_view(arr@).subrange(0, n as int) =~= arr_view(arr@));
    }
    Ok(xs)
}

/// Decode an array of posted parameter objects, or return the first failure.
fn decode_param_list(arr: &Vec<JsonValue>) -> (r: Result<Vec<Param>, DecodeError>)
    ensures
        match r {
            Ok(xs) => spec_dec_params(arr_view(arr@)) == Ok::<Seq<ParamV>, DecodeErrorV>(xs.deep_view()),
            Err(e) => spec_dec_params(arr_view(arr@)) == Err::<Seq<ParamV>, DecodeErrorV>(e.deep_view()),
        },
{
    let mut xs: Vec<Param> = Vec::new();
    let n = arr.len();
    proof {
        assert(spec_dec_params(arr_view(arr@).subrange(0, 0)) == Ok::<Seq<ParamV>, DecodeErrorV>(
            xs.deep_view(),
        )) by {
            assert(arr_view(arr@).subrange(0, 0) =~= Seq::<JsonV>::empty());
            assert(xs.deep_view() =~= Seq::<ParamV>::empty());
        }
    }
    for i in 0..n
        invariant
            n == arr.len(),
            spec_dec_params(arr_view(arr@).subrange(0, i as int)) == Ok::<Seq<ParamV>, DecodeErrorV>(
                xs.deep_view(),
            ),
    {
        proof {
            let s = arr_view(arr@);
            assert(s.subrange(0, i as int + 1) =~= s.subrange(0, i as int) + seq![s[i as int]]);
            lemma_spec_dec_params_concat(s.subrange(0, i as int), seq![s[i as int]]);
            assert(seq![s[i as int]].drop_first() =~= Seq::<JsonV>::empty());
            assert(spec_dec_params(Seq::<JsonV>::empty()) == Ok::<Seq<ParamV>, DecodeErrorV>(Seq::empty()));
            assert(s[i as int] == arr@[i as int]@);
        }
        match decode_param_value(&arr[i]) {
            Ok(x) => {
                let ghost prev = xs.deep_view();
                xs.push(x);
                proof {
                    assert(seq![x.deep_view()] + Seq::<ParamV>::empty() =~= seq![x.deep_view()]);
                    assert(xs.deep_view() =~= prev + seq![x.deep_view()]);
                }
            },
            Err(e) => {
                proof {
                    let s = arr_view(arr@);
                    assert(s =~= s.subrange(0, i as int + 1) + s.subrange(i as int + 1, n as int));
                    lemma_spec_dec_params_concat(
                        s.subrange(0, i as int + 1),
                        s.subrange(i as int + 1, n as int),
                    );
                }
                return Err(e);
            },
        }
    }
    proof {
        assert(arr_view(arr@).subrange(0, n as int) =~= arr_view(arr@));
    }
    Ok(xs)
}

/// Decode an array of page objects, or return the first failure.
fn decode_page_list(arr: &Vec<JsonValue>) -> (r: Result<Vec<Page>, DecodeError>)
    ensures
        match r {
            Ok(xs) => spec_dec_pages(arr_view(arr@)) == Ok::<Seq<PageV>, DecodeErrorV>(xs.deep_view()),
            Err(e) => spec_dec_pages(arr_view(arr@)) == Err::<Seq<PageV>, DecodeErrorV>(e.deep_view()),
        },
{
    let mut xs: Vec<Page> = Vec::new();
    let n = arr.len();
    proof {
        assert(spec_dec_pages(arr_view(arr@).subrange(0, 0)) == Ok::<Seq<PageV>, DecodeErrorV>(
            xs.deep_view(),
        )) by {
            assert(arr_view(arr@).subrange(0, 0) =~= Seq::<JsonV>::empty());
            assert(xs.deep_view() =~= Seq::<PageV>::empty());
        }
    }
    for i in 0..n
        invariant
            n == arr.len(),
            spec_dec_pages(arr_view(arr@).subrange(0, i as int)) == Ok::<Seq<PageV>, DecodeErrorV>(
                xs.deep_view(),
            ),
    {
        proof {
            let s = arr_view(arr@);
            assert(s.subrange(0, i as int + 1) =~= s.subrange(0, i as int) + seq![s[i as int]]);
            lemma_spec_dec_pages_concat(s.subrange(0, i as int), seq![s[i as int]]);
            assert(seq![s[i as int]].drop_first() =~= Seq::<JsonV>::empty());
            assert(spec_dec_pages(Seq::<JsonV>::empty()) == Ok::<Seq<PageV>, DecodeErrorV>(Seq::empty()));
            assert(s[i as int] == arr@[i as int]@);
        }
        match decode_page_value(&arr[i]) {
            Ok(x) => {
                let ghost prev = xs.deep_view();
                xs.push(x);
                proof {
                    assert(seq![x.deep_view()] + Seq::<PageV>::empty() =~= seq![x.deep_view()]);
                    assert(xs.deep_view() =~= prev + seq![x.deep_view()]);
                }
            },
            Err(e) => {
                proof {
                    let s = arr_view(arr@);
                    assert(s =~= s.subrange(0, i as int + 1) + s.subrange(i as int + 1, n as int));
                    lemma_spec_dec_pages_concat(
                        s.subrange(0, i as int + 1),
                        s.subrange(i as int + 1, n as int),
                    );
                }
                return Err(e);
            },
        }
    }
    proof {
        assert(arr_view(arr@).subrange(0, n as int) =~= arr_view(arr@));
    }
    Ok(xs)
}

/// Decode an array of entry objects, or return the first failure.
fn decode_entry_list(arr: &Vec<JsonValue>) -> (r: Result<Vec<Entry>, DecodeError>)
    ensures
        match r {
            Ok(xs) => spec_dec_entries(arr_view(arr@)) == Ok::<Seq<EntryV>, DecodeErrorV>(xs.deep_view()),
            Err(e) => spec_dec_entries(arr_view(arr@)) == Err::<Seq<EntryV>, DecodeErrorV>(e.deep_view()),
        },
{
    let mut xs: Vec<Entry> = Vec::new();
    let n = arr.len();
    proof {
        assert(spec_dec_entries(arr_view(arr@).subrange(0, 0)) == Ok::<Seq<EntryV>, DecodeErrorV>(
            xs.deep_view(),
        )) by {
            assert(arr_view(arr@).subrange(0, 0) =~= Seq::<JsonV>::empty());
            assert(xs.deep_view() =~= Seq::<EntryV>::empty());
        }
    }
    for i in 0..n
        invariant
            n == arr.len(),
            spec_dec_entries(arr_view(arr@).subrange(0, i as int)) == Ok::<Seq<EntryV>, DecodeErrorV>(
                xs.deep_view(),
            ),
    {
        proof {
            let s = arr_view(arr@);
            assert(s.subrange(0, i as int + 1) =~= s.subrange(0, i as int) + seq![s[i as int]]);
            lemma_spec_dec_entries_concat(s.subrange(0, i as int), seq![s[i as int]]);
            assert(seq![s[i as int]].drop_first() =~= Seq::<JsonV>::empty());
            assert(spec_dec_entries(Seq::<JsonV>::empty()) == Ok::<Seq<EntryV>, DecodeErrorV>(Seq::empty()));
            assert(s[i as int] == arr@[i as int]@);
        }
        match decode_entry_value(&arr[i]) {
            Ok(x) => {
                let ghost prev = xs.deep_view();
                xs.push(x);
                proof {
                    assert(seq![x.deep_view()] + Seq::<EntryV>::empty() =~= seq![x.deep_view()]);
                    assert(xs.deep_view() =~= prev + seq![x.deep_view()]);
                }
            },
            Err(e) => {
                proof {
                    let s = arr_view(arr@);
                    assert(s =~= s.subrange(0, i as int + 1) + s.subrange(i as int + 1, n as int));
                    lemma_spec_dec_entries_concat(
                        s.subrange(0, i as int + 1),
                        s.subrange(i as int + 1, n as int),
                    );
                }
                return Err(e);
            },
        }
    }
    proof {
        assert(arr_view(arr@).subrange(0, n as int) =~= arr_view(arr@));
    }
    Ok(xs)
}

pub fn decode_creator_value(v: &JsonValue) -> (r: Result<Creator, DecodeError>)
    ensures
        match r {
            Ok(x) => spec_dec_creator(v@) == Ok::<CreatorV, DecodeErrorV>(x.deep_view()),
            Err(e) => spec_dec_creator(v@) == Err::<CreatorV, DecodeErrorV>(e.deep_view()),
        },
{
    let o = match v {
        JsonValue::Obj(o) => o,
        _ => {
            return Err(DecodeError::TypeMismatch("creator".to_owned(), "".to_owned()));
        },
    };
    let name = match get_req_str(o, "creator", "name") {
        Ok(x) => x,
        Err(e) => {
            return Err(e);
        },
    };
    let value = match get_req_str(o, "creator", "version") {
        Ok(x) => x,
        Err(e) => {
            return Err(e);
        },
    };
    let comment = match get_opt_str(o, "creator", "comment") {
        Ok(x) => x,
        Err(e) => {
            return Err(e);
        },
    };
    let x = Creator { name, version: value, comment };
    proof {
        assert(spec_dec_creator(v@) is Ok);
        assert(spec_dec_creator(v@)->Ok_0 =~~= x.deep_view());
    }
    Ok(x)
}

pub fn decode_browser_value(v: &JsonValue) -> (r: Result<Browser, DecodeError>)
    ensures
        match r {
            Ok(x) => spec_dec_browser(v@) == Ok::<BrowserV, DecodeErrorV>(x.deep_view()),
            Err(e) => spec_dec_browser(v@) == Err::<BrowserV, DecodeErrorV>(e.deep_view()),
        },
{
    let o = match v {
        JsonValue::Obj(o) => o,
        _ => {
            return Err(DecodeError::TypeMismatch("browser".to_owned(), "".to_owned()));
        },
    };
    let name = match get_req_str(o, "browser", "name") {
        Ok(x) => x,
        Err(e) => {
            return Err(e);
        },
    };
    let value = match get_req_str(o, "browser", "version") {
        Ok(x) => x,
        Err(e) => {
            return Err(e);
        },
    };
    let comment = match get_opt_str(o, "browser", "comment") {
        Ok(x) => x,
        Err(e) => {
            return Err(e);
        },
    };
    let x = Browser { name, version: value, comment };
    proof {
        assert(spec_dec_browser(v@) is Ok);
        assert(spec_dec_browser(v@)->Ok_0 =~~= x.deep_view());
    }
    Ok(x)
}

pub fn decode_header_value(v: &JsonValue) -> (r: Result<Header, DecodeError>)
    ensures
        match r {
            Ok(x) => spec_dec_header(v@) == Ok::<HeaderV, DecodeErrorV>(x.deep_view()),
            Err(e) => spec_dec_header(v@) == Err::<HeaderV, DecodeErrorV>(e.deep_view()),
        },
{
    let o = match v {
        JsonValue::Obj(o) => o,
        _ => {
            return Err(DecodeError::TypeMismatch("header".to_owned(), "".to_owned()));
        },
    };
    let name = match get_req_str(o, "header", "name") {
        Ok(x) => x,
        Err(e) => {
            return Err(e);
        },
    };
    let value = match get_req_str(o, "header", "value") {
        Ok(x) => x,
        Err(e) => {
            return Err(e);
        },
    };
    let comment = match get_opt_str(o, "header", "comment") {
        Ok(x) => x,
        Err(e) => {
            return Err(e);
        },
    };
    let x = Header { name, value: value, comment };
    proof {
        assert(spec_dec_header(v@) is Ok);
        assert(spec_dec_header(v@)->Ok_0 =~~= x.deep_view());
    }
    Ok(x)
}

pub fn decode_query_string_pair_value(v: &JsonValue) -> (r: Result<QueryStringPair, DecodeError>)
    ensures
        match r {
            Ok(x) => spec_dec_query_string_pair(v@) == Ok::<QueryStringPairV, DecodeErrorV>(x.deep_view()),
            Err(e) => spec_dec_query_string_pair(v@) == Err::<QueryStringPairV, DecodeErrorV>(e.deep_view()),
        },
{
    let o = match v {
        JsonValue::Obj(o) => o,
        _ => {
            return Err(DecodeError::TypeMismatch("queryStringPair".to_owned(), "".to_owned()));
        },
    };
    let name = match get_req_str(o, "queryStringPair", "name") {
        Ok(x) => x,
        Err(e) => {
            return Err(e);
        },
    };
    let value = match get_req_str(o, "queryStringPair", "value") {
        Ok(x) => x,
        Err(e) => {
            return Err(e);
        },
    };
    let comment = match get_opt_str(o, "queryStringPair", "comment") {
        Ok(x) => x,
        Err(e) => {
            return Err(e);
        },
    };
    let x = QueryStringPair { name, value: value, comment };
    proof {
        assert(spec_dec_query_string_pair(v@) is Ok);
        assert(spec_dec_query_string_pair(v@)->Ok_0 =~~= x.deep_view());
    }
    Ok(x)
}

pub fn decode_cookie_value(v: &JsonValue) -> (r: Result<Cookie, DecodeError>)
    ensures
        match r {
            Ok(x) => spec_dec_cookie(v@) == Ok::<CookieV, DecodeErrorV>(x.deep_view()),
            Err(e) => spec_dec_cookie(v@) == Err::<CookieV, DecodeErrorV>(e.deep_view()),
        },
{
    let o = match v {
        JsonValue::Obj(o) => o,
        _ => {
            return Err(DecodeError::TypeMismatch("cookie".to_owned(), "".to_owned()));
        },
    };
    let name = match get_req_str(o, "cookie", "name") {
        Ok(x) => x,
        Err(e) => {
            return Err(e);
        },
    };
    let value = match get_req_str(o, "cookie", "value") {
        Ok(x) => x,
        Err(e) => {
            return Err(e);
        },
    };
    let path = match get_opt_str(o, "cookie", "path") {
        Ok(x) => x,
        Err(e) => {
            return Err(e);
        },
    };
    let domain = match get_opt_str(o, "cookie", "domain") {
        Ok(x) => x,
        Err(e) => {
            return Err(e);
        },
    };
    let expires = match get_opt_str(o, "cookie", "expires") {
        Ok(x) => x,
        Err(e) => {
            return Err(e);
        },
    };
    let http_only = match get_opt_bool(o, "cookie", "httpOnly") {
        Ok(x) => x,
        Err(e) => {
            return Err(e);
        },
    };
    let secure = match get_opt_bool(o, "cookie", "secure") {
        Ok(x) => x,
        Err(e) => {
            return Err(e);
        },
    };
    let comment = match get_opt_str(o, "cookie", "comment") {
        Ok(x) => x,
        Err(e) => {
            return Err(e);
        },
    };
    let x = Cookie { name, value, path, domain, expires, http_only, secure, comment };
    proof {
        assert(spec_dec_cookie(v@) is Ok);
        assert(spec_dec_cookie(v@)->Ok_0 =~~= x.deep_view());
    }
    Ok(x)
}

pub fn decode_param_value(v: &JsonValue) -> (r: Result<Param, DecodeError>)
    ensures
        match r {
            Ok(x) => spec_dec_param(v@) == Ok::<ParamV, DecodeErrorV>(x.deep_view()),
            Err(e) => spec_dec_param(v@) == Err::<ParamV, DecodeErrorV>(e.deep_view()),
        },
{
    let o = match v {
        JsonValue::Obj(o) => o,
        _ => {
            return Err(DecodeError::TypeMismatch("param".to_owned(), "".to_owned()));
        },
    };
    let name = match get_req_str(o, "param", "name") {
        Ok(x) => x,
        Err(e) => {
            return Err(e);
        },
    };
    let value = match get_opt_str(o, "param", "value") {
        Ok(x) => x,
        Err(e) => {
            return Err(e);
        },
    };
    let file_name = match get_opt_str(o, "param", "fileName") {
        Ok(x) => x,
        Err(e) => {
            return Err(e);
        },
    };
    let content_type = match get_opt_str(o, "param", "contentType") {
        Ok(x) => x,
        Err(e) => {
            return Err(e);
        },
    };
    let comment = match get_opt_str(o, "param", "comment") {
        Ok(x) => x,
        Err(e) => {
            return Err(e);
        },
    };
    let x = Param { name, value, file_name, content_type, comment };
    proof {
        assert(spec_dec_param(v@) is Ok);
        assert(spec_dec_param(v@)->Ok_0 =~~= x.deep_view());
    }
    Ok(x)
}

pub fn decode_post_data_value(v: &JsonValue) -> (r: Result<PostData, DecodeError>)
    ensures
        match r {
            Ok(x) => spec_dec_post_data(v@) == Ok::<PostDataV, DecodeErrorV>(x.deep_view()),
            Err(e) => spec_dec_post_data(v@) == Err::<PostDataV, DecodeErrorV>(e.deep_view()),
        },
{
    let o = match v {
        JsonValue::Obj(o) => o,
        _ => {
            return Err(DecodeError::TypeMismatch("postData".to_owned(), "".to_owned()));
        },
    };
    let mime_type = match get_req_str(o, "postData", "mimeType") {
        Ok(x) => x,
        Err(e) => {
            return Err(e);
        },
    };
    let params = match lookup(o, "params") {
        None => Vec::new(),
        Some(JsonValue::Arr(arr)) => match decode_param_list(arr) {
            Ok(x) => x,
            Err(e) => {
                return Err(e);
            },
        },
        Some(_) => {
            return Err(DecodeError::TypeMismatch("postData".to_owned(), "params".to_owned()));
        },
    };
    let text = match get_req_str(o, "postData", "text") {
        Ok(x) => x,
        Err(e) => {
            return Err(e);
        },
    };
    let comment = match get_opt_str(o, "postData", "comment") {
        Ok(x) => x,
        Err(e) => {
            return Err(e);
        },
    };
    let x = PostData { mime_type, params, text, comment };
    proof {
        assert(spec_dec_post_data(v@) is Ok);
        assert(spec_dec_post_data(v@)->Ok_0 =~~= x.deep_view());
    }
    Ok(x)
}

pub fn decode_content_value(v: &JsonValue) -> (r: Result<Content, DecodeError>)
    ensures
        match r {
            Ok(x) => spec_dec_content(v@) == Ok::<ContentV, DecodeErrorV>(x.deep_view()),
            Err(e) => spec_dec_content(v@) == Err::<ContentV, DecodeErrorV>(e.deep_view()),
        },
{
    let o = match v {
        JsonValue::Obj(o) => o,
        _ => {
            return Err(DecodeError::TypeMismatch("content".to_owned(), "".to_owned()));
        },
    };
    let size = match get_req_i32(o, "content", "size") {
        Ok(x) => x,
        Err(e) => {
            return Err(e);
        },
    };
    let compression = match get_opt_i32(o, "content", "compression") {
        Ok(x) => x,
        Err(e) => {
            return Err(e);
        },
    };
    let mime_type = match get_req_str(o, "content", "mimeType") {
        Ok(x) => x,
        Err(e) => {
            return Err(e);
        },
    };
    let text = match get_opt_str(o, "content", "text") {
        Ok(x) => x,
        Err(e) => {
            return Err(e);
        },
    };
    let encoding = match get_opt_str(o, "content", "encoding") {
        Ok(x) => x,
        Err(e) => {
            return Err(e);
        },
    };
    let comment = match get_opt_str(o, "content", "comment") {
        Ok(x) => x,
        Err(e) => {
            return Err(e);
        },
    };
    let x = Content { size, compression, mime_type, text, encoding, comment };
    proof {
        assert(spec_dec_content(v@) is Ok);
        assert(spec_dec_content(v@)->Ok_0 =~~= x.deep_view());
    }
    Ok(x)
}

pub fn decode_cache_entry_value(v: &JsonValue) -> (r: Result<CacheEntry, DecodeError>)
    ensures
        match r {
            Ok(x) => spec_dec_cache_entry(v@) == Ok::<CacheEntryV, DecodeErrorV>(x.deep_view()),
            Err(e) => spec_dec_cache_entry(v@) == Err::<CacheEntryV, DecodeErrorV>(e.deep_view()),
        },
{
    let o = match v {
        JsonValue::Obj(o) => o,
        _ => {
            return Err(DecodeError::TypeMismatch("cacheEntry".to_owned(), "".to_owned()));
        },
    };
    let expires = match get_opt_str(o, "cacheEntry", "expires") {
        Ok(x) => x,
        Err(e) => {
            return Err(e);
        },
    };
    let last_access = match get_req_str(o, "cacheEntry", "lastAccess") {
        Ok(x) => x,
        Err(e) => {
            return Err(e);
        },
    };
    let e_tag = match get_req_str(o, "cacheEntry", "eTag") {
        Ok(x) => x,
        Err(e) => {
            return Err(e);
        },
    };
    let hit_count = match get_req_i32(o, "cacheEntry", "hitCount") {
        Ok(x) => x,
        Err(e) => {
            return Err(e);
        },
    };
    let comment = match get_opt_str(o, "cacheEntry", "comment") {
        Ok(x) => x,
        Err(e) => {
            return Err(e);
        },
    };
    let x = CacheEntry { expires, last_access, e_tag, hit_count, comment };
    proof {
        assert(spec_dec_cache_entry(v@) is Ok);
        assert(spec_dec_cache_entry(v@)->Ok_0 =~~= x.deep_view());
    }
    Ok(x)
}

/// The three-way cache state under key `k`: missing is unknown, `null` is
/// absent, a well-formed entry object is present.
fn get_cache_state(o: &Vec<(String, JsonValue)>, ent: &str, k: &str) -> (r: Result<
    CacheState,
    DecodeError,
>)
    ensures
        match r {
            Ok(s) => dec_cache_state(pairs_view(o@), ent@, k@) == Ok::<CacheStateV, DecodeErrorV>(
                s.deep_view(),
            ),
            Err(e) => dec_cache_state(pairs_view(o@), ent@, k@) == Err::<CacheStateV, DecodeErrorV>(
                e.deep_view(),
            ),
        },
{
    match lookup(o, k) {
        None => Ok(CacheState::Unknown),
        Some(JsonValue::Null) => Ok(CacheState::Absent),
        Some(ev) => match decode_cache_entry_value(ev) {
            Ok(e) => Ok(CacheState::Present(e)),
            Err(_) => Err(DecodeError::InvalidCacheState(ent.to_owned(), k.to_owned())),
        },
    }
}

pub fn decode_cache_value(v: &JsonValue) -> (r: Result<Cache, DecodeError>)
    ensures
        match r {
            Ok(x) => spec_dec_cache(v@) == Ok::<CacheV, DecodeErrorV>(x.deep_view()),
            Err(e) => spec_dec_cache(v@) == Err::<CacheV, DecodeErrorV>(e.deep_view()),
        },
{
    let o = match v {
        JsonValue::Obj(o) => o,
        _ => {
            return Err(DecodeError::TypeMismatch("cache".to_owned(), "".to_owned()));
        },
    };
    let before_request = match get_cache_state(o, "cache", "beforeRequest") {
        Ok(x) => x,
        Err(e) => {
            return Err(e);
        },
    };
    let after_request = match get_cache_state(o, "cache", "afterRequest") {
        Ok(x) => x,
        Err(e) => {
            return Err(e);
        },
    };
    let comment = match get_opt_str(o, "cache", "comment") {
        Ok(x) => x,
        Err(e) => {
            return Err(e);
        },
    };
    let x = Cache { before_request, after_request, comment };
    proof {
        assert(spec_dec_cache(v@) is Ok);
        assert(spec_dec_cache(v@)->Ok_0 =~~= x.deep_view());
    }
    Ok(x)
}

pub fn decode_timing_value(v: &JsonValue) -> (r: Result<Timing, DecodeError>)
    ensures
        match r {
            Ok(x) => spec_dec_timing(v@) == Ok::<TimingV, DecodeErrorV>(x.deep_view()),
            Err(e) => spec_dec_timing(v@) == Err::<TimingV, DecodeErrorV>(e.deep_view()),
        },
{
    let o = match v {
        JsonValue::Obj(o) => o,
        _ => {
            return Err(DecodeError::TypeMismatch("timing".to_owned(), "".to_owned()));
        },
    };
    let blocked = match get_timing(o, "timing", "blocked") {
        Ok(x) => x,
        Err(e) => {
            return Err(e);
        },
    };
    let dns = match get_timing(o, "timing", "dns") {
        Ok(x) => x,
        Err(e) => {
            return Err(e);
        },
    };
    let connect = match get_timing(o, "timing", "connect") {
        Ok(x) => x,
        Err(e) => {
            return Err(e);
        },
    };
    let send = match get_req_u32(o, "timing", "send") {
        Ok(x) => x,
        Err(e) => {
            return Err(e);
        },
    };
    let wait = match get_req_u32(o, "timing", "wait") {
        Ok(x) => x,
        Err(e) => {
            return Err(e);
        },
    };
    let receive = match get_req_u32(o, "timing", "receive") {
        Ok(x) => x,
        Err(e) => {
            return Err(e);
        },
    };
    let ssl = match get_timing(o, "timing", "ssl") {
        Ok(x) => x,
        Err(e) => {
            return Err(e);
        },
    };
    let comment = match get_opt_str(o, "timing", "comment") {
        Ok(x) => x,
        Err(e) => {
            return Err(e);
        },
    };
    let x = Timing { blocked, dns, connect, send, wait, receive, ssl, comment };
    proof {
        assert(spec_dec_timing(v@) is Ok);
        assert(spec_dec_timing(v@)->Ok_0 =~~= x.deep_view());
    }
    Ok(x)
}

pub fn decode_page_timings_value(v: &JsonValue) -> (r: Result<PageTimings, DecodeError>)
    ensures
        match r {
            Ok(x) => spec_dec_page_timings(v@) == Ok::<PageTimingsV, DecodeErrorV>(x.deep_view()),
            Err(e) => spec_dec_page_timings(v@) == Err::<PageTimingsV, DecodeErrorV>(e.deep_view()),
        },
{
    let o = match v {
        JsonValue::Obj(o) => o,
        _ => {
            return Err(DecodeError::TypeMismatch("pageTimings".to_owned(), "".to_owned()));
        },
    };
    let on_content_load = match get_timing(o, "pageTimings", "onContentLoad") {
        Ok(x) => x,
        Err(e) => {
            return Err(e);
        },
    };
    let on_load = match get_timing(o, "pageTimings", "onLoad") {
        Ok(x) => x,
        Err(e) => {
            return Err(e);
        },
    };
    let comment = match get_opt_str(o, "pageTimings", "comment") {
        Ok(x) => x,
        Err(e) => {
            return Err(e);
        },
    };
    let x = PageTimings { on_content_load, on_load, comment };
    proof {
        assert(spec_dec_page_timings(v@) is Ok);
        assert(spec_dec_page_timings(v@)->Ok_0 =~~= x.deep_view());
    }
    Ok(x)
}

pub fn decode_page_value(v: &JsonValue) -> (r: Result<Page, DecodeError>)
    ensures
        match r {
            Ok(x) => spec_dec_page(v@) == Ok::<PageV, DecodeErrorV>(x.deep_view()),
            Err(e) => spec_dec_page(v@) == Err::<PageV, DecodeErrorV>(e.deep_view()),
        },
{
    let o = match v {
        JsonValue::Obj(o) => o,
        _ => {
            return Err(DecodeError::TypeMismatch("page".to_owned(), "".to_owned()));
        },
    };
    let started_date_time = match get_req_str(o, "page", "startedDateTime") {
        Ok(x) => x,
        Err(e) => {
            return Err(e);
        },
    };
    let id = match get_req_str(o, "page", "id") {
        Ok(x) => x,
        Err(e) => {
            return Err(e);
        },
    };
    let title = match get_req_str(o, "page", "title") {
        Ok(x) => x,
        Err(e) => {
            return Err(e);
        },
    };
    let page_timings = match lookup(o, "pageTimings") {
        None => {
            return Err(DecodeError::MissingField("page".to_owned(), "pageTimings".to_owned()));
        },
        Some(tv) => match decode_page_timings_value(tv) {
            Ok(x) => x,
            Err(e) => {
                return Err(e);
            },
        },
    };
    let comment = match get_opt_str(o, "page", "comment") {
        Ok(x) => x,
        Err(e) => {
            return Err(e);
        },
    };
    let x = Page { started_date_time, id, title, page_timings, comment };
    proof {
        assert(spec_dec_page(v@) is Ok);
        assert(spec_dec_page(v@)->Ok_0 =~~= x.deep_view());
    }
    Ok(x)
}

pub fn decode_request_value(v: &JsonValue) -> (r: Result<Request, DecodeError>)
    ensures
        match r {
            Ok(x) => spec_dec_request(v@) == Ok::<RequestV, DecodeErrorV>(x.deep_view()),
            Err(e) => spec_dec_request(v@) == Err::<RequestV, DecodeErrorV>(e.deep_view()),
        },
{
    let o = match v {
        JsonValue::Obj(o) => o,
        _ => {
            return Err(DecodeError::TypeMismatch("request".to_owned(), "".to_owned()));
        },
    };
    let method = match get_req_str(o, "request", "method") {
        Ok(x) => x,
        Err(e) => {
            return Err(e);
        },
    };
    let url = match get_req_str(o, "request", "url") {
        Ok(x) => x,
        Err(e) => {
            return Err(e);
        },
    };
    let http_version = match get_req_str(o, "request", "httpVersion") {
        Ok(x) => x,
        Err(e) => {
            return Err(e);
        },
    };
    let cookies = match lookup(o, "cookies") {
        None => Vec::new(),
        Some(JsonValue::Arr(arr)) => match decode_cookie_list(arr) {
            Ok(x) => x,
            Err(e) => {
                return Err(e);
            },
        },
        Some(_) => {
            return Err(DecodeError::TypeMismatch("request".to_owned(), "cookies".to_owned()));
        },
    };
    let headers = match lookup(o, "headers") {
        None => Vec::new(),
        Some(JsonValue::Arr(arr)) => match decode_header_list(arr) {
            Ok(x) => x,
            Err(e) => {
                return Err(e);
            },
        },
        Some(_) => {
            return Err(DecodeError::TypeMismatch("request".to_owned(), "headers".to_owned()));
        },
    };
    let query_string = match lookup(o, "queryString") {
        None => Vec::new(),
        Some(JsonValue::Arr(arr)) => match decode_query_string_list(arr) {
            Ok(x) => x,
            Err(e) => {
                return Err(e);
            },
        },
        Some(_) => {
            return Err(DecodeError::TypeMismatch("request".to_owned(), "queryString".to_owned()));
        },
    };
    let post_data = match lookup(o, "postData") {
        None => None,
        Some(JsonValue::Null) => None,
        Some(pv) => match decode_post_data_value(pv) {
            Ok(p) => Some(p),
            Err(e) => {
                return Err(e);
            },
        },
    };
    let headers_size = match get_size(o, "request", "headersSize") {
        Ok(x) => x,
        Err(e) => {
            return Err(e);
        },
    };
    let body_size = match get_size(o, "request", "bodySize") {
        Ok(x) => x,
        Err(e) => {
            return Err(e);
        },
    };
    let comment = match get_opt_str(o, "request", "comment") {
        Ok(x) => x,
        Err(e) => {
            return Err(e);
        },
    };
    let x = Request {
        method,
        url,
        http_version,
        cookies,
        headers,
        query_string,
        post_data,
        headers_size,
        body_size,
        comment,
    };
    proof {
        assert(spec_dec_request(v@) is Ok);
        assert(spec_dec_request(v@)->Ok_0 =~~= x.deep_view());
    }
    Ok(x)
}

pub fn decode_response_value(v: &JsonValue) -> (r: Result<Response, DecodeError>)
    ensures
        match r {
            Ok(x) => spec_dec_response(v@) == Ok::<ResponseV, DecodeErrorV>(x.deep_view()),
            Err(e) => spec_dec_response(v@) == Err::<ResponseV, DecodeErrorV>(e.deep_view()),
        },
{
    let o = match v {
        JsonValue::Obj(o) => o,
        _ => {
            return Err(DecodeError::TypeMismatch("response".to_owned(), "".to_owned()));
        },
    };
    let status = match get_req_i32(o, "response", "status") {
        Ok(x) => x,
        Err(e) => {
            return Err(e);
        },
    };
    let status_text = match get_req_str(o, "response", "statusText") {
        Ok(x) => x,
        Err(e) => {
            return Err(e);
        },
    };
    let http_version = match get_req_str(o, "response", "httpVersion") {
        Ok(x) => x,
        Err(e) => {
            return Err(e);
        },
    };
    let cookies = match lookup(o, "cookies") {
        None => Vec::new(),
        Some(JsonValue::Arr(arr)) => match decode_cookie_list(arr) {
            Ok(x) => x,
            Err(e) => {
                return Err(e);
            },
        },
        Some(_) => {
            return Err(DecodeError::TypeMismatch("response".to_owned(), "cookies".to_owned()));
        },
    };
    let headers = match lookup(o, "headers") {
        None => Vec::new(),
        Some(JsonValue::Arr(arr)) => match decode_header_list(arr) {
            Ok(x) => x,
            Err(e) => {
                return Err(e);
            },
        },
        Some(_) => {
            return Err(DecodeError::TypeMismatch("response".to_owned(), "headers".to_owned()));
        },
    };
    let content = match lookup(o, "content") {
        None => {
            return Err(DecodeError::MissingField("response".to_owned(), "content".to_owned()));
        },
        Some(cv) => match decode_content_value(cv) {
            Ok(x) => x,
            Err(e) => {
                return Err(e);
            },
        },
    };
    let redirect_url = match get_req_str(o, "response", "redirectURL") {
        Ok(x) => x,
        Err(e) => {
            return Err(e);
        },
    };
    let headers_size = match get_size(o, "response", "headersSize") {
        Ok(x) => x,
        Err(e) => {
            return Err(e);
        },
    };
    let body_size = match get_size(o, "response", "bodySize") {
        Ok(x) => x,
        Err(e) => {
            return Err(e);
        },
    };
    let comment = match get_opt_str(o, "response", "comment") {
        Ok(x) => x,
        Err(e) => {
            return Err(e);
        },
    };
    let x = Response {
        status,
        status_text,
        http_version,
        cookies,
        headers,
        content,
        redirect_url,
        headers_size,
        body_size,
        comment,
    };
    proof {
        assert(spec_dec_response(v@) is Ok);
        assert(spec_dec_response(v@)->Ok_0 =~~= x.deep_view());
    }
    Ok(x)
}

pub fn decode_entry_value(v: &JsonValue) -> (r: Result<Entry, DecodeError>)
    ensures
        match r {
            Ok(x) => spec_dec_entry(v@) == Ok::<EntryV, DecodeErrorV>(x.deep_view()),
            Err(e) => spec_dec_entry(v@) == Err::<EntryV, DecodeErrorV>(e.deep_view()),
        },
{
    let o = match v {
        JsonValue::Obj(o) => o,
        _ => {
            return Err(DecodeError::TypeMismatch("entry".to_owned(), "".to_owned()));
        },
    };
    let pageref = match get_opt_str(o, "entry", "pageref") {
        Ok(x) => x,
        Err(e) => {
            return Err(e);
        },
    };
    let started_date_time = match get_req_str(o, "entry", "startedDateTime") {
        Ok(x) => x,
        Err(e) => {
            return Err(e);
        },
    };
    let request = match lookup(o, "request") {
        None => {
            return Err(DecodeError::MissingField("entry".to_owned(), "request".to_owned()));
        },
        Some(rv) => match decode_request_value(rv) {
            Ok(x) => x,
            Err(e) => {
                return Err(e);
            },
        },
    };
    let response = match lookup(o, "response") {
        None => {
            return Err(DecodeError::MissingField("entry".to_owned(), "response".to_owned()));
        },
        Some(rv) => match decode_response_value(rv) {
            Ok(x) => x,
            Err(e) => {
                return Err(e);
            },
        },
    };
    let cache = match lookup(o, "cache") {
        None => {
            return Err(DecodeError::MissingField("entry".to_owned(), "cache".to_owned()));
        },
        Some(cv) => match decode_cache_value(cv) {
            Ok(x) => x,
            Err(e) => {
                return Err(e);
            },
        },
    };
    let timings = match lookup(o, "timings") {
        None => {
            return Err(DecodeError::MissingField("entry".to_owned(), "timings".to_owned()));
        },
        Some(tv) => match decode_timing_value(tv) {
            Ok(x) => x,
            Err(e) => {
                return Err(e);
            },
        },
    };
    let server_ip_address = match get_opt_str(o, "entry", "serverIPAddress") {
        Ok(x) => x,
        Err(e) => {
            return Err(e);
        },
    };
    let connection = match get_opt_str(o, "entry", "connection") {
        Ok(x) => x,
        Err(e) => {
            return Err(e);
        },
    };
    let comment = match get_opt_str(o, "entry", "comment") {
        Ok(x) => x,
        Err(e) => {
            return Err(e);
        },
    };
    let x = Entry {
        pageref,
        started_date_time,
        request,
        response,
        cache,
        timings,
        server_ip_address,
        connection,
        comment,
    };
    proof {
        assert(spec_dec_entry(v@) is Ok);
        assert(spec_dec_entry(v@)->Ok_0 =~~= x.deep_view());
    }
    Ok(x)
}

pub fn decode_log_value(v: &JsonValue) -> (r: Result<Log, DecodeError>)
    ensures
        match r {
            Ok(x) => spec_dec_log(v@) == Ok::<LogV, DecodeErrorV>(x.deep_view()),
            Err(e) => spec_dec_log(v@) == Err::<LogV, DecodeErrorV>(e.deep_view()),
        },
{
    let o = match v {
        JsonValue::Obj(o) => o,
        _ => {
            return Err(DecodeError::TypeMismatch("log".to_owned(), "".to_owned()));
        },
    };
    let version = match get_req_str(o, "log", "version") {
        Ok(x) => x,
        Err(e) => {
            return Err(e);
        },
    };
    let creator = match lookup(o, "creator") {
        None => {
            return Err(DecodeError::MissingField("log".to_owned(), "creator".to_owned()));
        },
        Some(cv) => match decode_creator_value(cv) {
            Ok(x) => x,
            Err(e) => {
                return Err(e);
            },
        },
    };
    let browser = match lookup(o, "browser") {
        None => None,
        Some(JsonValue::Null) => None,
        Some(bv) => match decode_browser_value(bv) {
            Ok(b) => Some(b),
            Err(e) => {
                return Err(e);
            },
        },
    };
    let pages = match lookup(o, "pages") {
        None => None,
        Some(JsonValue::Null) => None,
        Some(JsonValue::Arr(arr)) => match decode_page_list(arr) {
            Ok(ps) => Some(ps),
            Err(e) => {
                return Err(e);
            },
        },
        Some(_) => {
            return Err(DecodeError::TypeMismatch("log".to_owned(), "pages".to_owned()));
        },
    };
    let entries = match lookup(o, "entries") {
        None => Vec::new(),
        Some(JsonValue::Arr(arr)) => match decode_entry_list(arr) {
            Ok(x) => x,
            Err(e) => {
                return Err(e);
            },
        },
        Some(_) => {
            return Err(DecodeError::TypeMismatch("log".to_owned(), "entries".to_owned()));
        },
    };
    let comment = match get_opt_str(o, "log", "comment") {
        Ok(x) => x,
        Err(e) => {
            return Err(e);
        },
    };
    let x = Log { version, creator, browser, pages, entries, comment };
    proof {
        assert(spec_dec_log(v@) is Ok);
        assert(spec_dec_log(v@)->Ok_0 =~~= x.deep_view());
    }
    Ok(x)
}

} // verus!
