//! Round trips, the special wire encodings at their boundaries, error
//! variants, and end-to-end scenarios over the JSON text layer.

use har::{
    Browser, Cache, CacheEntry, CacheState, Content, Cookie, Creator, DecodeError, Entry, Header,
    Log, OptionalTiming, Page, PageTimings, Param, PostData, QueryStringPair, Request, Response,
    Timing,
};

fn sample_request() -> Request {
    Request {
        method: "GET".to_string(),
        url: "http://www.example.com/".to_string(),
        http_version: "HTTP/1.1".to_string(),
        cookies: vec![Cookie {
            name: "a".to_string(),
            value: "b".to_string(),
            path: Some("/".to_string()),
            domain: None,
            expires: None,
            http_only: Some(true),
            secure: None,
            comment: None,
        }],
        headers: vec![Header {
            name: "Accept".to_string(),
            value: "*/*".to_string(),
            comment: None,
        }],
        query_string: vec![QueryStringPair {
            name: "q".to_string(),
            value: "1".to_string(),
            comment: None,
        }],
        post_data: Some(PostData {
            mime_type: "text/plain".to_string(),
            params: vec![Param {
                name: "p".to_string(),
                value: Some("v".to_string()),
                file_name: None,
                content_type: None,
                comment: None,
            }],
            text: "body".to_string(),
            comment: None,
        }),
        headers_size: Some(120),
        body_size: None,
        comment: Some("req".to_string()),
    }
}

fn sample_response() -> Response {
    Response {
        status: 301,
        status_text: "Moved Permanently".to_string(),
        http_version: "HTTP/1.1".to_string(),
        cookies: Vec::new(),
        headers: Vec::new(),
        content: Content {
            size: 42,
            compression: Some(7),
            mime_type: "text/html".to_string(),
            text: Some("aGVsbG8=".to_string()),
            encoding: Some("base64".to_string()),
            comment: None,
        },
        redirect_url: "http://www.example.com/new".to_string(),
        headers_size: None,
        body_size: Some(0),
        comment: None,
    }
}

fn sample_entry() -> Entry {
    Entry {
        pageref: Some("page_0".to_string()),
        started_date_time: "2009-04-16T12:07:23.596Z".to_string(),
        request: sample_request(),
        response: sample_response(),
        cache: Cache {
            before_request: CacheState::Absent,
            after_request: CacheState::Present(CacheEntry {
                expires: Some("2009-05-01T00:00:00.000Z".to_string()),
                last_access: "2009-04-16T12:00:00.000Z".to_string(),
                e_tag: "etag".to_string(),
                hit_count: 3,
                comment: None,
            }),
            comment: Some("cache".to_string()),
        },
        timings: Timing {
            blocked: OptionalTiming::TimedContent(1),
            dns: OptionalTiming::NotApplicable,
            connect: OptionalTiming::TimedContent(0),
            send: 4,
            wait: 5,
            receive: 6,
            ssl: OptionalTiming::NotApplicable,
            comment: None,
        },
        server_ip_address: Some("10.0.0.1".to_string()),
        connection: None,
        comment: None,
    }
}

fn sample_log() -> Log {
    let mut log = Log::new(
        Some(Browser::new("Firefox".to_string(), "3.6".to_string(), None)),
        Some("a log".to_string()),
    );
    log.add_page(Page::new(
        "2009-04-16T12:07:25.123+01:00".to_string(),
        "page_0".to_string(),
        "Test Page".to_string(),
        PageTimings::new(
            OptionalTiming::TimedContent(1720),
            OptionalTiming::NotApplicable,
            None,
        ),
        None,
    ));
    log.add_entry(sample_entry());
    log
}

#[test]
fn round_trip_cookie() {
    let full = Cookie {
        name: "n".to_string(),
        value: "v".to_string(),
        path: Some("/p".to_string()),
        domain: Some("example.com".to_string()),
        expires: Some("2009-07-24T19:20:30.123+02:00".to_string()),
        http_only: Some(false),
        secure: Some(true),
        comment: Some("c".to_string()),
    };
    assert_eq!(har::decode_cookie(&har::encode_cookie(&full)).unwrap(), full);
    let minimal = Cookie {
        name: "n".to_string(),
        value: "".to_string(),
        path: None,
        domain: None,
        expires: None,
        http_only: None,
        secure: None,
        comment: None,
    };
    assert_eq!(har::decode_cookie(&har::encode_cookie(&minimal)).unwrap(), minimal);
}

#[test]
fn round_trip_creator_and_browser() {
    let c = Creator {
        name: "x".to_string(),
        version: "1".to_string(),
        comment: None,
    };
    assert_eq!(har::decode_creator(&har::encode_creator(&c)).unwrap(), c);
    let b = Browser::new("b".to_string(), "2".to_string(), Some("why".to_string()));
    assert_eq!(har::decode_browser(&har::encode_browser(&b)).unwrap(), b);
}

#[test]
fn round_trip_request() {
    let r = sample_request();
    assert_eq!(har::decode_request(&har::encode_request(&r)).unwrap(), r);
}

#[test]
fn round_trip_response() {
    let r = sample_response();
    assert_eq!(har::decode_response(&har::encode_response(&r)).unwrap(), r);
}

#[test]
fn round_trip_entry() {
    let e = sample_entry();
    assert_eq!(har::decode_entry(&har::encode_entry(&e)).unwrap(), e);
}

#[test]
fn round_trip_log() {
    let l = sample_log();
    assert_eq!(har::decode_log(&har::encode_log(&l)).unwrap(), l);
    let bare = Log::new(None, None);
    assert_eq!(har::decode_log(&har::encode_log(&bare)).unwrap(), bare);
}

#[test]
fn round_trip_cache_all_three_states() {
    let c = Cache {
        before_request: CacheState::Unknown,
        after_request: CacheState::Absent,
        comment: None,
    };
    assert_eq!(har::decode_cache(&har::encode_cache(&c)).unwrap(), c);
    let p = Cache {
        before_request: CacheState::Present(CacheEntry {
            expires: None,
            last_access: "2000-01-01T00:00:00.000Z".to_string(),
            e_tag: "t".to_string(),
            hit_count: 0,
            comment: None,
        }),
        after_request: CacheState::Unknown,
        comment: None,
    };
    assert_eq!(har::decode_cache(&har::encode_cache(&p)).unwrap(), p);
}

#[test]
fn sentinel_not_applicable_encodes_as_minus_one() {
    let t = PageTimings::new(OptionalTiming::NotApplicable, OptionalTiming::TimedContent(5), None);
    let text = har::encode_page_timings(&t);
    let v: serde_json::Value = serde_json::from_str(&text).unwrap();
    assert_eq!(v["onContentLoad"], serde_json::Value::from(-1));
    assert_eq!(v["onLoad"], serde_json::Value::from(5));
}

#[test]
fn sentinel_boundaries_on_decode() {
    let minus_one: PageTimings =
        har::decode_page_timings("{\"onContentLoad\": -1, \"onLoad\": -1}").unwrap();
    assert_eq!(minus_one.on_content_load, OptionalTiming::NotApplicable);
    let zero: PageTimings =
        har::decode_page_timings("{\"onContentLoad\": 0, \"onLoad\": -1}").unwrap();
    assert_eq!(zero.on_content_load, OptionalTiming::TimedContent(0));
    let err = har::decode_page_timings("{\"onContentLoad\": -2, \"onLoad\": -1}").unwrap_err();
    assert!(matches!(err, DecodeError::InvalidTiming(..)));
}

#[test]
fn tri_state_cache_boundaries() {
    let unknown = har::decode_cache("{}").unwrap();
    assert_eq!(unknown.before_request, CacheState::Unknown);
    assert_eq!(unknown.after_request, CacheState::Unknown);
    let absent =
        har::decode_cache("{\"beforeRequest\": null, \"afterRequest\": null}").unwrap();
    assert_eq!(absent.before_request, CacheState::Absent);
    assert_eq!(absent.after_request, CacheState::Absent);
    let mixed = har::decode_cache(
        "{\"beforeRequest\": {\"lastAccess\": \"2000-01-01T00:00:00.000Z\", \"eTag\": \"t\", \"hitCount\": 1}}",
    )
    .unwrap();
    assert!(matches!(mixed.before_request, CacheState::Present(_)));
    assert_eq!(mixed.after_request, CacheState::Unknown);
}

#[test]
fn empty_sequences_encode_as_empty_arrays() {
    let mut r = sample_request();
    r.cookies = Vec::new();
    r.headers = Vec::new();
    r.query_string = Vec::new();
    let v: serde_json::Value = serde_json::from_str(&har::encode_request(&r)).unwrap();
    assert_eq!(v["cookies"], serde_json::Value::Array(Vec::new()));
    assert_eq!(v["headers"], serde_json::Value::Array(Vec::new()));
    assert_eq!(v["queryString"], serde_json::Value::Array(Vec::new()));
}

#[test]
fn fresh_log_has_no_pages_key_until_a_page_is_added() {
    let mut log = Log::new(None, None);
    let v: serde_json::Value = serde_json::from_str(&har::encode_log(&log)).unwrap();
    assert!(v.get("pages").is_none());
    log.add_page(Page::new(
        "2009-04-16T12:07:25.123+01:00".to_string(),
        "page_0".to_string(),
        "Test Page".to_string(),
        PageTimings::new(OptionalTiming::NotApplicable, OptionalTiming::NotApplicable, None),
        None,
    ));
    let v: serde_json::Value = serde_json::from_str(&har::encode_log(&log)).unwrap();
    assert_eq!(v["pages"].as_array().unwrap().len(), 1);
}

#[test]
fn unknown_top_level_key_is_ignored() {
    let plain = "{\"version\": \"1.2\", \"creator\": {\"name\": \"X\", \"version\": \"1\"}, \"entries\": []}";
    let extra = "{\"version\": \"1.2\", \"creator\": {\"name\": \"X\", \"version\": \"1\"}, \"entries\": [], \"time\": 15}";
    assert_eq!(har::decode_log(plain).unwrap(), har::decode_log(extra).unwrap());
    let fractional = "{\"version\": \"1.2\", \"creator\": {\"name\": \"X\", \"version\": \"1\"}, \"entries\": [], \"time\": 12.5}";
    assert_eq!(har::decode_log(plain).unwrap(), har::decode_log(fractional).unwrap());
}

#[test]
fn minimal_log_end_to_end() {
    let text = "{\"version\":\"1.2\",\"creator\":{\"name\":\"X\",\"version\":\"1\"},\"entries\":[]}";
    let log = har::decode_log(text).unwrap();
    assert!(log.browser.is_none());
    assert!(log.pages.is_none());
    assert!(log.comment.is_none());
    assert!(log.entries.is_empty());
    let v: serde_json::Value = serde_json::from_str(&har::encode_log(&log)).unwrap();
    let keys: Vec<&String> = v.as_object().unwrap().keys().collect();
    assert_eq!(keys.len(), 3);
    assert!(v.get("version").is_some());
    assert!(v.get("creator").is_some());
    assert!(v.get("entries").is_some());
    assert!(v.get("browser").is_none());
    assert!(v.get("pages").is_none());
    assert!(v.get("comment").is_none());
    assert_eq!(har::decode_log(&har::encode_log(&log)).unwrap(), log);
}

#[test]
fn missing_mandatory_field_is_reported() {
    let err = har::decode_cookie("{\"name\": \"only\"}").unwrap_err();
    assert_eq!(
        err,
        DecodeError::MissingField("cookie".to_string(), "value".to_string())
    );
}

#[test]
fn wrong_shape_is_reported() {
    let err = har::decode_header("{\"name\": 5, \"value\": \"v\"}").unwrap_err();
    assert_eq!(
        err,
        DecodeError::TypeMismatch("header".to_string(), "name".to_string())
    );
}

#[test]
fn invalid_cache_state_is_reported() {
    let err = har::decode_cache("{\"beforeRequest\": 7}").unwrap_err();
    assert_eq!(
        err,
        DecodeError::InvalidCacheState("cache".to_string(), "beforeRequest".to_string())
    );
}

#[test]
fn malformed_json_is_reported() {
    let err = har::decode_log("not json at all").unwrap_err();
    assert_eq!(err, DecodeError::MalformedJson);
}

#[test]
fn size_minus_one_decodes_as_absent_but_real_sizes_survive() {
    let with_sizes = har::decode_request(
        "{\"method\": \"GET\", \"url\": \"u\", \"httpVersion\": \"h\", \"headersSize\": 150, \"bodySize\": -1}",
    )
    .unwrap();
    assert_eq!(with_sizes.headers_size, Some(150));
    assert_eq!(with_sizes.body_size, None);
    let r = sample_request();
    let v: serde_json::Value = serde_json::from_str(&har::encode_request(&r)).unwrap();
    assert_eq!(v["headersSize"], serde_json::Value::from(120));
    assert!(v.get("bodySize").is_none());
}

#[test]
fn encoding_is_not_the_identity_on_text() {
    let h = Header {
        name: "Accept".to_string(),
        value: "*/*".to_string(),
        comment: None,
    };
    let text = har::encode_header(&h);
    assert_ne!(text, "Accept");
    assert_eq!(har::decode_header(&text).unwrap(), h);
    assert!(har::decode_header("Accept").is_err());
}

#[test]
fn timing_round_trip_covers_both_kinds() {
    let t = Timing {
        blocked: OptionalTiming::TimedContent(0),
        dns: OptionalTiming::NotApplicable,
        connect: OptionalTiming::TimedContent(4294967295),
        send: 4,
        wait: 5,
        receive: 6,
        ssl: OptionalTiming::NotApplicable,
        comment: Some("t".to_string()),
    };
    assert_eq!(har::decode_timing(&har::encode_timing(&t)).unwrap(), t);
}

#[test]
fn duplicate_header_names_are_preserved_in_order() {
    let mut r = sample_request();
    r.headers = vec![
        Header {
            name: "Set-Cookie".to_string(),
            value: "a=1".to_string(),
            comment: None,
        },
        Header {
            name: "Set-Cookie".to_string(),
            value: "b=2".to_string(),
            comment: None,
        },
    ];
    let back = har::decode_request(&har::encode_request(&r)).unwrap();
    assert_eq!(back.headers.len(), 2);
    assert_eq!(back.headers[0].value, "a=1");
    assert_eq!(back.headers[1].value, "b=2");
}

#[test]
fn explicit_null_decodes_as_absent_for_optional_fields() {
    let c = har::decode_cookie(
        "{\"name\": \"n\", \"value\": \"v\", \"path\": null, \"httpOnly\": null}",
    )
    .unwrap();
    assert_eq!(c.path, None);
    assert_eq!(c.http_only, None);
}

#[test]
fn missing_sequence_key_decodes_as_empty() {
    let log = har::decode_log(
        "{\"version\": \"1.2\", \"creator\": {\"name\": \"X\", \"version\": \"1\"}}",
    )
    .unwrap();
    assert!(log.entries.is_empty());
    let r = har::decode_request(
        "{\"method\": \"GET\", \"url\": \"u\", \"httpVersion\": \"h\"}",
    )
    .unwrap();
    assert!(r.cookies.is_empty() && r.headers.is_empty() && r.query_string.is_empty());
}
