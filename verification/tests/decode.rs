//! Decode scenarios: each entity from its JSON text, with and
//! without its optional fields.

use har::{
    Browser, Cache, CacheEntry, CacheState, Content, Cookie, Creator, Entry, Header, Log,
    OptionalTiming, Page, PageTimings, Param, PostData, QueryStringPair, Request, Response, Timing,
};

#[test]
    fn test_log() {
        let mut log = Log::new(
            Some(Browser::new("Firefox".to_string(), "3.6".to_string(), None)),
            Some("Comment".to_string())
        );
        log.add_page(Page::new(
            "2009-04-16T12:07:25.123+01:00".to_string(),
            "page_0".to_string(),
            "Test Page".to_string(),
            PageTimings::new(OptionalTiming::NotApplicable, OptionalTiming::NotApplicable, None),
            None
        ));
        log.add_entry(Entry {
            pageref: Some("page_0".to_string()),
            started_date_time: "2009-04-16T12:07:23.596Z".to_string(),
            request: Request {
                method: "GET".to_string(),
                url: "http://www.example.com/path/?param=value".to_string(),
                http_version: "HTTP/1.1".to_string(),
                cookies: Vec::new(),
                headers: Vec::new(),
                query_string: Vec::new(),
                post_data: None,
                headers_size: None,
                body_size: None,
                comment: None,
            },
            response: Response {
                status: 200,
                status_text: "OK".to_string(),
                http_version: "HTTP/1.1".to_string(),
                cookies: Vec::new(),
                headers: Vec::new(),
                content: Content {
                    size: 100,
                    compression: None,
                    mime_type: "text/html; charset=utf8".to_string(),
                    text: None,
                    encoding: None,
                    comment: None
                },
                redirect_url: "".to_string(),
                headers_size: None,
                body_size: None,
                comment: None,
            },
            cache: Cache {
                before_request: CacheState::Unknown,
                after_request: CacheState::Unknown,
                comment: None
            },
            timings: Timing {
                blocked: OptionalTiming::NotApplicable,
                dns: OptionalTiming::NotApplicable,
                connect: OptionalTiming::NotApplicable,
                send: 4,
                wait: 5,
                receive: 6,
                ssl: OptionalTiming::NotApplicable,
                comment: None,
            },
            server_ip_address: None,
            connection: None,
            comment: None
        });
        let log_json = "{
                            \"version\": \"1.2\",
                            \"creator\": {
                                \"name\": \"Rust-HAR\",
                                \"version\": \"0.0.4\"
                            },
                            \"browser\": {
                                \"name\": \"Firefox\",
                                \"version\": \"3.6\"
                            },
                            \"pages\": [
                                {
                                    \"startedDateTime\": \"2009-04-16T12:07:25.123+01:00\",
                                    \"id\": \"page_0\",
                                    \"title\": \"Test Page\",
                                    \"pageTimings\": {
                                        \"onContentLoad\": -1,
                                        \"onLoad\": -1
                                    }
                                }
                            ],
                            \"entries\": [
                                {
                                    \"pageref\": \"page_0\",
                                    \"startedDateTime\": \"2009-04-16T12:07:23.596Z\",
                                    \"request\": {
                                        \"method\": \"GET\",
                                        \"url\": \"http://www.example.com/path/?param=value\",
                                        \"httpVersion\": \"HTTP/1.1\",
                                        \"cookies\": [],
                                        \"headers\": [],
                                        \"queryString\": [],
                                        \"headersSize\": -1,
                                        \"bodySize\": -1
                                    },
                                    \"response\": {
                                        \"status\": 200,
                                        \"statusText\": \"OK\",
                                        \"httpVersion\": \"HTTP/1.1\",
                                        \"cookies\": [],
                                        \"headers\": [],
                                        \"content\": {
                                            \"size\": 100,
                                            \"mimeType\": \"text/html; charset=utf8\"
                                        },
                                        \"redirectURL\": \"\",
                                        \"headersSize\": -1,
                                        \"bodySize\": -1
                                    },
                                    \"cache\": {},
                                    \"time\": 15,
                                    \"timings\": {
                                         \"blocked\": -1,
                                         \"dns\": -1,
                                         \"connect\": -1,
                                         \"send\": 4,
                                         \"wait\": 5,
                                         \"receive\": 6,
                                         \"ssl\": -1
                                    }
                                }
                            ],
                            \"comment\": \"Comment\"
                        }";
		let log_from_str: Log = har::decode_log(log_json).unwrap();
        assert_eq!( log_from_str, log );
    }


    #[test]
    fn test_log_no_optional() {
        let log = Log::new(None, None);
        let log_json = "{
                            \"version\": \"1.2\",
                            \"creator\": {
                                \"name\": \"Rust-HAR\",
                                \"version\": \"0.0.4\"
                            },
                            \"entries\": []
                        }";
        let log_from_str: Log = har::decode_log(log_json).unwrap();
        assert_eq!( log_from_str, log );
    }

    #[test]
    fn test_creator() {
        let creator = Creator {
            name: "Firebug".to_string(),
            version: "1.6".to_string(),
            comment: Some("Comment".to_string())
        };
        let creator_json = "{
                                \"name\": \"Firebug\",
                                \"version\": \"1.6\",
                                \"comment\": \"Comment\"
                            }";
        let creator_from_str: Creator = har::decode_creator(creator_json).unwrap();
        assert_eq!( creator_from_str, creator );
    }

    #[test]
    fn test_creator_no_optional() {
        let creator = Creator {
            name: "Firebug".to_string(),
            version: "1.6".to_string(),
            comment: None
        };
        let creator_json = "{
                                \"name\": \"Firebug\",
                                \"version\": \"1.6\"
                            }";
        let creator_from_str: Creator = har::decode_creator(creator_json).unwrap();
        assert_eq!( creator_from_str, creator );
    }

    #[test]
    fn test_browser() {
        let browser = Browser::new("Firefox".to_string(), "3.6".to_string(),
                                   Some("Comment".to_string()));
        let browser_json = "{
                                \"name\": \"Firefox\",
                                \"version\": \"3.6\",
                                \"comment\": \"Comment\"
                            }";

        let browser_from_str: Browser = har::decode_browser(browser_json).unwrap();
        assert_eq!( browser_from_str, browser );
    }

    #[test]
    fn test_browser_no_optional() {
        let browser = Browser::new("Firefox".to_string(), "3.6".to_string(), None);
        let browser_json = "{
                                \"name\": \"Firefox\",
                                \"version\": \"3.6\"
                            }";
        let browser_from_str: Browser = har::decode_browser(browser_json).unwrap();
        assert_eq!( browser_from_str, browser );
    }

    #[test]
    fn test_page() {
        let page = Page::new(
            "2009-04-16T12:07:25.123+01:00".to_string(),
            "page_0".to_string(),
            "Test Page".to_string(),
            PageTimings::new(OptionalTiming::NotApplicable, OptionalTiming::NotApplicable, None),
            Some("Comment".to_string())
        );
        let page_json = "{
                             \"startedDateTime\": \"2009-04-16T12:07:25.123+01:00\",
                             \"id\": \"page_0\",
                             \"title\": \"Test Page\",
                             \"pageTimings\": {
                                 \"onContentLoad\": -1,
                                 \"onLoad\": -1
                             },
                             \"comment\": \"Comment\"
                         }";
        let page_from_str: Page = har::decode_page(page_json).unwrap();
        assert_eq!( page_from_str, page );
    }

    #[test]
    fn test_page_no_optional() {
        let page = Page::new(
            "2009-04-16T12:07:25.123+01:00".to_string(),
            "page_0".to_string(),
            "Test Page".to_string(),
            PageTimings::new(OptionalTiming::NotApplicable, OptionalTiming::NotApplicable, None),
            None
        );
        let page_json = "{
                             \"startedDateTime\": \"2009-04-16T12:07:25.123+01:00\",
                             \"id\": \"page_0\",
                             \"title\": \"Test Page\",
                             \"pageTimings\": {
                                 \"onContentLoad\": -1,
                                 \"onLoad\": -1
                             }
                         }";
        let page_from_str: Page = har::decode_page(page_json).unwrap();
        assert_eq!( page_from_str, page );
    }

    #[test]
    fn test_page_timings() {
        let page_timings = PageTimings::new(OptionalTiming::TimedContent(1720),
                                            OptionalTiming::TimedContent(2500),
                                            Some("Comment".to_string()));
        let page_timings_json = "{
                                     \"onContentLoad\": 1720,
                                     \"onLoad\": 2500,
                                     \"comment\": \"Comment\"
                                 }";
        let page_timings_from_str: PageTimings = har::decode_page_timings(page_timings_json).unwrap();
        assert_eq!(page_timings_from_str, page_timings );
    }

    #[test]
    fn test_page_timings_no_optional() {
        let page_timings = PageTimings::new(OptionalTiming::NotApplicable, OptionalTiming::NotApplicable, None);
        let page_timings_json = "{
                                     \"onContentLoad\": -1,
                                     \"onLoad\": -1
                                 }";
        let page_timings_from_str: PageTimings = har::decode_page_timings(page_timings_json).unwrap();
        assert_eq!(page_timings_from_str, page_timings );
    }

    #[test]
    fn test_entry() {
        let entry = Entry {
            pageref: Some("page_0".to_string()),
            started_date_time: "2009-04-16T12:07:23.596Z".to_string(),
            request: Request {
                method: "GET".to_string(),
                url: "http://www.example.com/path/?param=value".to_string(),
                http_version: "HTTP/1.1".to_string(),
                cookies: Vec::new(),
                headers: Vec::new(),
                query_string: Vec::new(),
                post_data: None,
                headers_size: None,
                body_size: None,
                comment: None,
            },
            response: Response {
                status: 200,
                status_text: "OK".to_string(),
                http_version: "HTTP/1.1".to_string(),
                cookies: Vec::new(),
                headers: Vec::new(),
                content: Content {
                    size: 100,
                    compression: None,
                    mime_type: "text/html; charset=utf8".to_string(),
                    text: None,
                    encoding: None,
                    comment: None
                },
                redirect_url: "".to_string(),
                headers_size: None,
                body_size: None,
                comment: None,
            },
            cache: Cache {
                before_request: CacheState::Unknown,
                after_request: CacheState::Unknown,
                comment: None
            },
            timings: Timing {
                blocked: OptionalTiming::TimedContent(1),
                dns: OptionalTiming::TimedContent(2),
                connect: OptionalTiming::TimedContent(3),
                send: 4,
                wait: 5,
                receive: 6,
                ssl: OptionalTiming::TimedContent(7),
                comment: None,
            },
            server_ip_address: Some("10.0.0.1".to_string()),
            connection: Some("52492".to_string()),
            comment: Some("Comment".to_string())
        };
        let entry_json = "{
                              \"pageref\": \"page_0\",
                              \"startedDateTime\": \"2009-04-16T12:07:23.596Z\",
                              \"request\": {
                                  \"method\": \"GET\",
                                  \"url\": \"http://www.example.com/path/?param=value\",
                                  \"httpVersion\": \"HTTP/1.1\",
                                  \"cookies\": [],
                                  \"headers\": [],
                                  \"queryString\": [],
                                  \"headersSize\": -1,
                                  \"bodySize\": -1
                              },
                              \"response\": {
                                  \"status\": 200,
                                  \"statusText\": \"OK\",
                                  \"httpVersion\": \"HTTP/1.1\",
                                  \"cookies\": [],
                                  \"headers\": [],
                                  \"content\": {
                                      \"size\": 100,
                                      \"mimeType\": \"text/html; charset=utf8\"
                                  },
                                  \"redirectURL\": \"\",
                                  \"headersSize\": -1,
                                  \"bodySize\": -1
                              },
                              \"cache\": {},
                              \"time\": 28,
                              \"timings\": {
                                   \"blocked\": 1,
                                   \"dns\": 2,
                                   \"connect\": 3,
                                   \"send\": 4,
                                   \"wait\": 5,
                                   \"receive\": 6,
                                   \"ssl\": 7
                              },
                              \"serverIPAddress\": \"10.0.0.1\",
                              \"connection\": \"52492\",
                              \"comment\": \"Comment\"
                          }";
        let entry_from_str: Entry = har::decode_entry(entry_json).unwrap();
        assert_eq!(entry_from_str, entry );
    }

    #[test]
    fn test_entry_no_optional() {
        let entry = Entry {
            pageref: None,
            started_date_time: "2009-04-16T12:07:23.596Z".to_string(),
            request: Request {
                method: "GET".to_string(),
                url: "http://www.example.com/path/?param=value".to_string(),
                http_version: "HTTP/1.1".to_string(),
                cookies: Vec::new(),
                headers: Vec::new(),
                query_string: Vec::new(),
                post_data: None,
                headers_size: None,
                body_size: None,
                comment: None,
            },
            response: Response {
                status: 200,
                status_text: "OK".to_string(),
                http_version: "HTTP/1.1".to_string(),
                cookies: Vec::new(),
                headers: Vec::new(),
                content: Content {
                    size: 100,
                    compression: None,
                    mime_type: "text/html; charset=utf8".to_string(),
                    text: None,
                    encoding: None,
                    comment: None
                },
                redirect_url: "".to_string(),
                headers_size: None,
                body_size: None,
                comment: None,
            },
            cache: Cache {
                before_request: CacheState::Unknown,
                after_request: CacheState::Unknown,
                comment: None
            },
            timings: Timing {
                blocked: OptionalTiming::NotApplicable,
                dns: OptionalTiming::NotApplicable,
                connect: OptionalTiming::NotApplicable,
                send: 4,
                wait: 5,
                receive: 6,
                ssl: OptionalTiming::NotApplicable,
                comment: None,
            },
            server_ip_address: None,
            connection: None,
            comment: None
        };
        let entry_json = "{
                              \"startedDateTime\": \"2009-04-16T12:07:23.596Z\",
                              \"request\": {
                                  \"method\": \"GET\",
                                  \"url\": \"http://www.example.com/path/?param=value\",
                                  \"httpVersion\": \"HTTP/1.1\",
                                  \"cookies\": [],
                                  \"headers\": [],
                                  \"queryString\": [],
                                  \"headersSize\": -1,
                                  \"bodySize\": -1
                              },
                              \"response\": {
                                  \"status\": 200,
                                  \"statusText\": \"OK\",
                                  \"httpVersion\": \"HTTP/1.1\",
                                  \"cookies\": [],
                                  \"headers\": [],
                                  \"content\": {
                                      \"size\": 100,
                                      \"mimeType\": \"text/html; charset=utf8\"
                                  },
                                  \"redirectURL\": \"\",
                                  \"headersSize\": -1,
                                  \"bodySize\": -1
                              },
                              \"cache\": {},
                              \"time\": 15,
                              \"timings\": {
                                   \"blocked\": -1,
                                   \"dns\": -1,
                                   \"connect\": -1,
                                   \"send\": 4,
                                   \"wait\": 5,
                                   \"receive\": 6,
                                   \"ssl\": -1
                              }
                          }";
        let entry_from_str: Entry = har::decode_entry(entry_json).unwrap();
        assert_eq!(entry_from_str, entry );
        
    }

    #[test]
    fn test_request() {
        let request = Request {
            method: "GET".to_string(),
            url: "http://www.example.com/path/?param=value".to_string(),
            http_version: "HTTP/1.1".to_string(),
            cookies: vec![ Cookie {
                name: "TestCookie".to_string(),
                value: "Cookie Value".to_string(),
                path: None,
                domain: None,
                expires: None,
                http_only: None,
                secure: None,
                comment: None
            }],
            headers: vec![ Header {
                name: "Accept-Encoding".to_string(),
                value: "gzip,deflate".to_string(),
                comment: None
            }],
            query_string: vec![QueryStringPair {
                name: "param1".to_string(),
                value: "value1".to_string(),
                comment: None
            }],
            post_data: Some(PostData {
                mime_type: "multipart/form-data".to_string(),
                params: Vec::new(),
                text: "plain posted data".to_string(),
                comment: None
            }),
            headers_size: Some(150),
            body_size: Some(0),
            comment: Some("Comment".to_string())
        };
        let request_json = "{
                                \"method\": \"GET\",
                                \"url\": \"http://www.example.com/path/?param=value\",
                                \"httpVersion\": \"HTTP/1.1\",
                                \"cookies\": [{
                                    \"name\": \"TestCookie\",
                                    \"value\": \"Cookie Value\"
                                }],
                                \"headers\": [
                                    {
                                        \"name\": \"Accept-Encoding\",
                                        \"value\": \"gzip,deflate\"
                                    }
                                ],
                                \"queryString\": [
                                    {
                                          \"name\": \"param1\",
                                          \"value\": \"value1\"
                                    }
                                ],
                                \"postData\": {
                                    \"mimeType\": \"multipart/form-data\",
                                    \"params\": [],
                                    \"text\": \"plain posted data\"
                                },
                                \"headersSize\": 150,
                                \"bodySize\": 0,
                                \"comment\": \"Comment\"
                            }";
        let request_from_str: Request = har::decode_request(request_json).unwrap();
        assert_eq!(request_from_str, request );
    }

    #[test]
    fn test_request_no_optional() {
        let request = Request {
            method: "GET".to_string(),
            url: "http://www.example.com/path/?param=value".to_string(),
            http_version: "HTTP/1.1".to_string(),
            cookies: Vec::new(),
            headers: Vec::new(),
            query_string: Vec::new(),
            post_data: None,
            headers_size: None,
            body_size: None,
            comment: None,
        };
        let request_json = "{
                                \"method\": \"GET\",
                                \"url\": \"http://www.example.com/path/?param=value\",
                                \"httpVersion\": \"HTTP/1.1\",
                                \"cookies\": [],
                                \"headers\": [],
                                \"queryString\": [],
                                \"headersSize\": -1,
                                \"bodySize\": -1
                            }";
        let request_from_str: Request = har::decode_request(request_json).unwrap();
        assert_eq!(request_from_str, request );
    }

    #[test]
    fn test_response() {
        let response = Response {
            status: 200,
            status_text: "OK".to_string(),
            http_version: "HTTP/1.1".to_string(),
            cookies: Vec::new(),
            headers: Vec::new(),
            content: Content {
                size: 100,
                compression: None,
                mime_type: "text/html; charset=utf8".to_string(),
                text: None,
                encoding: None,
                comment: None
            },
            redirect_url: "".to_string(),
            headers_size: Some(160),
            body_size: Some(850),
            comment: Some("".to_string()),
        };
        let response_json = "{
                                \"status\": 200,
                                \"statusText\": \"OK\",
                                \"httpVersion\": \"HTTP/1.1\",
                                \"cookies\": [],
                                \"headers\": [],
                                \"content\": {
                                    \"size\": 100,
                                    \"mimeType\": \"text/html; charset=utf8\"
                                },
                                \"redirectURL\": \"\",
                                \"headersSize\" : 160,
                                \"bodySize\" : 850,
                                \"comment\" : \"\"
                            }";
        let response_from_str: Response = har::decode_response(response_json).unwrap();
        assert_eq!(response_from_str, response );
    }

    #[test]
    fn test_response_no_optional() {
        let response = Response {
            status: 200,
            status_text: "OK".to_string(),
            http_version: "HTTP/1.1".to_string(),
            cookies: Vec::new(),
            headers: Vec::new(),
            content: Content {
                size: 100,
                compression: None,
                mime_type: "text/html; charset=utf8".to_string(),
                text: None,
                encoding: None,
                comment: None
            },
            redirect_url: "".to_string(),
            headers_size: None,
            body_size: None,
            comment: None,
        };
        let response_json = "{
                                \"status\": 200,
                                \"statusText\": \"OK\",
                                \"httpVersion\": \"HTTP/1.1\",
                                \"cookies\": [],
                                \"headers\": [],
                                \"content\": {
                                    \"size\": 100,
                                    \"mimeType\": \"text/html; charset=utf8\"
                                },
                                \"redirectURL\": \"\",
                                \"headersSize\" : -1,
                                \"bodySize\" : -1
                            }";
        let response_from_str: Response = har::decode_response(response_json).unwrap();
        assert_eq!(response_from_str, response );
    }

    #[test]
    fn test_cookie() {
        let cookie = Cookie {
            name: "TestCookie".to_string(),
            value: "Cookie Value".to_string(),
            path: Some("/".to_string()),
            domain: Some("www.janodvarko.cz".to_string()),
            expires: Some("2009-07-24T19:20:30.123+02:00".to_string()),
            http_only: Some(false),
            secure: Some(false),
            comment: Some("".to_string()),
        };
        let cookie_json = "{
                               \"name\": \"TestCookie\",
                               \"value\": \"Cookie Value\",
                               \"path\": \"/\",
                               \"domain\": \"www.janodvarko.cz\",
                               \"expires\": \"2009-07-24T19:20:30.123+02:00\",
                               \"httpOnly\": false,
                               \"secure\": false,
                               \"comment\": \"\"
                           }";
        let cookie_from_str: Cookie = har::decode_cookie(cookie_json).unwrap();
        assert_eq!(cookie_from_str, cookie );
    }

    #[test]
    fn test_cookie_no_optional() {
        let cookie = Cookie {
            name: "TestCookie".to_string(),
            value: "Cookie Value".to_string(),
            path: None,
            domain: None,
            expires: None,
            http_only: None,
            secure: None,
            comment: None
        };
        let cookie_json = "{
                               \"name\": \"TestCookie\",
                               \"value\": \"Cookie Value\"
                           }";
        let cookie_from_str: Cookie = har::decode_cookie(cookie_json).unwrap();
        assert_eq!(cookie_from_str, cookie );
    }

    #[test]
    fn test_header() {
        let header = Header {
            name: "Accept-Encoding".to_string(),
            value: "gzip,deflate".to_string(),
            comment: Some("Comment".to_string())
        };
        let header_json = "{
                               \"name\": \"Accept-Encoding\",
                               \"value\": \"gzip,deflate\",
                               \"comment\": \"Comment\"
                           }";
        let header_from_str: Header = har::decode_header(header_json).unwrap();
        assert_eq!(header_from_str, header );
    }

    #[test]
    fn test_header_no_optional() {
        let header = Header {
            name: "Accept-Encoding".to_string(),
            value: "gzip,deflate".to_string(),
            comment: None
        };
        let header_json = "{
                               \"name\": \"Accept-Encoding\",
                               \"value\": \"gzip,deflate\"
                           }";
        let header_from_str: Header = har::decode_header(header_json).unwrap();
        assert_eq!(header_from_str, header );
    }

    #[test]
    fn test_query_string_pair() {
        let query_string_pair = QueryStringPair {
            name: "param1".to_string(),
            value: "value1".to_string(),
            comment: Some("Comment".to_string())
        };
        let query_string_pair_json = "{
                                          \"name\": \"param1\",
                                          \"value\": \"value1\",
                                          \"comment\": \"Comment\"
                                      }";
        let query_string_pair_from_str: QueryStringPair = har::decode_query_string_pair(query_string_pair_json).unwrap();
        assert_eq!(query_string_pair_from_str, query_string_pair );
    }

    #[test]
    fn test_query_string_pair_no_optional() {
        let query_string_pair = QueryStringPair {
            name: "param1".to_string(),
            value: "value1".to_string(),
            comment: None
        };
        let query_string_pair_json = "{
                                          \"name\": \"param1\",
                                          \"value\": \"value1\"
                                      }";
        let query_string_pair_from_str: QueryStringPair = har::decode_query_string_pair(query_string_pair_json).unwrap();
        assert_eq!(query_string_pair_from_str, query_string_pair );
    }

    #[test]
    fn test_post_data() {
        let post_data = PostData {
            mime_type: "multipart/form-data".to_string(),
            params: vec![Param {
                name: "paramName".to_string(),
                value: None,
                file_name: None,
                content_type: None,
                comment: None
            }],
            text: "plain posted data".to_string(),
            comment: Some("Comment".to_string())
        };
        let post_data_json = "{
                                  \"mimeType\": \"multipart/form-data\",
                                  \"params\": [
                                      {
                                          \"name\": \"paramName\"
                                      }
                                  ],
                                  \"text\": \"plain posted data\",
                                  \"comment\": \"Comment\"
                              }";
        let post_data_from_str: PostData = har::decode_post_data(post_data_json).unwrap();
        assert_eq!(post_data_from_str, post_data );
    }

    #[test]
    fn test_post_data_no_optional() {
        let post_data = PostData {
            mime_type: "multipart/form-data".to_string(),
            params: Vec::new(),
            text: "plain posted data".to_string(),
            comment: None
        };
        let post_data_json = "{
                                  \"mimeType\": \"multipart/form-data\",
                                  \"params\": [],
                                  \"text\": \"plain posted data\"
                              }";
        let post_data_from_str: PostData = har::decode_post_data(post_data_json).unwrap();
        assert_eq!(post_data_from_str, post_data );
    }

    #[test]
    fn test_param() {
        let param = Param {
            name: "paramName".to_string(),
            value: Some("paramValue".to_string()),
            file_name: Some("example.pdf".to_string()),
            content_type: Some("application/pdf".to_string()),
            comment: Some("Comment".to_string())
        };
        let param_json = "{
                              \"name\": \"paramName\",
                              \"value\": \"paramValue\",
                              \"fileName\": \"example.pdf\",
                              \"contentType\": \"application/pdf\",
                              \"comment\": \"Comment\"
                          }";
        let param_from_str: Param = har::decode_param(param_json).unwrap();
        assert_eq!(param_from_str, param );
    }

    #[test]
    fn test_param_no_optional() {
        let param = Param {
            name: "paramName".to_string(),
            value: None,
            file_name: None,
            content_type: None,
            comment: None
        };
        let param_json = "{
                              \"name\": \"paramName\"
                          }";
        let param_from_str: Param = har::decode_param(param_json).unwrap();
        assert_eq!(param_from_str, param );
    }

    #[test]
    fn test_content() {
        let content = Content {
            size: 100,
            compression: Some(0),
            mime_type: "text/html; charset=utf8".to_string(),
            text: Some("\n".to_string()),
            encoding: Some("base64".to_string()),
            comment: Some("Comment".to_string())
        };
        let content_json = "{
                                \"size\": 100,
                                \"compression\": 0,
                                \"mimeType\": \"text/html; charset=utf8\",
                                \"text\": \"\\n\",
                                \"encoding\": \"base64\",
                                \"comment\": \"Comment\"
                            }";
        let content_from_str: Content = har::decode_content(content_json).unwrap();
        assert_eq!(content_from_str, content );
    }

    #[test]
    fn test_content_no_optional() {
        let content = Content {
            size: 100,
            compression: None,
            mime_type: "text/html; charset=utf8".to_string(),
            text: None,
            encoding: None,
            comment: None
        };
        let content_json = "{
                                \"size\": 100,
                                \"mimeType\": \"text/html; charset=utf8\"
                            }";
        let content_from_str: Content = har::decode_content(content_json).unwrap();
        assert_eq!(content_from_str, content );
    }

    #[test]
    fn test_cache() {
        let cache = Cache {
            before_request: CacheState::Present(CacheEntry {
                expires: None,
                last_access: "2000-01-01T00:00:00.000Z".to_string(),
                e_tag: "123456789".to_string(),
                hit_count: 42,
                comment: None
            }),
            after_request: CacheState::Present(CacheEntry {
                expires: None,
                last_access: "2000-02-01T00:00:00.000Z".to_string(),
                e_tag: "987654321".to_string(),
                hit_count: 24,
                comment: None
            }),
            comment: Some("Comment".to_string())
        };
        let cache_json = "{
                              \"beforeRequest\": {
                                  \"lastAccess\": \"2000-01-01T00:00:00.000Z\",
                                  \"eTag\": \"123456789\",
                                  \"hitCount\": 42
                              },
                              \"afterRequest\": {
                                  \"lastAccess\": \"2000-02-01T00:00:00.000Z\",
                                  \"eTag\": \"987654321\",
                                  \"hitCount\": 24
                              },
                              \"comment\": \"Comment\"
                          }";
        let cache_from_str: Cache = har::decode_cache(cache_json).unwrap();
        assert_eq!(cache_from_str, cache );
    }

    #[test]
    fn test_cache_absent_entries() {
        let cache = Cache {
            before_request: CacheState::Absent,
            after_request: CacheState::Absent,
            comment: None
        };
        let cache_json = "{
                              \"beforeRequest\": null,
                              \"afterRequest\": null
                          }";
        let cache_from_str: Cache = har::decode_cache(cache_json).unwrap();
        assert_eq!(cache_from_str, cache );
    }

    #[test]
    fn test_cache_unknown_entries() {
        let cache = Cache {
            before_request: CacheState::Unknown,
            after_request: CacheState::Unknown,
            comment: None
        };
        let cache_json = "{}";
        let cache_from_str: Cache = har::decode_cache(cache_json).unwrap();
        assert_eq!(cache_from_str, cache );
    }


    #[test]
    fn test_cache_entry() {
        let cache_entry = CacheEntry {
            expires: Some("2000-02-01T00:00:00.000Z".to_string()),
            last_access: "2000-01-01T00:00:00.000Z".to_string(),
            e_tag: "123456789".to_string(),
            hit_count: 42,
            comment: Some("Comment".to_string())
        };
        let cache_entry_json = "{
                                    \"expires\": \"2000-02-01T00:00:00.000Z\",
                                    \"lastAccess\": \"2000-01-01T00:00:00.000Z\",
                                    \"eTag\": \"123456789\",
                                    \"hitCount\": 42,
                                    \"comment\": \"Comment\"
                                }";
        let cache_entry_from_str: CacheEntry = har::decode_cache_entry(cache_entry_json).unwrap();
        assert_eq!(cache_entry_from_str, cache_entry );
    }

    #[test]
    fn test_cache_entry_no_optional() {
        let cache_entry = CacheEntry {
            expires: None,
            last_access: "2000-01-01T00:00:00.000Z".to_string(),
            e_tag: "123456789".to_string(),
            hit_count: 42,
            comment: None
        };
        let cache_entry_json = "{
                                    \"lastAccess\": \"2000-01-01T00:00:00.000Z\",
                                    \"eTag\": \"123456789\",
                                    \"hitCount\": 42
                                }";
        let cache_entry_from_str: CacheEntry = har::decode_cache_entry(cache_entry_json).unwrap();
        assert_eq!(cache_entry_from_str, cache_entry );
    }
    #[test]
    fn test_timing() {
        let timing = Timing {
            blocked: OptionalTiming::TimedContent(1),
            dns: OptionalTiming::TimedContent(2),
            connect: OptionalTiming::TimedContent(3),
            send: 4,
            wait: 5,
            receive: 6,
            ssl: OptionalTiming::TimedContent(7),
            comment: Some("Comment".to_string()),
        };
        let timing_json = "{
                                \"blocked\": 1,
                                \"dns\": 2,
                                \"connect\": 3,
                                \"send\": 4,
                                \"wait\": 5,
                                \"receive\": 6,
                                \"ssl\": 7,
                                \"comment\":\"Comment\"
                           }";
        let timing_from_str: Timing = har::decode_timing(timing_json).unwrap();
        assert_eq!(timing_from_str, timing );
    }

    #[test]
    fn test_timing_no_optional() {
        let timing = Timing {
            blocked: OptionalTiming::NotApplicable,
            dns: OptionalTiming::NotApplicable,
            connect: OptionalTiming::NotApplicable,
            send: 4,
            wait: 5,
            receive: 6,
            ssl: OptionalTiming::NotApplicable,
            comment: None,
        };
        let timing_json = "{
                                \"blocked\": -1,
                                \"dns\": -1,
                                \"connect\": -1,
                                \"send\": 4,
                                \"wait\": 5,
                                \"receive\": 6,
                                \"ssl\": -1
                           }";
        let timing_from_str: Timing = har::decode_timing(timing_json).unwrap();
        assert_eq!(timing_from_str, timing );
    }
