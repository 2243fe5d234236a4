//! The HAR document model: a tree of owned value types rooted at [`Log`].
//!
//! Every entity is a plain data container. Each exec type has a ghost
//! counterpart (its *view*, reached through `deep_view`) over which the codec
//! contracts are stated: `String` becomes `Seq<char>`, `Vec` becomes `Seq`,
//! and nested entities become their own views.

use vstd::prelude::*;

verus! {

/// A timing value which is either a concrete non-negative duration in
/// milliseconds or not applicable to the request. On the wire the latter is
/// the sentinel number `-1`.
#[derive(Debug, PartialEq, Eq, Clone, Copy)]
pub enum OptionalTiming {
    TimedContent(u32),
    NotApplicable,
}

/// The state of a cache entry before or after a request.
///
/// Three states, not two: on the wire `Unknown` omits the key, `Absent`
/// writes an explicit `null`, and `Present` writes the entry object.
#[derive(Debug, PartialEq)]
pub enum CacheState {
    Absent,
    Present(CacheEntry),
    Unknown,
}

/// Ghost form of [`CacheState`].
#[verifier::ext_equal]
pub enum CacheStateV {
    Absent,
    Present(CacheEntryV),
    Unknown,
}

/// One browser cache entry.
#[derive(Debug, PartialEq)]
pub struct CacheEntry {
    /// Expiration time of the cache entry.
    pub expires: Option<String>,
    /// The last time the cache entry was opened.
    pub last_access: String,
    /// Etag.
    pub e_tag: String,
    /// The number of times the cache entry has been opened.
    pub hit_count: i32,
    /// A comment provided by the user or the application.
    pub comment: Option<String>,
}

/// Ghost form of [`CacheEntry`].
#[verifier::ext_equal]
pub struct CacheEntryV {
    pub expires: Option<Seq<char>>,
    pub last_access: Seq<char>,
    pub e_tag: Seq<char>,
    pub hit_count: i32,
    pub comment: Option<Seq<char>>,
}

/// Info about cache usage around one request.
#[derive(Debug, PartialEq)]
pub struct Cache {
    /// State of the cache entry before the request.
    pub before_request: CacheState,
    /// State of the cache entry after the request.
    pub after_request: CacheState,
    /// A comment provided by the user or the application.
    pub comment: Option<String>,
}

/// Ghost form of [`Cache`].
#[verifier::ext_equal]
pub struct CacheV {
    pub before_request: CacheStateV,
    pub after_request: CacheStateV,
    pub comment: Option<Seq<char>>,
}

/// Timing phases of one request/response round trip, in milliseconds.
///
/// `send`, `wait` and `receive` are always meaningful; the other four may not
/// apply to a given request.
#[derive(Debug, PartialEq)]
pub struct Timing {
    /// Time spent waiting for a network connection.
    pub blocked: OptionalTiming,
    /// DNS resolution time.
    pub dns: OptionalTiming,
    /// Time required to create the TCP connection.
    pub connect: OptionalTiming,
    /// Time required to send the HTTP request to the server.
    pub send: u32,
    /// Time spent waiting for a response from the server.
    pub wait: u32,
    /// Time required to read the entire response.
    pub receive: u32,
    /// Time required for SSL/TLS negotiation.
    pub ssl: OptionalTiming,
    /// A comment provided by the user or the application.
    pub comment: Option<String>,
}

/// Ghost form of [`Timing`].
#[verifier::ext_equal]
pub struct TimingV {
    pub blocked: OptionalTiming,
    pub dns: OptionalTiming,
    pub connect: OptionalTiming,
    pub send: u32,
    pub wait: u32,
    pub receive: u32,
    pub ssl: OptionalTiming,
    pub comment: Option<Seq<char>>,
}

/// One cookie, as used in requests and responses.
#[derive(Debug, PartialEq)]
pub struct Cookie {
    /// The name of the cookie.
    pub name: String,
    /// The cookie value.
    pub value: String,
    /// The path pertaining to the cookie.
    pub path: Option<String>,
    /// The host of the cookie.
    pub domain: Option<String>,
    /// Cookie expiration time.
    pub expires: Option<String>,
    /// True if the cookie is HTTP only.
    pub http_only: Option<bool>,
    /// True if the cookie was transmitted over SSL.
    pub secure: Option<bool>,
    /// A comment provided by the user or the application.
    pub comment: Option<String>,
}

/// Ghost form of [`Cookie`].
#[verifier::ext_equal]
pub struct CookieV {
    pub name: Seq<char>,
    pub value: Seq<char>,
    pub path: Option<Seq<char>>,
    pub domain: Option<Seq<char>>,
    pub expires: Option<Seq<char>>,
    pub http_only: Option<bool>,
    pub secure: Option<bool>,
    pub comment: Option<Seq<char>>,
}

/// One HTTP header.
#[derive(Debug, PartialEq)]
pub struct Header {
    pub name: String,
    pub value: String,
    pub comment: Option<String>,
}

/// Ghost form of [`Header`].
#[verifier::ext_equal]
pub struct HeaderV {
    pub name: Seq<char>,
    pub value: Seq<char>,
    pub comment: Option<Seq<char>>,
}

/// One name/value pair parsed from a query string.
#[derive(Debug, PartialEq)]
pub struct QueryStringPair {
    pub name: String,
    pub value: String,
    pub comment: Option<String>,
}

/// Ghost form of [`QueryStringPair`].
#[verifier::ext_equal]
pub struct QueryStringPairV {
    pub name: Seq<char>,
    pub value: Seq<char>,
    pub comment: Option<Seq<char>>,
}

/// One posted parameter.
#[derive(Debug, PartialEq)]
pub struct Param {
    /// Name of the posted parameter.
    pub name: String,
    /// Value of the posted parameter or content of the posted file.
    pub value: Option<String>,
    /// Name of the posted file.
    pub file_name: Option<String>,
    /// Content type of the posted file.
    pub content_type: Option<String>,
    /// A comment provided by the user or the application.
    pub comment: Option<String>,
}

/// Ghost form of [`Param`].
#[verifier::ext_equal]
pub struct ParamV {
    pub name: Seq<char>,
    pub value: Option<Seq<char>>,
    pub file_name: Option<Seq<char>>,
    pub content_type: Option<Seq<char>>,
    pub comment: Option<Seq<char>>,
}

/// Posted data attached to a request.
#[derive(Debug, PartialEq)]
pub struct PostData {
    /// Mime type of the posted data.
    pub mime_type: String,
    /// List of posted parameters (for URL encoded parameters).
    pub params: Vec<Param>,
    /// Plain text posted data.
    pub text: String,
    /// A comment provided by the user or the application.
    pub comment: Option<String>,
}

/// Ghost form of [`PostData`].
#[verifier::ext_equal]
pub struct PostDataV {
    pub mime_type: Seq<char>,
    pub params: Seq<ParamV>,
    pub text: Seq<char>,
    pub comment: Option<Seq<char>>,
}

/// Details about a response body.
#[derive(Debug, PartialEq)]
pub struct Content {
    /// Length of the returned content in bytes.
    pub size: i32,
    /// Number of bytes saved by compression, when available.
    pub compression: Option<i32>,
    /// MIME type of the response text.
    pub mime_type: String,
    /// Response body, when captured; possibly `encoding`-tagged.
    pub text: Option<String>,
    /// Encoding used for the `text` field, e.g. `base64`.
    pub encoding: Option<String>,
    /// A comment provided by the user or the application.
    pub comment: Option<String>,
}

/// Ghost form of [`Content`].
#[verifier::ext_equal]
pub struct ContentV {
    pub size: i32,
    pub compression: Option<i32>,
    pub mime_type: Seq<char>,
    pub text: Option<Seq<char>>,
    pub encoding: Option<Seq<char>>,
    pub comment: Option<Seq<char>>,
}

/// Detailed info about one performed request.
#[derive(Debug, PartialEq)]
pub struct Request {
    /// Request method (GET, POST, ...).
    pub method: String,
    /// Absolute URL of the request, without fragments.
    pub url: String,
    /// Request HTTP version.
    pub http_version: String,
    /// List of cookie objects.
    pub cookies: Vec<Cookie>,
    /// List of header objects.
    pub headers: Vec<Header>,
    /// List of query parameter objects.
    pub query_string: Vec<QueryStringPair>,
    /// Posted data info.
    pub post_data: Option<PostData>,
    /// Bytes from the start of the request up to and including the double
    /// CRLF before the body, when available.
    pub headers_size: Option<i32>,
    /// Size of the request body in bytes, when available.
    pub body_size: Option<i32>,
    /// A comment provided by the user or the application.
    pub comment: Option<String>,
}

/// Ghost form of [`Request`].
#[verifier::ext_equal]
pub struct RequestV {
    pub method: Seq<char>,
    pub url: Seq<char>,
    pub http_version: Seq<char>,
    pub cookies: Seq<CookieV>,
    pub headers: Seq<HeaderV>,
    pub query_string: Seq<QueryStringPairV>,
    pub post_data: Option<PostDataV>,
    pub headers_size: Option<i32>,
    pub body_size: Option<i32>,
    pub comment: Option<Seq<char>>,
}

/// Detailed info about one response.
#[derive(Debug, PartialEq)]
pub struct Response {
    /// Response status.
    pub status: i32,
    /// Response status description.
    pub status_text: String,
    /// Response HTTP version.
    pub http_version: String,
    /// List of cookie objects.
    pub cookies: Vec<Cookie>,
    /// List of header objects.
    pub headers: Vec<Header>,
    /// Details about the response body.
    pub content: Content,
    /// Redirection target URL from the Location response header.
    pub redirect_url: String,
    /// Bytes from the start of the response up to and including the double
    /// CRLF before the body, when available.
    pub headers_size: Option<i32>,
    /// Size of the received response body in bytes, when available.
    pub body_size: Option<i32>,
    /// A comment provided by the user or the application.
    pub comment: Option<String>,
}

/// Ghost form of [`Response`].
#[verifier::ext_equal]
pub struct ResponseV {
    pub status: i32,
    pub status_text: Seq<char>,
    pub http_version: Seq<char>,
    pub cookies: Seq<CookieV>,
    pub headers: Seq<HeaderV>,
    pub content: ContentV,
    pub redirect_url: Seq<char>,
    pub headers_size: Option<i32>,
    pub body_size: Option<i32>,
    pub comment: Option<Seq<char>>,
}

/// Detailed timing info about one page load.
#[derive(Debug, PartialEq)]
pub struct PageTimings {
    /// Milliseconds since the page load started until its content loaded.
    pub on_content_load: OptionalTiming,
    /// Milliseconds since the page load started until the onLoad event.
    pub on_load: OptionalTiming,
    /// A comment provided by the user or the application.
    pub comment: Option<String>,
}

/// Ghost form of [`PageTimings`].
#[verifier::ext_equal]
pub struct PageTimingsV {
    pub on_content_load: OptionalTiming,
    pub on_load: OptionalTiming,
    pub comment: Option<Seq<char>>,
}

/// One exported (tracked) page.
#[derive(Debug, PartialEq)]
pub struct Page {
    /// Date and time stamp for the beginning of the page load.
    pub started_date_time: String,
    /// Unique identifier of the page within the log; entries refer to it.
    pub id: String,
    /// Page title.
    pub title: String,
    /// Detailed timing info about the page load.
    pub page_timings: PageTimings,
    /// A comment provided by the user or the application.
    pub comment: Option<String>,
}

/// Ghost form of [`Page`].
#[verifier::ext_equal]
pub struct PageV {
    pub started_date_time: Seq<char>,
    pub id: Seq<char>,
    pub title: Seq<char>,
    pub page_timings: PageTimingsV,
    pub comment: Option<Seq<char>>,
}

/// One exported request/response round trip.
#[derive(Debug, PartialEq)]
pub struct Entry {
    /// Reference to the parent page, when pages are tracked.
    pub pageref: Option<String>,
    /// Date and time stamp of the request start.
    pub started_date_time: String,
    /// Detailed info about the request.
    pub request: Request,
    /// Detailed info about the response.
    pub response: Response,
    /// Info about cache usage.
    pub cache: Cache,
    /// Detailed timing info about the round trip.
    pub timings: Timing,
    /// IP address of the server that was connected.
    pub server_ip_address: Option<String>,
    /// Unique ID of the parent TCP/IP connection.
    pub connection: Option<String>,
    /// A comment provided by the user or the application.
    pub comment: Option<String>,
}

/// Ghost form of [`Entry`].
#[verifier::ext_equal]
pub struct EntryV {
    pub pageref: Option<Seq<char>>,
    pub started_date_time: Seq<char>,
    pub request: RequestV,
    pub response: ResponseV,
    pub cache: CacheV,
    pub timings: TimingV,
    pub server_ip_address: Option<Seq<char>>,
    pub connection: Option<Seq<char>>,
    pub comment: Option<Seq<char>>,
}

/// Info about the application that created the log.
#[derive(Debug, PartialEq)]
pub struct Creator {
    pub name: String,
    pub version: String,
    pub comment: Option<String>,
}

/// Ghost form of [`Creator`].
#[verifier::ext_equal]
pub struct CreatorV {
    pub name: Seq<char>,
    pub version: Seq<char>,
    pub comment: Option<Seq<char>>,
}

/// Info about the browser that created the log.
#[derive(Debug, PartialEq)]
pub struct Browser {
    pub name: String,
    pub version: String,
    pub comment: Option<String>,
}

/// Ghost form of [`Browser`].
#[verifier::ext_equal]
pub struct BrowserV {
    pub name: Seq<char>,
    pub version: Seq<char>,
    pub comment: Option<Seq<char>>,
}

/// The root of the exported data.
#[derive(Debug, PartialEq)]
pub struct Log {
    /// Version number of the format.
    pub version: String,
    /// Name and version info of the log creator application.
    pub creator: Creator,
    /// Name and version info of the used browser.
    pub browser: Option<Browser>,
    /// List of all exported pages; absent when pages are not tracked.
    pub pages: Option<Vec<Page>>,
    /// List of all exported requests.
    pub entries: Vec<Entry>,
    /// A comment provided by the user or the application.
    pub comment: Option<String>,
}

/// Ghost form of [`Log`].
#[verifier::ext_equal]
pub struct LogV {
    pub version: Seq<char>,
    pub creator: CreatorV,
    pub browser: Option<BrowserV>,
    pub pages: Option<Seq<PageV>>,
    pub entries: Seq<EntryV>,
    pub comment: Option<Seq<char>>,
}

impl DeepView for CacheEntry {
    type V = CacheEntryV;

    open spec fn deep_view(&self) -> CacheEntryV {
        CacheEntryV {
            expires: self.expires.deep_view(),
            last_access: self.last_access.deep_view(),
            e_tag: self.e_tag.deep_view(),
            hit_count: self.hit_count,
            comment: self.comment.deep_view(),
        }
    }
}

impl DeepView for CacheState {
    type V = CacheStateV;

    open spec fn deep_view(&self) -> CacheStateV {
        match self {
            CacheState::Absent => CacheStateV::Absent,
            CacheState::Present(e) => CacheStateV::Present(e.deep_view()),
            CacheState::Unknown => CacheStateV::Unknown,
        }
    }
}

impl DeepView for Cache {
    type V = CacheV;

    open spec fn deep_view(&self) -> CacheV {
        CacheV {
            before_request: self.before_request.deep_view(),
            after_request: self.after_request.deep_view(),
            comment: self.comment.deep_view(),
        }
    }
}

impl DeepView for Timing {
    type V = TimingV;

    open spec fn deep_view(&self) -> TimingV {
        TimingV {
            blocked: self.blocked,
            dns: self.dns,
            connect: self.connect,
            send: self.send,
            wait: self.wait,
            receive: self.receive,
            ssl: self.ssl,
            comment: self.comment.deep_view(),
        }
    }
}

impl DeepView for Cookie {
    type V = CookieV;

    open spec fn deep_view(&self) -> CookieV {
        CookieV {
            name: self.name.deep_view(),
            value: self.value.deep_view(),
            path: self.path.deep_view(),
            domain: self.domain.deep_view(),
            expires: self.expires.deep_view(),
            http_only: self.http_only,
            secure: self.secure,
            comment: self.comment.deep_view(),
        }
    }
}

impl DeepView for Header {
    type V = HeaderV;

    open spec fn deep_view(&self) -> HeaderV {
        HeaderV {
            name: self.name.deep_view(),
            value: self.value.deep_view(),
            comment: self.comment.deep_view(),
        }
    }
}

impl DeepView for QueryStringPair {
    type V = QueryStringPairV;

    open spec fn deep_view(&self) -> QueryStringPairV {
        QueryStringPairV {
            name: self.name.deep_view(),
            value: self.value.deep_view(),
            comment: self.comment.deep_view(),
        }
    }
}

impl DeepView for Param {
    type V = ParamV;

    open spec fn deep_view(&self) -> ParamV {
        ParamV {
            name: self.name.deep_view(),
            value: self.value.deep_view(),
            file_name: self.file_name.deep_view(),
            content_type: self.content_type.deep_view(),
            comment: self.comment.deep_view(),
        }
    }
}

impl DeepView for PostData {
    type V = PostDataV;

    open spec fn deep_view(&self) -> PostDataV {
        PostDataV {
            mime_type: self.mime_type.deep_view(),
            params: self.params.deep_view(),
            text: self.text.deep_view(),
            comment: self.comment.deep_view(),
        }
    }
}

impl DeepView for Content {
    type V = ContentV;

    open spec fn deep_view(&self) -> ContentV {
        ContentV {
            size: self.size,
            compression: self.compression,
            mime_type: self.mime_type.deep_view(),
            text: self.text.deep_view(),
            encoding: self.encoding.deep_view(),
            comment: self.comment.deep_view(),
        }
    }
}

impl DeepView for Request {
    type V = RequestV;

    open spec fn deep_view(&self) -> RequestV {
        RequestV {
            method: self.method.deep_view(),
            url: self.url.deep_view(),
            http_version: self.http_version.deep_view(),
            cookies: self.cookies.deep_view(),
            headers: self.headers.deep_view(),
            query_string: self.query_string.deep_view(),
            post_data: self.post_data.deep_view(),
            headers_size: self.headers_size,
            body_size: self.body_size,
            comment: self.comment.deep_view(),
        }
    }
}

impl DeepView for Response {
    type V = ResponseV;

    open spec fn deep_view(&self) -> ResponseV {
        ResponseV {
            status: self.status,
            status_text: self.status_text.deep_view(),
            http_version: self.http_version.deep_view(),
            cookies: self.cookies.deep_view(),
            headers: self.headers.deep_view(),
            content: self.content.deep_view(),
            redirect_url: self.redirect_url.deep_view(),
            headers_size: self.headers_size,
            body_size: self.body_size,
            comment: self.comment.deep_view(),
        }
    }
}

impl DeepView for PageTimings {
    type V = PageTimingsV;

    open spec fn deep_view(&self) -> PageTimingsV {
        PageTimingsV {
            on_content_load: self.on_content_load,
            on_load: self.on_load,
            comment: self.comment.deep_view(),
        }
    }
}

impl DeepView for Page {
    type V = PageV;

    open spec fn deep_view(&self) -> PageV {
        PageV {
            started_date_time: self.started_date_time.deep_view(),
            id: self.id.deep_view(),
            title: self.title.deep_view(),
            page_timings: self.page_timings.deep_view(),
            comment: self.comment.deep_view(),
        }
    }
}

impl DeepView for Entry {
    type V = EntryV;

    open spec fn deep_view(&self) -> EntryV {
        EntryV {
            pageref: self.pageref.deep_view(),
            started_date_time: self.started_date_time.deep_view(),
            request: self.request.deep_view(),
            response: self.response.deep_view(),
            cache: self.cache.deep_view(),
            timings: self.timings.deep_view(),
            server_ip_address: self.server_ip_address.deep_view(),
            connection: self.connection.deep_view(),
            comment: self.comment.deep_view(),
        }
    }
}

impl DeepView for Creator {
    type V = CreatorV;

    open spec fn deep_view(&self) -> CreatorV {
        CreatorV {
            name: self.name.deep_view(),
            version: self.version.deep_view(),
            comment: self.comment.deep_view(),
        }
    }
}

impl DeepView for Browser {
    type V = BrowserV;

    open spec fn deep_view(&self) -> BrowserV {
        BrowserV {
            name: self.name.deep_view(),
            version: self.version.deep_view(),
            comment: self.comment.deep_view(),
        }
    }
}

impl DeepView for Log {
    type V = LogV;

    open spec fn deep_view(&self) -> LogV {
        LogV {
            version: self.version.deep_view(),
            creator: self.creator.deep_view(),
            browser: self.browser.deep_view(),
            pages: self.pages.deep_view(),
            entries: self.entries.deep_view(),
            comment: self.comment.deep_view(),
        }
    }
}

impl Browser {
    /// A browser descriptor from its parts.
    pub fn new(name: String, version: String, comment: Option<String>) -> (r: Browser)
        ensures
            r.deep_view() == (BrowserV {
                name: name.deep_view(),
                version: version.deep_view(),
                comment: comment.deep_view(),
            }),
    {
        Browser { name, version, comment }
    }
}

impl PageTimings {
    /// Page load timings from their parts.
    pub fn new(
        on_content_load: OptionalTiming,
        on_load: OptionalTiming,
        comment: Option<String>,
    ) -> (r: PageTimings)
        ensures
            r.deep_view() == (PageTimingsV { on_content_load, on_load, comment: comment.deep_view() }),
    {
        PageTimings { on_content_load, on_load, comment }
    }
}

impl Page {
    /// A tracked page from its parts.
    pub fn new(
        started_date_time: String,
        id: String,
        title: String,
        page_timings: PageTimings,
        comment: Option<String>,
    ) -> (r: Page)
        ensures
            r.deep_view() == (PageV {
                started_date_time: started_date_time.deep_view(),
                id: id.deep_view(),
                title: title.deep_view(),
                page_timings: page_timings.deep_view(),
                comment: comment.deep_view(),
            }),
    {
        Page { started_date_time, id, title, page_timings, comment }
    }
}

impl Log {
    /// A fresh log: fixed format version and creator, no pages collected,
    /// and no entries yet.
    pub fn new(browser: Option<Browser>, comment: Option<String>) -> (r: Log)
        ensures
            r.deep_view() == (LogV {
                version: "1.2"@,
                creator: CreatorV { name: "Rust-HAR"@, version: "0.0.4"@, comment: None },
                browser: browser.deep_view(),
                pages: None,
                entries: Seq::<EntryV>::empty(),
                comment: comment.deep_view(),
            }),
    {
        let r = Log {
            version: "1.2".to_owned(),
            creator: Creator {
                name: "Rust-HAR".to_owned(),
                version: "0.0.4".to_owned(),
                comment: None,
            },
            browser,
            pages: None,
            entries: Vec::new(),
            comment,
        };
        proof {
            assert(r.entries.deep_view() =~= Seq::<EntryV>::empty());
        }
        r
    }

    /// Append a page, lazily creating the page list on first use: the list
    /// goes from absent to one element, never to present-but-empty.
    pub fn add_page(&mut self, page: Page)
        ensures
            final(self).deep_view() == (LogV {
                pages: match old(self).deep_view().pages {
                    Some(s) => Some(s.push(page.deep_view())),
                    None => Some(seq![page.deep_view()]),
                },
                ..old(self).deep_view()
            }),
    {
        match &mut self.pages {
            Some(pages) => pages.push(page),
            None => {
                let mut pages: Vec<Page> = Vec::new();
                pages.push(page);
                self.pages = Some(pages);
            },
        }
        proof {
            assert(self.deep_view() =~~= LogV {
                pages: match old(self).deep_view().pages {
                    Some(s) => Some(s.push(page.deep_view())),
                    None => Some(seq![page.deep_view()]),
                },
                ..old(self).deep_view()
            });
        }
    }

    /// Append an entry; the entry list is never absent.
    pub fn add_entry(&mut self, entry: Entry)
        ensures
            final(self).deep_view() == (LogV {
                entries: old(self).deep_view().entries.push(entry.deep_view()),
                ..old(self).deep_view()
            }),
    {
        self.entries.push(entry);
        proof {
            assert(self.deep_view() =~~= LogV {
                entries: old(self).deep_view().entries.push(entry.deep_view()),
                ..old(self).deep_view()
            });
        }
    }
}

} // verus!
