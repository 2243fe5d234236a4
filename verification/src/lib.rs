//! An in-memory document model for the HTTP Archive (HAR) 1.2 log format,
//! together with a verified codec between that model and its JSON wire form.
//!
//! The model is a tree of owned value types rooted at [`Log`]. The codec
//! realizes the HAR wire rules: mandatory fields, always-present sequences,
//! key omission for absent optional fields, the `-1` sentinel for timings
//! that do not apply, and the three-way cache-state encoding in which a
//! missing key, an explicit `null`, and a populated object each mean
//! something different.

pub mod codec;
pub mod dec;
pub mod enc;
pub mod json;
pub mod laws;
pub mod model;
pub mod text;

pub use codec::DecodeError;
pub use dec::{
    decode_browser_value, decode_cache_entry_value, decode_cache_value, decode_content_value,
    decode_cookie_value, decode_creator_value, decode_entry_value, decode_header_value,
    decode_log_value, decode_page_timings_value, decode_page_value, decode_param_value,
    decode_post_data_value, decode_query_string_pair_value, decode_request_value,
    decode_response_value, decode_timing_value,
};
pub use enc::{
    encode_browser_value, encode_cache_entry_value, encode_cache_value, encode_content_value,
    encode_cookie_value, encode_creator_value, encode_entry_value, encode_header_value,
    encode_log_value, encode_page_timings_value, encode_page_value, encode_param_value,
    encode_post_data_value, encode_query_string_pair_value, encode_request_value,
    encode_response_value, encode_timing_value,
};
pub use json::JsonValue;
pub use model::{
    Browser, Cache, CacheEntry, CacheState, Content, Cookie, Creator, Entry, Header, Log,
    OptionalTiming, Page, PageTimings, Param, PostData, QueryStringPair, Request, Response, Timing,
};
pub use text::{
    decode_browser, decode_cache, decode_cache_entry, decode_content, decode_cookie,
    decode_creator, decode_entry, decode_header, decode_log, decode_page, decode_page_timings,
    decode_param, decode_post_data, decode_query_string_pair, decode_request, decode_response,
    decode_timing, encode_browser, encode_cache, encode_cache_entry, encode_content, encode_cookie,
    encode_creator, encode_entry, encode_header, encode_log, encode_page, encode_page_timings,
    encode_param, encode_post_data, encode_query_string_pair, encode_request, encode_response,
    encode_timing,
};
