//! Verified core of an HTTP POST relay used for OAuth token exchanges.
//!
//! The library validates the caller's request headers and builds the header
//! collection that goes out with the request, keeps the response headers whose
//! values read as text, and composes the final result or error. Sending the
//! request and reading the response body are left to the caller.
mod error;
mod grammar;
mod http_bindings;
mod ordering;
mod request;
mod response;

pub use error::RelayError;
pub use grammar::{
    ascii_lower, ascii_lower_char, decodable_value, header_text, is_token_char, is_value_char, is_visible_byte,
    valid_header_name, valid_header_value,
};
pub use ordering::{bytes_le, bytes_le_total, name_key, sort_by_name, sorted_by_name};
pub use http_bindings::{header_entries, parsed_name, parsed_value};
pub use request::{
    control_char_in_name_rejected, first_bad_name_at, first_bad_value_at, header_ok,
    headers_ok_before, request_entries, request_headers,
};
pub use response::{
    body_text, not_utf8_reason, utf8_decoded, header_pairs, kept_headers, relay_outcome, response_headers, undecodable_header_is_dropped,
    value_text, RelayResult,
};
