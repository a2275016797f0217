//! The items of the `http` crate (as re-exported by `reqwest`) that the
//! relay relies on, with what their source shows of them.
use reqwest::header::{
    HeaderMap, HeaderName, HeaderValue, InvalidHeaderName, InvalidHeaderValue, MaxSizeReached,
};
use vstd::prelude::*;

verus! {

/// `http::HeaderMap`: the header collection attached to an outgoing request.
#[verifier::external_type_specification]
#[verifier::external_body]
#[verifier::reject_recursive_types(T)]
pub struct ExHeaderMap<T>(HeaderMap<T>);

/// `http::HeaderName`: a validated, lower-cased header name.
#[verifier::external_type_specification]
#[verifier::external_body]
pub struct ExHeaderName(HeaderName);

/// `http::HeaderValue`: a validated header value.
#[verifier::external_type_specification]
#[verifier::external_body]
pub struct ExHeaderValue(HeaderValue);

/// The error of `HeaderName::from_bytes`.
#[verifier::external_type_specification]
#[verifier::external_body]
pub struct ExInvalidHeaderName(InvalidHeaderName);

/// The error of `HeaderValue::from_str`.
#[verifier::external_type_specification]
#[verifier::external_body]
pub struct ExInvalidHeaderValue(InvalidHeaderValue);

/// The error of `HeaderMap::try_insert` when the collection is full.
#[verifier::external_type_specification]
#[verifier::external_body]
pub struct ExMaxSizeReached(MaxSizeReached);

/// The header name whose text is these (lower-case) characters.
pub uninterp spec fn parsed_name(s: Seq<char>) -> HeaderName;

/// The header value that `HeaderValue::from_str` builds from these characters.
pub uninterp spec fn parsed_value(s: Seq<char>) -> HeaderValue;

/// What a header collection holds: one value for each name.
pub uninterp spec fn header_entries(m: HeaderMap) -> Map<HeaderName, HeaderValue>;

/// Relies on `HeaderName::from_bytes`: it accepts exactly the names of 1 to
/// 65535 token characters, and the name it builds has the ASCII lower-case of
/// the input as its text.
#[verifier::external_body]
pub(crate) fn parse_header_name(name: &str) -> (r: Result<HeaderName, InvalidHeaderName>)
    ensures
        r is Ok <==> crate::grammar::valid_header_name(name@),
        r matches Ok(n) ==> n == parsed_name(crate::grammar::ascii_lower(name@)),
{
    HeaderName::from_bytes(name.as_bytes())
}

/// Relies on `HeaderValue::from_str`: it accepts exactly the strings without
/// control characters other than a tab, and the value it builds depends on the
/// input alone.
#[verifier::external_body]
pub(crate) fn parse_header_value(value: &str) -> (r: Result<HeaderValue, InvalidHeaderValue>)
    ensures
        r is Ok <==> crate::grammar::valid_header_value(value@),
        r matches Ok(v) ==> v == parsed_value(value@),
{
    HeaderValue::from_str(value)
}

/// Relies on `HeaderMap::new`: a new collection is empty.
#[verifier::external_body]
pub(crate) fn empty_header_map() -> (r: HeaderMap)
    ensures
        header_entries(r) =~= Map::empty(),
        header_entries(r).dom().finite(),
{
    HeaderMap::new()
}

/// Relies on `HeaderMap::try_insert`: on success the name is mapped to the
/// value alone, replacing what it held; it fails, without panicking, only
/// when its table would grow past 32768 slots, which a collection of fewer
/// than 1024 names never needs.
#[verifier::external_body]
pub(crate) fn insert_header(m: &mut HeaderMap, name: HeaderName, value: HeaderValue) -> (r:
    Result<(), MaxSizeReached>)
    ensures
        r is Ok ==> header_entries(*final(m)) == header_entries(*old(m)).insert(name, value),
        header_entries(*old(m)).dom().finite() && header_entries(*old(m)).dom().len() < 1024
            ==> r is Ok,
{
    m.try_insert(name, value).map(|_| ())
}

/// Relies on the `Display` impl of `InvalidHeaderName`, which writes a fixed
/// sentence.
#[verifier::external_body]
pub(crate) fn invalid_name_text(e: &InvalidHeaderName) -> (r: String)
    ensures
        r@ == "invalid HTTP header name"@,
{
    e.to_string()
}

/// Relies on the `Display` impl of `InvalidHeaderValue`, which writes a fixed
/// sentence.
#[verifier::external_body]
pub(crate) fn invalid_value_text(e: &InvalidHeaderValue) -> (r: String)
    ensures
        r@ == "failed to parse header value"@,
{
    e.to_string()
}

} // verus!
