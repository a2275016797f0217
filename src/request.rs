use crate::error::RelayError;
use crate::grammar::{ascii_lower, valid_header_name, valid_header_value};
use crate::http_bindings::{
    empty_header_map, header_entries, insert_header, invalid_name_text, invalid_value_text,
    parse_header_name, parse_header_value, parsed_name, parsed_value,
};
use reqwest::header::{HeaderMap, HeaderName, HeaderValue};
use vstd::prelude::*;

verus! {

/// A request header whose name and value are both legal.
pub open spec fn header_ok(h: (String, String)) -> bool {
    valid_header_name(h.0@) && valid_header_value(h.1@)
}

/// The first `n` request headers are all legal.
pub open spec fn headers_ok_before(hs: Seq<(String, String)>, n: int) -> bool {
    forall|j: int| 0 <= j < n ==> #[trigger] header_ok(hs[j])
}

/// The header at `i` is the first illegal one, and its name is at fault.
pub open spec fn first_bad_name_at(hs: Seq<(String, String)>, i: int) -> bool {
    &&& 0 <= i < hs.len()
    &&& headers_ok_before(hs, i)
    &&& !valid_header_name(hs[i].0@)
}

/// The header at `i` is the first illegal one, and only its value is at fault.
pub open spec fn first_bad_value_at(hs: Seq<(String, String)>, i: int) -> bool {
    &&& 0 <= i < hs.len()
    &&& headers_ok_before(hs, i)
    &&& valid_header_name(hs[i].0@)
    &&& !valid_header_value(hs[i].1@)
}

/// Request headers of which one has a control character (a line break among
/// them) in its name are never all legal, so `request_headers` fails on them
/// before anything is sent.
pub proof fn control_char_in_name_rejected(hs: Seq<(String, String)>, i: int, k: int)
    requires
        0 <= i < hs.len(),
        0 <= k < hs[i].0@.len(),
        (hs[i].0@[k] as u32) < 32 || hs[i].0@[k] as u32 == 127,
    ensures
        !headers_ok_before(hs, hs.len() as int),
{
    assert(!crate::grammar::is_token_char(hs[i].0@[k]));
    assert(!header_ok(hs[i]));
}

/// The collection made by inserting the headers one after another under
/// their lower-cased names, a later header replacing an earlier one of the
/// same name.
pub open spec fn request_entries(hs: Seq<(String, String)>) -> Map<HeaderName, HeaderValue>
    decreases hs.len(),
{
    if hs.len() == 0 {
        Map::empty()
    } else {
        let last = hs.last();
        request_entries(hs.drop_last()).insert(parsed_name(ascii_lower(last.0@)), parsed_value(last.1@))
    }
}

/// The collection made from `hs` has at most one name for each header.
pub proof fn request_entries_size(hs: Seq<(String, String)>)
    ensures
        request_entries(hs).dom().finite(),
        request_entries(hs).dom().len() <= hs.len(),
    decreases hs.len(),
{
    if hs.len() > 0 {
        request_entries_size(hs.drop_last());
    }
}

/// Validates the caller's request headers, in the order given, and builds the
/// header collection to attach to the request.
///
/// No headers give `None`: no collection is attached at all. The first header
/// whose name or value is illegal fails the whole call, naming that header.
pub fn request_headers(headers: &Vec<(String, String)>) -> (r: Result<
    Option<HeaderMap>,
    RelayError,
>)
    ensures
        headers@.len() == 0 <==> r matches Ok(None),
        r matches Ok(Some(m)) ==> header_entries(m) == request_entries(headers@),
        r is Ok ==> headers_ok_before(headers@, headers@.len() as int),
        !headers_ok_before(headers@, headers@.len() as int) ==> (r matches Err(
            RelayError::InvalidHeaderName { .. },
        ) || r matches Err(RelayError::InvalidHeaderValue { .. }) || r matches Err(
            RelayError::TooManyHeaders { .. },
        )),
        r matches Err(RelayError::InvalidHeaderName { name, reason }) ==> exists|i: int|
            first_bad_name_at(headers@, i) && name@ == headers@[i].0@ && reason@
                == "invalid HTTP header name"@,
        r matches Err(RelayError::InvalidHeaderValue { name, reason }) ==> exists|i: int|
            first_bad_value_at(headers@, i) && name@ == headers@[i].0@ && reason@
                == "failed to parse header value"@,
        headers_ok_before(headers@, headers@.len() as int) && 0 < headers@.len() < 1024
            ==> r matches Ok(Some(_)),
        r matches Err(RelayError::TooManyHeaders { .. }) ==> headers@.len() >= 1024,
        r matches Err(RelayError::TooManyHeaders { name }) ==> exists|i: int|
            0 <= i < headers@.len() && headers_ok_before(headers@, i + 1) && name@
                == headers@[i].0@,
        !(r matches Err(RelayError::Transport { .. })),
        !(r matches Err(RelayError::BodyRead { .. })),
{
    if headers.len() == 0 {
        return Ok(None);
    }
    let mut map = empty_header_map();
    let mut i: usize = 0;
    while i < headers.len()
        invariant
            i <= headers@.len(),
            headers_ok_before(headers@, i as int),
            header_entries(map) == request_entries(headers@.take(i as int)),
        decreases headers@.len() - i,
    {
        let name = &headers[i].0;
        let value = &headers[i].1;
        let header_name = match parse_header_name(name.as_str()) {
            Ok(n) => n,
            Err(e) => {
                assert(first_bad_name_at(headers@, i as int));
                assert(!header_ok(headers@[i as int]));
                return Err(
                    RelayError::InvalidHeaderName { name: name.clone(), reason: invalid_name_text(&e) },
                );
            },
        };
        let header_value = match parse_header_value(value.as_str()) {
            Ok(v) => v,
            Err(e) => {
                assert(first_bad_value_at(headers@, i as int));
                assert(!header_ok(headers@[i as int]));
                return Err(
                    RelayError::InvalidHeaderValue {
                        name: name.clone(),
                        reason: invalid_value_text(&e),
                    },
                );
            },
        };
        proof {
            request_entries_size(headers@.take(i as int));
        }
        match insert_header(&mut map, header_name, header_value) {
            Ok(()) => {},
            Err(_) => {
                assert(headers_ok_before(headers@, i + 1));
                return Err(RelayError::TooManyHeaders { name: name.clone() });
            },
        }
        assert(headers@.take(i + 1).drop_last() =~= headers@.take(i as int));
        i = i + 1;
        proof {
            request_entries_size(headers@.take(i as int));
        }
    }
    assert(headers@.take(i as int) =~= headers@);
    Ok(Some(map))
}

} // verus!
