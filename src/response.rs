use crate::error::RelayError;
use crate::grammar::{decodable_value, header_text, is_visible_byte};
use vstd::prelude::*;
use vstd::string::StringExecFns;

verus! {

/// What a successful relay call hands back.
#[derive(Debug, Clone)]
pub struct RelayResult {
    /// The response's status code.
    pub status: u16,
    /// The response body as text.
    pub body: String,
    /// The response headers whose values read as text, in the order received.
    pub headers: Vec<(String, String)>,
}

/// The received headers that are kept, as name and text: those whose value
/// reads as text, in the order received.
pub open spec fn kept_headers(received: Seq<(String, Vec<u8>)>) -> Seq<(Seq<char>, Seq<char>)>
    decreases received.len(),
{
    if received.len() == 0 {
        Seq::empty()
    } else {
        let rest = kept_headers(received.drop_last());
        let last = received.last();
        if decodable_value(last.1@) {
            rest.push((last.0@, header_text(last.1@)))
        } else {
            rest
        }
    }
}

/// The names and texts of a list of headers.
pub open spec fn header_pairs(hs: Seq<(String, String)>) -> Seq<(Seq<char>, Seq<char>)> {
    hs.map_values(|h: (String, String)| (h.0@, h.1@))
}

/// Every byte is below 128.
pub open spec fn ascii_bytes(b: Seq<u8>) -> bool {
    forall|i: int| 0 <= i < b.len() ==> #[trigger] b[i] < 128
}

/// A received header whose value does not read as text leaves the kept
/// headers as they would be without it.
pub proof fn undecodable_header_is_dropped(received: Seq<(String, Vec<u8>)>, i: int)
    requires
        0 <= i < received.len(),
        !decodable_value(received[i].1@),
    ensures
        kept_headers(received) == kept_headers(received.remove(i)),
    decreases received.len(),
{
    if i == received.len() - 1 {
        assert(received.remove(i) =~= received.drop_last());
    } else {
        let shorter = received.drop_last();
        undecodable_header_is_dropped(shorter, i);
        assert(received.remove(i).drop_last() =~= shorter.remove(i));
        assert(received.remove(i).last() == received.last());
    }
}

/// The text that `String::from_utf8` reads from these bytes, or `None` where
/// they are not valid UTF-8.
pub uninterp spec fn utf8_decoded(b: Seq<u8>) -> Option<Seq<char>>;

/// Relies on `String::from_utf8`: it succeeds exactly on valid UTF-8, with a
/// text that depends on the bytes alone; bytes below 128 are valid UTF-8, one
/// character for each byte.
#[verifier::external_body]
fn string_from_utf8(bytes: Vec<u8>) -> (r: Option<String>)
    ensures
        r is Some <==> utf8_decoded(bytes@) is Some,
        r is Some ==> r->0@ == utf8_decoded(bytes@)->0,
        ascii_bytes(bytes@) ==> r is Some && r->0@ == header_text(bytes@),
{
    String::from_utf8(bytes).ok()
}

/// Why a body that is not valid UTF-8 cannot be read.
pub open spec fn not_utf8_reason() -> Seq<char> {
    "response body is not valid UTF-8"@
}

/// Reads a received body as UTF-8 text. A failure to receive the body is
/// passed on; bytes that are not valid UTF-8 are a failure of their own.
pub fn body_text(body: Result<Vec<u8>, String>) -> (r: Result<String, String>)
    ensures
        body matches Err(e) ==> r == Err::<String, String>(e),
        body matches Ok(b) ==> (r is Ok <==> utf8_decoded(b@) is Some),
        body is Ok && r is Ok ==> r->Ok_0@ == utf8_decoded(body->Ok_0@)->0,
        body is Ok && r is Err ==> r->Err_0@ == not_utf8_reason(),
{
    match body {
        Err(e) => Err(e),
        Ok(bytes) => match string_from_utf8(bytes) {
            Some(text) => Ok(text),
            None => Err(String::from_str("response body is not valid UTF-8")),
        },
    }
}

/// The text of a received header value, or `None` where a byte is neither
/// visible ASCII nor a tab.
pub fn value_text(bytes: &Vec<u8>) -> (r: Option<String>)
    ensures
        decodable_value(bytes@) <==> r is Some,
        r matches Some(s) ==> s@ == header_text(bytes@),
{
    let mut i: usize = 0;
    while i < bytes.len()
        invariant
            i <= bytes@.len(),
            forall|j: int| 0 <= j < i ==> is_visible_byte(#[trigger] bytes@[j]),
        decreases bytes@.len() - i,
    {
        if !(32 <= bytes[i] && bytes[i] < 127 || bytes[i] == 9) {
            return None;
        }
        i = i + 1;
    }
    let copy = bytes.clone();
    assert(copy@ =~= bytes@);
    string_from_utf8(copy)
}

/// Keeps the received headers whose values read as text, as name and text,
/// in the order received; the others are left out without error.
pub fn response_headers(received: &Vec<(String, Vec<u8>)>) -> (r: Vec<(String, String)>)
    ensures
        header_pairs(r@) == kept_headers(received@),
{
    let mut kept: Vec<(String, String)> = Vec::new();
    let mut i: usize = 0;
    while i < received.len()
        invariant
            i <= received@.len(),
            header_pairs(kept@) == kept_headers(received@.take(i as int)),
        decreases received@.len() - i,
    {
        let ghost before = kept@;
        assert(received@.take(i + 1).drop_last() =~= received@.take(i as int));
        match value_text(&received[i].1) {
            Some(text) => {
                let name = received[i].0.clone();
                kept.push((name, text));
                assert(header_pairs(kept@) =~= header_pairs(before).push(
                    (received@[i as int].0@, header_text(received@[i as int].1@)),
                ));
            },
            None => {},
        }
        i = i + 1;
    }
    assert(received@.take(i as int) =~= received@);
    kept
}

/// Composes the outcome of a relay call from the response's status (an HTTP
/// status code), its kept
/// headers and the result of reading its body as text. A body that could not
/// be read fails the whole call, whatever the status.
pub fn relay_outcome(status: u16, headers: Vec<(String, String)>, body: Result<String, String>) -> (r:
    Result<RelayResult, RelayError>)
    requires
        100 <= status <= 999,
    ensures
        r matches Ok(res) ==> 100 <= res.status <= 999,
        body matches Ok(b) ==> r == Ok::<RelayResult, RelayError>(
            RelayResult { status, body: b, headers },
        ),
        body matches Err(e) ==> r == Err::<RelayResult, RelayError>(
            RelayError::BodyRead { reason: e },
        ),
{
    match body {
        Ok(b) => Ok(RelayResult { status, body: b, headers }),
        Err(e) => Err(RelayError::BodyRead { reason: e }),
    }
}

} // verus!
