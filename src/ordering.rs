use vstd::multiset::Multiset;
use vstd::prelude::*;
use vstd::seq_lib::{to_multiset_build, to_multiset_insert};
use vstd::utf8::encode_utf8;

verus! {

/// Byte-wise lexical order: `a` comes no later than `b`.
pub open spec fn bytes_le(a: Seq<u8>, b: Seq<u8>) -> bool
    decreases a.len(),
{
    if a.len() == 0 {
        true
    } else if b.len() == 0 {
        false
    } else if a[0] != b[0] {
        a[0] < b[0]
    } else {
        bytes_le(a.drop_first(), b.drop_first())
    }
}

/// The sort key of a header: the UTF-8 bytes of its name.
pub open spec fn name_key(h: (String, String)) -> Seq<u8> {
    encode_utf8(h.0@)
}

/// Each header's name comes no later than the next one's.
pub open spec fn sorted_by_name(hs: Seq<(String, String)>) -> bool {
    forall|j: int| 0 <= j < hs.len() - 1 ==> bytes_le(name_key(#[trigger] hs[j]), name_key(hs[j + 1]))
}

/// Of two byte strings, one comes no later than the other.
pub proof fn bytes_le_total(a: Seq<u8>, b: Seq<u8>)
    ensures
        bytes_le(a, b) || bytes_le(b, a),
    decreases a.len(),
{
    if a.len() > 0 && b.len() > 0 && a[0] == b[0] {
        bytes_le_total(a.drop_first(), b.drop_first());
    }
}

/// Compares two byte strings in lexical order.
fn bytes_le_exec(a: &[u8], b: &[u8]) -> (r: bool)
    ensures
        r == bytes_le(a@, b@),
{
    let mut k: usize = 0;
    assert(a@.skip(0) =~= a@ && b@.skip(0) =~= b@);
    while k < a.len() && k < b.len() && a[k] == b[k]
        invariant
            k <= a@.len(),
            k <= b@.len(),
            bytes_le(a@, b@) == bytes_le(a@.skip(k as int), b@.skip(k as int)),
        decreases a@.len() - k,
    {
        assert(a@.skip(k as int).drop_first() =~= a@.skip(k + 1));
        assert(b@.skip(k as int).drop_first() =~= b@.skip(k + 1));
        k = k + 1;
    }
    if k == a.len() {
        true
    } else if k == b.len() {
        false
    } else {
        a[k] < b[k]
    }
}

/// Whether the first header's name comes no later than the second's.
fn name_le(a: &String, b: &String) -> (r: bool)
    ensures
        r == bytes_le(encode_utf8(a@), encode_utf8(b@)),
{
    bytes_le_exec(a.as_str().as_bytes(), b.as_str().as_bytes())
}

/// Orders headers by name, byte-wise, so that an unordered set of headers is
/// always handled in the same order. The headers themselves are kept.
pub fn sort_by_name(headers: Vec<(String, String)>) -> (r: Vec<(String, String)>)
    ensures
        r@.to_multiset() == headers@.to_multiset(),
        sorted_by_name(r@),
{
    broadcast use vstd::seq_lib::group_to_multiset_ensures;

    let mut input = headers;
    let mut sorted: Vec<(String, String)> = Vec::new();
    assert(sorted@.to_multiset() =~= Multiset::empty());
    assert(Multiset::empty().add(input@.to_multiset()) =~= input@.to_multiset());
    while input.len() > 0
        invariant
            sorted@.to_multiset().add(input@.to_multiset()) == headers@.to_multiset(),
            sorted_by_name(sorted@),
        decreases input@.len(),
    {
        let ghost before = input@;
        let h = input.pop().unwrap();
        proof {
            assert(before =~= input@.push(h));
            to_multiset_build(input@, h);
        }
        let mut p: usize = sorted.len();
        while p > 0 && !name_le(&sorted[p - 1].0, &h.0)
            invariant
                p <= sorted@.len(),
                p < sorted@.len() ==> !bytes_le(name_key(sorted@[p as int]), name_key(h)),
            decreases p,
        {
            p = p - 1;
        }
        let ghost s = sorted@;
        proof {
            if p < s.len() {
                bytes_le_total(name_key(s[p as int]), name_key(h));
            }
            to_multiset_insert(s, p as int, h);
        }
        sorted.insert(p, h);
        assert forall|j: int| 0 <= j < sorted@.len() - 1 implies bytes_le(
            name_key(#[trigger] sorted@[j]),
            name_key(sorted@[j + 1]),
        ) by {
            if j < p as int - 1 {
                assert(sorted@[j] == s[j] && sorted@[j + 1] == s[j + 1]);
            } else if j == p as int - 1 {
            } else if j == p as int {
            } else {
                assert(sorted@[j] == s[j - 1] && sorted@[j + 1] == s[j]);
            }
        }
    }
    assert(input@ =~= Seq::<(String, String)>::empty());
    assert(input@.to_multiset() =~= Multiset::empty());
    assert(sorted@.to_multiset().add(Multiset::empty()) =~= sorted@.to_multiset());
    sorted
}

} // verus!
