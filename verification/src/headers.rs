//! Header forwarding: every inbound header is copied to the outbound request
//! byte-for-byte, except `content-length` (matched case-insensitively), which
//! the outbound client recomputes from the serialized body — forwarding the
//! stale inbound value would corrupt framing.

use vstd::prelude::*;

verus! {

/// Code point of `c` with an ASCII upper-case letter folded to lower case.
pub open spec fn lower_code(c: char) -> int {
    if 65 <= c as int && c as int <= 90 {
        c as int + 32
    } else {
        c as int
    }
}

/// Whether a header name is `content-length`, compared case-insensitively
/// over ASCII.
pub open spec fn is_content_length(name: Seq<char>) -> bool {
    name.len() == "content-length"@.len() && (forall|i: int|
        0 <= i < name.len() ==> lower_code(name[i]) == #[trigger] ("content-length"@[i]) as int)
}

/// The headers that are forwarded: the inbound sequence with every
/// `content-length` entry removed and everything else kept, in order.
pub open spec fn forwarded_headers(headers: Seq<(String, String)>) -> Seq<(String, String)>
    decreases headers.len(),
{
    if headers.len() == 0 {
        Seq::empty()
    } else {
        let rest = forwarded_headers(headers.drop_last());
        if is_content_length(headers.last().0@) {
            rest
        } else {
            rest.push(headers.last())
        }
    }
}

/// Forwarding law: no forwarded header is `content-length`, and every inbound
/// header that is not `content-length` appears, unchanged, among the
/// forwarded ones.
pub proof fn lemma_forwarding_preserves_headers(headers: Seq<(String, String)>)
    ensures
        forall|j: int|
            0 <= j < forwarded_headers(headers).len() ==> !is_content_length(
                #[trigger] forwarded_headers(headers)[j].0@,
            ),
        forall|i: int|
            0 <= i < headers.len() && !is_content_length(#[trigger] headers[i].0@)
                ==> forwarded_headers(headers).contains(headers[i]),
    decreases headers.len(),
{
    if headers.len() > 0 {
        lemma_forwarding_preserves_headers(headers.drop_last());
        let rest = forwarded_headers(headers.drop_last());
        assert forall|i: int|
            0 <= i < headers.len() && !is_content_length(#[trigger] headers[i].0@) implies
            forwarded_headers(headers).contains(headers[i]) by {
            if i < headers.len() - 1 {
                assert(headers.drop_last()[i] == headers[i]);
                let k = choose|k: int| 0 <= k < rest.len() && rest[k] == headers[i];
                assert(forwarded_headers(headers)[k] == headers[i]);
            } else {
                assert(forwarded_headers(headers).last() == headers[i]);
            }
        }
    }
}

/// ASCII-lower-cased code point of one character.
fn lower_code_of(c: char) -> (r: u32)
    ensures
        r == lower_code(c),
{
    let code = c as u32;
    if 65 <= code && code <= 90 {
        code + 32
    } else {
        code
    }
}

/// Whether a header name is `content-length`, compared case-insensitively.
pub fn is_content_length_name(name: &str) -> (r: bool)
    ensures
        r == is_content_length(name@),
{
    proof {
        reveal_strlit("content-length");
    }
    let target = "content-length";
    let n = name.unicode_len();
    if n != target.unicode_len() {
        return false;
    }
    let mut i: usize = 0;
    while i < n
        invariant
            i <= n,
            n == name@.len(),
            n == target@.len(),
            target@ == "content-length"@,
            forall|j: int| 0 <= j < i ==> lower_code(name@[j]) == (#[trigger] target@[j]) as int,
        decreases n - i,
    {
        let c = name.get_char(i);
        let t = target.get_char(i);
        if lower_code_of(c) != t as u32 {
            return false;
        }
        i = i + 1;
    }
    true
}

/// Copies the inbound headers, dropping every `content-length` entry and
/// keeping all others byte-for-byte, in their inbound order.
pub fn filter_headers(headers: &Vec<(String, String)>) -> (out: Vec<(String, String)>)
    ensures
        out@ == forwarded_headers(headers@),
{
    let mut out: Vec<(String, String)> = Vec::new();
    let mut i: usize = 0;
    while i < headers.len()
        invariant
            i <= headers.len(),
            out@ == forwarded_headers(headers@.subrange(0, i as int)),
        decreases headers.len() - i,
    {
        let h = &headers[i];
        if !is_content_length_name(h.0.as_str()) {
            out.push((h.0.clone(), h.1.clone()));
        }
        proof {
            let sub1 = headers@.subrange(0, i + 1);
            assert(sub1.drop_last() =~= headers@.subrange(0, i as int));
            assert(sub1.last() == headers@[i as int]);
            assert(out@ =~= forwarded_headers(sub1));
        }
        i = i + 1;
    }
    proof {
        assert(headers@.subrange(0, headers@.len() as int) =~= headers@);
    }
    out
}

} // verus!
