//! Response header validation.
//!
//! Scripts leave arbitrary string pairs in the response's header table. Only
//! pairs that form a valid HTTP header are kept; an invalid pair is dropped
//! without aborting the rest of header processing.

use vstd::prelude::*;

verus! {

/// Whether a name/value pair forms a valid HTTP header, exactly as
/// `tiny_http::Header::from_bytes` decides it.
pub uninterp spec fn header_ok(name: Seq<char>, value: Seq<char>) -> bool;

/// Relies on `tiny_http::Header::from_bytes`: whether a pair is accepted
/// depends on the pair's bytes alone (the name and value must be ASCII that
/// the `ascii` crate accepts).
#[verifier::external_body]
pub(crate) fn header_valid(name: &str, value: &str) -> (r: bool)
    ensures
        r == header_ok(name@, value@),
{
    tiny_http::Header::from_bytes(name.as_bytes(), value.as_bytes()).is_ok()
}

/// A header pair a script left that forms a valid HTTP header.
pub open spec fn valid_header_pair(p: (String, String)) -> bool {
    header_ok(p.0@, p.1@)
}

/// The subsequence of pairs that form a valid header, in order.
pub open spec fn filter_valid(s: Seq<(String, String)>) -> Seq<(String, String)> {
    s.filter(|p: (String, String)| valid_header_pair(p))
}

/// One unfolding of `filter_valid` along a prefix.
proof fn lemma_filter_take_step(s: Seq<(String, String)>, i: int)
    requires
        0 <= i < s.len(),
    ensures
        filter_valid(s.take(i + 1)) == if valid_header_pair(s[i]) {
            filter_valid(s.take(i)).push(s[i])
        } else {
            filter_valid(s.take(i))
        },
{
    let t = s.take(i + 1);
    assert(t.drop_last() =~= s.take(i));
    assert(t.last() == s[i]);
    reveal_with_fuel(Seq::<_>::filter, 2);
    assert(filter_valid(t) == if valid_header_pair(t.last()) {
        filter_valid(t.drop_last()).push(t.last())
    } else {
        filter_valid(t.drop_last())
    });
}

/// Keeps exactly the pairs that form a valid header, in order; invalid pairs
/// are dropped, and a drop never stops the pairs after it from being kept.
pub fn keep_valid_headers(hs: &Vec<(String, String)>) -> (r: Vec<(String, String)>)
    ensures
        r@ == filter_valid(hs@),
        forall|i: int| 0 <= i < r@.len() ==> valid_header_pair(#[trigger] r@[i]),
{
    let n = hs.len();
    let mut out: Vec<(String, String)> = Vec::new();
    let mut i: usize = 0;
    while i < n
        invariant
            i <= n,
            n == hs@.len(),
            out@ == filter_valid(hs@.take(i as int)),
            forall|j: int| 0 <= j < out@.len() ==> valid_header_pair(#[trigger] out@[j]),
        decreases n - i,
    {
        if header_valid(hs[i].0.as_str(), hs[i].1.as_str()) {
            out.push((hs[i].0.clone(), hs[i].1.clone()));
        }
        proof {
            lemma_filter_take_step(hs@, i as int);
        }
        i += 1;
    }
    proof {
        assert(hs@.take(n as int) =~= hs@);
    }
    out
}

} // verus!
