//! Backend selection: one backend URL is chosen uniformly at random per
//! request, as a cheap load-spreading heuristic. Selection fails exactly when
//! the configured list is empty, and the handler must then answer with a
//! bad-gateway error instead of forwarding.

use vstd::prelude::*;

verus! {

/// Relies on rand::random_range: a value drawn from `0..n` lies in that
/// range. The draw comes from the thread-local generator, so nothing beyond
/// membership is promised of any one outcome.
#[verifier::external_body]
fn random_index(n: usize) -> (r: usize)
    requires
        n > 0,
    ensures
        r < n,
{
    rand::random_range(0..n)
}

/// Picks the position of one backend URL at random; yields a position if and
/// only if the list is non-empty.
pub fn select_backend(urls: &Vec<String>) -> (r: Option<usize>)
    ensures
        r is Some <==> urls.len() > 0,
        (r matches Some(i) ==> i < urls.len()),
{
    if urls.len() == 0 {
        None
    } else {
        Some(random_index(urls.len()))
    }
}

} // verus!
