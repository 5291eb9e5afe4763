//! The forwarding pipeline's per-request decisions: select a backend at
//! random and an egress client by rotation, build the outbound target URL
//! `{backend}/{path}`, and carry the method, the filtered headers and the
//! JSON body over to the network edge — or fail with a distinct cause when a
//! selection is impossible.

use vstd::prelude::*;
use vstd::string::*;
use crate::backend::select_backend;
use crate::headers::filter_headers;
use crate::headers::forwarded_headers;
use crate::rotation::rotation_index;
use crate::rotation::spec_rotation_index;

verus! {

/// Why no outbound request could be attempted. The two causes are kept
/// distinct: an empty backend list and an empty egress pool are different
/// misconfigurations.
#[derive(Debug)]
pub enum SelectError {
    /// The configured backend URL list is empty.
    NoBackend,
    /// The egress client pool is empty.
    NoEgress,
}

/// The target URL of the outbound request: `{backend}/{path}`, with the
/// path suffix taken literally.
pub open spec fn spec_target_url(backend: Seq<char>, path: Seq<char>) -> Seq<char> {
    backend + "/"@ + path
}

/// Joins the selected backend URL and the inbound path suffix.
pub fn build_target_url(backend: &str, path: &str) -> (r: String)
    ensures
        r@ == spec_target_url(backend@, path@),
{
    let mut url = String::from_str(backend);
    url.append("/");
    url.append(path);
    url
}

/// Everything the network edge needs to issue one outbound request.
pub struct ForwardPlan {
    /// Method of the inbound request, forwarded unchanged.
    pub method: String,
    /// `{backend}/{path}` for the randomly selected backend.
    pub target_url: String,
    /// Index of the egress client to send through, from the rotation.
    pub egress_index: usize,
    /// The inbound headers minus `content-length`.
    pub headers: Vec<(String, String)>,
    /// The inbound JSON body, to be re-serialized by the outbound client.
    pub body: serde_json::Value,
}

/// Plans the outbound request for one inbound request, or says why none can
/// be attempted: no backend when the URL list is empty, else no egress when
/// the pool is empty. On success the plan targets `{backend}/{path}` for
/// some configured backend, routes through the rotation's index, and carries
/// the method, the filtered headers and the body unchanged.
pub fn plan_forward(
    method: String,
    path: &str,
    headers: &Vec<(String, String)>,
    body: serde_json::Value,
    block_engine_urls: &Vec<String>,
    pool_len: usize,
    counter: usize,
) -> (r: Result<ForwardPlan, SelectError>)
    ensures
        r is Ok <==> block_engine_urls.len() > 0 && pool_len > 0,
        block_engine_urls.len() == 0 ==> (r matches Err(e) && e is NoBackend),
        (block_engine_urls.len() > 0 && pool_len == 0) ==> (r matches Err(e) && e is NoEgress),
        (r matches Ok(p) ==> {
            &&& exists|i: int|
                0 <= i < block_engine_urls.len() && p.target_url@ == spec_target_url(
                    (#[trigger] block_engine_urls[i])@,
                    path@,
                )
            &&& p.egress_index == spec_rotation_index(counter as nat, pool_len as nat)
            &&& p.egress_index < pool_len
            &&& p.headers@ == forwarded_headers(headers@)
            &&& p.method == method
            &&& p.body == body
        }),
{
    if block_engine_urls.len() == 0 {
        return Err(SelectError::NoBackend);
    }
    if pool_len == 0 {
        return Err(SelectError::NoEgress);
    }
    let picked = select_backend(block_engine_urls);
    let bi = picked.unwrap();
    let target_url = build_target_url(block_engine_urls[bi].as_str(), path);
    let egress_index = rotation_index(counter, pool_len);
    let fwd_headers = filter_headers(headers);
    let plan = ForwardPlan { method, target_url, egress_index, headers: fwd_headers, body };
    proof {
        assert(0 <= bi < block_engine_urls.len() && plan.target_url@ == spec_target_url(
            block_engine_urls[bi as int]@,
            path@,
        ));
    }
    Ok(plan)
}

} // verus!
