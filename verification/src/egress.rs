//! Egress client pool construction: one HTTP client per configured egress
//! address, in order, each routing all its traffic through that address with
//! a fixed 5-second per-request timeout. A rejected address is fatal at
//! startup: silently dropping it would shrink the pool and change the
//! rotation modulus.

use vstd::prelude::*;

verus! {

#[verifier::external_type_specification]
#[verifier::external_body]
pub struct ExClient(reqwest::Client);

/// Position of the first egress address no client could be built for.
#[derive(Debug)]
pub struct PoolError {
    pub index: usize,
}

/// Relies on reqwest::Proxy::all and reqwest::ClientBuilder::build: builds a
/// client that routes all outbound traffic through the given egress address,
/// with a 5-second per-request timeout, or yields nothing when the address
/// is rejected or the client cannot be set up.
#[verifier::external_body]
fn build_egress_client(address: &str) -> (r: Option<reqwest::Client>) {
    let proxy = reqwest::Proxy::all(address).ok()?;
    reqwest::Client::builder().proxy(proxy).timeout(
        std::time::Duration::from_secs(5),
    ).build().ok()
}

/// Builds the egress pool from the configured addresses. On success the pool
/// holds exactly one client per address — the invariant the rotation's
/// modulus relies on; otherwise the position of the first rejected address
/// comes back, so that startup can abort instead of serving with a silently
/// shrunken pool.
pub fn build_pool(addresses: &Vec<String>) -> (r: Result<Vec<reqwest::Client>, PoolError>)
    ensures
        (r matches Ok(pool) ==> pool.len() == addresses.len()),
        (r matches Err(e) ==> e.index < addresses.len()),
        addresses.len() == 0 ==> r is Ok,
{
    let mut pool: Vec<reqwest::Client> = Vec::new();
    let mut i: usize = 0;
    while i < addresses.len()
        invariant
            i <= addresses.len(),
            pool.len() == i,
        decreases addresses.len() - i,
    {
        match build_egress_client(addresses[i].as_str()) {
            Some(client) => pool.push(client),
            None => {
                return Err(PoolError { index: i });
            },
        }
        i = i + 1;
    }
    Ok(pool)
}

} // verus!
