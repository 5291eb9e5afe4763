//! Process-lifetime configuration: the listen port, the backend URL list and
//! the egress address list. The configuration source is read and deserialized
//! outside the library; its fields enter here as plain values.

use vstd::prelude::*;

verus! {

/// Immutable configuration, loaded once at startup and shared read-only by
/// every request handler.
pub struct BotConfig {
    /// Port the proxy listens on.
    pub http_port: i32,
    /// Ordered backend base URLs; one is chosen at random per request.
    pub block_engine_urls: Vec<String>,
    /// Ordered egress proxy addresses; one client is built per address.
    pub proxy: Vec<String>,
}

/// Assembles the configuration from its already-parsed fields, keeping each
/// one exactly as given.
pub fn load_config(http_port: i32, block_engine_urls: Vec<String>, proxy: Vec<String>) -> (c:
    BotConfig)
    ensures
        c.http_port == http_port,
        c.block_engine_urls == block_engine_urls,
        c.proxy == proxy,
{
    BotConfig { http_port, block_engine_urls, proxy }
}

} // verus!
