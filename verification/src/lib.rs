//! A verified core for an HTTP forwarding proxy.
//!
//! The proxy accepts JSON-bodied requests, picks one backend URL at random,
//! picks one outbound egress client by round-robin rotation, rewrites the
//! request (target URL, headers minus `content-length`, re-serialized body)
//! and relays the backend's response, or a synthesized bad-gateway error,
//! back to the caller. This crate holds every per-request decision of that
//! pipeline as verified functions; the network edges (listening, sending)
//! live outside it and feed it plain values.

pub mod backend;
pub mod config;
pub mod egress;
pub mod forward;
pub mod headers;
pub mod relay;
pub mod rotation;
