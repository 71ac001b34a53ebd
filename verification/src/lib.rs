//! A reverse tunnel: a public server forwards HTTP connections, by the
//! subdomain named in their request path, to clients that registered that
//! subdomain over a control channel.
//!
//! This crate holds the tunnel's decisions: how a request is routed, how the
//! control protocol is answered, which connections wait for a client, and the
//! state of a client's tunnel. The network, the timers and the user interface
//! stay with the program that drives it.

pub mod http;
pub mod laws;
pub mod protocol;
pub mod registry;
pub mod text;
pub mod tunnel;
