//! Core logic of an outbound proxy agent: the tunnel frame codec, target
//! policy, DNS validation cache, runtime configuration and the state machines
//! that drive a tunnel connection.

pub mod buffer;
pub mod config;
pub mod gzip;
pub mod lifecycle;
pub mod protocol;
pub mod registration;
pub mod runtime;
pub mod safe_dns;
pub mod sanitize;
pub mod service;
pub mod setup;
pub mod state;
pub mod target_filter;
pub mod text;
pub mod tunnel;
pub mod upgrade;
