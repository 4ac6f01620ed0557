//! A server for weather-station nodes speaking a framed request/response
//! protocol: wire framing, duplicate detection, rate limiting and the
//! per-connection session state machine, with their contracts.

pub mod admission;
pub mod cli;
pub mod codec;
pub mod config;
pub mod db;
pub mod dupfilter;
pub mod error;
pub mod idgen;
pub mod mac;
pub mod message;
pub mod queue;
pub mod ratelimit;
pub mod session;
pub mod signal;
pub mod svcmgr;
pub mod tz;
