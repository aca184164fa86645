//! Verified core of a QUIC/HTTP3 benchmark client: request construction,
//! byte/text encodings, the per-connection driver decisions and the
//! measurement bookkeeping. Sockets, timers and the QUIC engine itself are
//! driven by the application around this library.

pub mod text;
pub mod hex;
pub mod decimal;
pub mod request;
pub mod qlog;
pub mod session;
pub mod driver;
pub mod measure;
pub mod plan;
pub mod config;
pub mod conn_id;
