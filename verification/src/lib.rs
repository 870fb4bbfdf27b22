//! Request planning and response decoding for a market-data proxy.
//!
//! The crate holds the pure core of two proxy operations: it builds the
//! outbound URL for a request, decides what to read from a response, and turns
//! what was read into the caller-facing result. It performs no I/O itself; a
//! driver sends the request and hands back what it received.

pub mod error;
pub mod fund;
pub mod json;
pub mod quote;
pub mod request;
pub mod shift_jis;
pub mod status;
pub mod text;
pub mod transport;
pub mod url;
