//! Types and request/reply logic of a client for a substrate node's
//! JSON-RPC interface.
//!
//! - `number`: block numbers, given directly or as 256-bit values.
//! - `types`: the values that the node sends back.
//! - `request`: the method and parameters of each call.
//! - `reply`: what the client makes of the node's replies.
//! - `transport`: the address of the node's websocket endpoint.

pub mod number;
pub mod reply;
pub mod request;
pub mod transport;
pub mod types;
