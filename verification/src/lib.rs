//! A composable packet-dissection engine.
//!
//! A captured frame is decoded layer by layer into a chain of protocol nodes.
//! Every node keeps its header and payload as views into the capture buffer,
//! and the chain can be searched by protocol, edited through field setters,
//! encoded back to bytes, or projected to a structured document.

pub mod arena;
pub mod bytes;
pub mod chain;
pub mod echo_reply;
pub mod error;
pub mod ethernet;
pub mod icmp;
pub mod ip;
pub mod ip6;
pub mod ip_opt;
pub mod json;
pub mod mac_address;
pub mod packet;
pub mod pdu;
pub mod prelude;
pub mod raw;
pub mod registry;
pub mod table;
pub mod tcp;
pub mod tid;
pub mod udp;
pub mod utils;
