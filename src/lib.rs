//! A rich-presence client library: the wire framing, the presence payload,
//! and the session state machine that drives a connection to a local peer.
pub mod framer;
pub mod activity;
pub mod json;
pub mod serialize;
pub mod packet;
pub mod session;
