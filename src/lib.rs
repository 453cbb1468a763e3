//! The core of a peer-to-peer media session bridge: the decisions that a
//! host-facing session makes about frames, negotiation messages, candidates
//! and its own lifetime, with the transport engine and the codec left to the
//! caller.
pub mod diagnostics;
pub mod encoder;
pub mod ice_transport;
pub mod mux;
pub mod session;
pub mod session_description;
pub mod signaling;
pub mod srtp_stream;
