//! Session negotiation for a two-party data channel: the offline descriptor
//! codec, the candidate buffer, the relay message handler and the negotiation
//! state machine, with every transition stated as a contract.

pub mod candidate;
pub mod encoding;
pub mod codec;
pub mod state;
pub mod relay;
pub mod engine;
pub mod network_manager;
pub mod laws;
