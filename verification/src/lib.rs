//! Presence and call state for the peers of a call-signaling service: who is
//! registered, who is available, and how far each call between two peers has
//! come. Media is neither carried nor negotiated here.

pub mod call_manager;
pub mod call_registry;
mod keyed;
pub mod laws;
pub mod presence;
pub mod signaling;
pub mod trusted;
pub mod user;
pub mod user_registry;
