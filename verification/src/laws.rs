//! What holds of the transport as a whole.
pub mod closing;
pub mod construction;
pub mod endpoints;
pub mod handshake;
pub mod history;
pub mod negotiation;
pub mod roles;
pub mod sessions;
pub mod shutdown;
pub mod trace;
pub mod views;
