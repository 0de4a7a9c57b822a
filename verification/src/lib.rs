//! The DTLS transport of a WebRTC peer, as a verified state machine.
//!
//! A [`transport::DTLSTransport`] holds everything the transport remembers and makes every decision:
//! which DTLS role to take, how to configure the handshake and the SRTP sessions, what a finished
//! handshake leads to, what to close on shutdown and which error to report. It performs no input or
//! output. Each operation returns an [`action::Action`]; the caller performs it, and hands the reply
//! to the method that the action names, which returns the next action, until one says `Done`.
pub mod action;
pub mod config;
pub mod dtls_parameters;
pub mod dtls_role;
pub mod dtls_transport_state;
pub mod error;
pub mod ice;
pub mod laws;
pub mod model;
pub mod outside;
pub mod protection_profile;
pub mod resources;
pub mod setting_engine;
pub mod transport;
