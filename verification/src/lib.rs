//! A small library for driving one outbound, authenticated peer connection
//! to a terminal outcome.
//!
//! The heart of the library is the connection lifecycle controller: given the
//! result of an outbound transport dial and a stream of non-blocking
//! observations of two racing signals (the connection-lifetime signal and the
//! peer registry), it decides whether the attempt ended `Established`,
//! `Closed`, or `ConnectFailed`. Around it stand the identity-material
//! generator, the peer-identity model, and the reporter that maps outcomes to
//! the exact message lines and exit codes the process must emit.

pub mod controller;
pub mod identity;
pub mod peer_id;
pub mod report;
