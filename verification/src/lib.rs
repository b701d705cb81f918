//! Lifecycle of MP3 decoding sessions on top of the mpg123 engine.
//!
//! The engine itself is reached through a raw C interface, so this library
//! never calls it. Instead a [`Decoder`] is a small state machine: it says
//! which engine call is due next ([`Decoder::request`]), is told what the
//! engine answered ([`Decoder::advance`]), and decides from that how the
//! session goes on. Every decision is verified, including that a handle the
//! engine handed out is given back exactly once however the session ends.

pub mod bootstrap;
pub mod decoder;
pub mod engine;
pub mod error;
pub mod laws;

pub use bootstrap::Bootstrap;
pub use decoder::{Decoder, Session, Stage};
pub use engine::{Format, Reply, Request};
pub use error::{Error, Failure};
