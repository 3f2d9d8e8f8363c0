//! Core of a resilient startup handshake: a client obtains a peer-to-peer
//! session with a sibling service over a single file handle that a launcher
//! passed through the environment. The service may not be listening yet when
//! the client starts, so the handshake validates, clones, and retries over the
//! raw handle without consuming it.
//!
//! This crate holds the decision logic of that handshake: the error taxonomy
//! and its fatal/retryable split, the parsing of the environment value into a
//! handle identifier, and the retry state machine that drives the attempt
//! pipeline. The OS and protocol calls themselves (descriptor duplication,
//! flag setting, session negotiation) are performed by the surrounding
//! program, which feeds their outcomes into this machine.

pub mod errors;
pub mod resolve;
pub mod retry;
