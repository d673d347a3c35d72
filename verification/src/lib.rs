//! A single-session orchestrator for a round-based guessing game.
//!
//! The orchestrator sits between a client and a separate game-logic service.
//! It holds one session record, forwards each client request downstream,
//! suspends the request until the matching reply arrives, counts completed
//! rounds, and enforces a hard deadline of 200 clock ticks measured from
//! session initialization.
//!
//! The state machine itself is pure: every handler takes the session record,
//! the decoded message and a small context (message source, own program id,
//! current block height) and returns the list of messaging commands the host
//! runtime must perform. The host-specific plumbing lives outside this crate.

pub mod types;
pub mod machine;
pub mod laws;
