//! A verified WebRTC peer-connection signaling core.
//!
//! The library owns the mutable negotiation state of one peer connection:
//! an SDP offer/answer state machine, a FIFO event queue that serializes
//! every operation, a one-shot negotiation-readiness latch, and the rules
//! for ICE-candidate exchange and incoming-track handling. Calls into the
//! media engine and the signaling transport are represented as [`Action`]
//! values that an embedder performs; the decisions that produce them are
//! verified here.
//!
//! [`Action`]: actions::Action

pub mod actions;
pub mod controller;
pub mod engine;
pub mod session;
pub mod state;
pub mod streams;
pub mod thread;
