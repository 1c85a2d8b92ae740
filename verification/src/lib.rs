//! Core engine of a terminal-resident, tool-using agent.
//!
//! The library holds the orchestration logic: the conversation data model,
//! the tool registry and its dispatch protocol, the permission gate, the
//! task ledger, the turn-taking run loop expressed as a state machine, the
//! single-flight runner, and a lossless codec for persisted session state.
//! Asynchronous plumbing (the backend call, timers, channels, the terminal)
//! lives outside and drives this engine through plain values.

pub mod agent;
pub mod chat;
pub mod error;
pub mod ledger;
pub mod message_state;
pub mod registry;
pub mod runner;
pub mod session;
pub mod strutil;
pub mod textutil;
pub mod tools;
