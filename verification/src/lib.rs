//! Recognizer for 24-hour clock timestamps of the form `H:MM` or `HH:MM`
//! (hour 0-23, minute 0-59, exactly one `:` separator, nothing else).
//!
//! Two independent deciders are provided and proven to agree on every input:
//! a semantic check in [`common`] and a table-driven finite automaton in
//! [`fsm`]. The shared grammar both are measured against lives in [`grammar`].

pub mod common;
pub mod fsm;
pub mod grammar;
