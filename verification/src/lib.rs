//! Core logic of a flight-status watcher.
//!
//! A caller supplies an IATA flight code; the watcher queries a flight-data
//! provider, renders the outcome as display text, and re-polls on a fixed
//! interval until the flight's status is first seen to change.  This crate
//! holds the decision and formatting logic: URL construction, input
//! validation, rendering of every query outcome, and the poll-step state
//! machine.  The surrounding process performs the HTTP requests, the JSON
//! decoding and the screen updates, and feeds each outcome back in as a
//! plain value.

pub mod flight;
pub mod poll;
pub mod query;
pub mod render;
