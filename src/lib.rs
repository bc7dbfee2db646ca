//! Retrieval of a user's contribution activity from a paginated graph query API.
//!
//! The library holds the decisions of the retrieval: the variables of each
//! request, the drain of one paginated connection ([`pagination`]), the summary
//! fetch and the all-or-nothing merge of three drains ([`orchestrator`]), the
//! classification of failures ([`error`]), and the argument and filter logic
//! around them. Sending requests and awaiting replies is left to the caller,
//! which hands each reply back to the state machines here.

pub mod activity;
pub mod args;
pub mod error;
pub mod filter;
pub mod format;
pub mod orchestrator;
pub mod pagination;
pub mod query;
pub mod text;
pub mod time;
