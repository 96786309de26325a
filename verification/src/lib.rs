//! A relay library for a tournament bracket service backed by a paged
//! upstream GraphQL API.
//!
//! The heart of the library is the paginated aggregation fetcher: given a
//! parent phase, it enumerates the phase groups, walks each group's sets
//! page by page until a short page signals exhaustion, tags every set with
//! its owning group, and merges everything into one ordered result. The
//! pagination decisions are a verified state machine ([`walker::Walk`]);
//! the surrounding binary performs the HTTP calls and feeds the outcomes
//! back in.

pub mod errors;
pub mod groups;
pub mod merge;
pub mod pagination;
pub mod records;
pub mod set_details;
pub mod stream_queue;
pub mod tournaments;
pub mod walker;
