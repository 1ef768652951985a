//! Verified core of the Hacksawdio music client: search result assembly,
//! track file naming, request construction and the state machines that
//! drive album downloads and deletions.

pub mod models;
pub mod text;
pub mod search;
pub mod naming;
pub mod errors;
pub mod library;
pub mod requests;
pub mod download;
pub mod deletion;
