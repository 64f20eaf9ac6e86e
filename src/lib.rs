//! Submission, deduplication and status tracking for reproducible-build
//! verification jobs.
//!
//! - `params`: the request parameters and their fingerprint.
//! - `store`: the job records, with an atomic claim per fingerprint.
//! - `response`: the response bodies and their messages.
//! - `service`: submission (claim, dispatch, completion) and status queries.
//! - `admission`: global and per-client rate limits.
//! - `laws`: properties of the above, proved over their contracts.
pub mod params;
pub mod store;
pub mod response;
pub mod service;
pub mod admission;
pub mod laws;
