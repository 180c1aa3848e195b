//! A one-shot stream-status reporter, as a verified library.
//!
//! The workflow it supports is linear: load a client id/secret pair from a
//! JSON credential text, exchange it for a bearer token, query the live
//! status of one user, and format a three-line report from the first stream
//! record. Everything that computes or decides lives here with a contract;
//! file and network I/O stay with the caller.

pub mod errors;
pub mod json;
pub mod report;
pub mod secret;
