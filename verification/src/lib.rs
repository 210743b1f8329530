//! A client for the 1Password Connect API: the request pipeline, verified.
//!
//! The crate turns a logical call (method, path, query parameters and an
//! optional body) into the request to send, decides what to do when an
//! attempt fails, and turns the response into a decoded value or a
//! classified error. It sends nothing itself: the caller performs each
//! exchange and each wait, and reports back.

use vstd::prelude::*;

pub mod backoff;
pub mod client;
pub mod error;
pub mod models;
pub mod response;
pub mod retry;
pub mod text;
pub mod trusted;
pub mod vault;

verus! {

/// Number of transport attempts a single call may make.
pub const RETRY_ATTEMPTS: u32 = 5;

} // verus!
