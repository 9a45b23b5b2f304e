//! A small persistent key-value store with session counters and the
//! request-handling rules of its HTTP surface.
//!
//! Values are strings of at most [`MAX_BODY_BYTES`] bytes, each held under a
//! single key; writing a key replaces its value. The store itself lives in a
//! SQLite database reached through a handful of trusted calls; everything
//! around those calls — counters, size accounting, body accumulation, request
//! handling — is verified.

use vstd::prelude::*;

pub mod app_state;
pub mod db;
pub mod handlers;
pub mod laws;
pub mod personalize;

verus! {

/// Upper bound, in bytes, on a value submitted through a request body.
pub const MAX_BODY_BYTES: usize = 1024 * 1024;

} // verus!
