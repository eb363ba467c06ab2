//! Whitelist relay: admission control, request framing, credential checking,
//! console output classification and the per-connection decision flow.
use vstd::prelude::*;

pub mod auth;
pub mod cfg;
pub mod codec;
pub mod console;
pub mod err;
pub mod handler;
pub mod limiter;
pub mod text;

verus! {

} // verus!
