//! Classifies domains as live or dead by probing their HTTP and HTTPS
//! endpoints under bounded concurrency.
//!
//! This crate holds the verified core: preparing input lines, deriving the
//! candidate URLs, the per-domain check state machine (HTTP strictly before
//! HTTPS, with short-circuit on the first success), the append-only result
//! sinks, the console message formats, and the admission limiter that caps
//! simultaneous in-flight checks. The surrounding process (argument parsing,
//! file reading, the HTTP transport, the async runtime) drives this core and
//! stays outside it.

use vstd::prelude::*;

pub mod check;
pub mod limiter;
pub mod message;
pub mod sink;
pub mod status;
pub mod text;

verus! {

/// Default cap on domain checks that may hold network resources at once.
pub const MAX_CONCURRENT_REQUESTS: usize = 100;

/// Per-request timeout, in seconds; the client-level timeout uses the same
/// duration.
pub const REQUEST_TIMEOUT_SECS: u64 = 10;

} // verus!
