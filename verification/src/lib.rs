//! Access control and lifecycle rules of a small content-delivery file service.
//!
//! Files live in an object store and are described by metadata records. This
//! library holds the part of the service that decides: who may write, which
//! signed links may read, and which records have to go.

use vstd::prelude::*;

pub mod authentication;
pub mod clamav;
pub mod clock;
pub mod database;
pub mod environment;
pub mod hex_text;
pub mod lifecycle;
pub mod mac;
pub mod routes;
pub mod signature;
pub mod text;

verus! {

/// The name under which the service reports itself.
pub const SERVICE: &'static str = "cdn";

/// Milliseconds since the Unix epoch by the system clock. A clock set before
/// the epoch reads as the epoch itself.
pub fn get_time_millis() -> u64 {
    clock::or_epoch(clock::current_millis())
}

} // verus!
