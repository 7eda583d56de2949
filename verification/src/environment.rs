//! What the service is set up with where its surroundings say nothing.

use vstd::prelude::*;

verus! {

/// Hours that a file may stay unlinked.
pub const DEFAULT_FILE_TIMEOUT_HOURS: i64 = 3;

/// Seconds for which a signed link opens its file.
pub const DEFAULT_SIGNATURE_EXPIRY_SECONDS: u64 = 3600;

/// The host of the virus scanner.
pub const DEFAULT_CLAMAV_HOST: &'static str = "127.0.0.1";

/// The port of the virus scanner.
pub const DEFAULT_CLAMAV_PORT: u16 = 3310;

/// The address that the service listens on.
pub const DEFAULT_BIND_ADDRESS: &'static str = "127.0.0.1:8080";

} // verus!
