//! The immutable parameter bundle handed in before any connection attempt.

use vstd::prelude::*;

verus! {

/// Addressable parameters of the runtime: where the durable session bytes
/// live, and the application credentials used to connect.
///
/// The caller-supplied prompt and event-handler callbacks live with the
/// driver, next to the I/O they perform; they are not part of this bundle.
pub struct RuntimeConfig {
    pub session_file: String,
    pub api_id: i32,
    pub api_hash: String,
}

impl RuntimeConfig {
    /// Bundles the parameters; no field is altered or defaulted.
    pub fn new(session_file: String, api_id: i32, api_hash: String) -> (c: Self)
        ensures
            c.session_file@ == session_file@,
            c.api_id == api_id,
            c.api_hash@ == api_hash@,
    {
        RuntimeConfig { session_file, api_id, api_hash }
    }
}

} // verus!
