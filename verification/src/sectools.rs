use vstd::prelude::*;

verus! {

/// Handle for the anonymization and maintenance helpers. The helpers
/// themselves shell out to system services and live with the caller; the
/// handle exists so callers hold one capability for them.
pub struct SecurityTools {}

impl SecurityTools {
    /// Builds a security tools handle.
    pub fn new() -> (r: Self) {
        SecurityTools {  }
    }
}

} // verus!
