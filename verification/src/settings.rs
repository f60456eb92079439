//! The policy's configuration. The schema has no fields, so validation
//! always succeeds; the entry point exists for completeness of the external
//! contract.

use vstd::prelude::*;

verus! {

/// The policy's configuration object. It has no fields.
#[derive(Clone, Copy, Debug, PartialEq, Eq, Structural)]
pub struct Settings {}

impl Settings {
    /// Settings validation: with no fields to constrain, every configuration
    /// is valid.
    pub fn validate(&self) -> (r: Result<(), String>)
        ensures
            r is Ok,
    {
        Ok(())
    }
}

} // verus!
