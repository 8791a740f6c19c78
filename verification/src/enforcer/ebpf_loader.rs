//! The optional syscall enforcer. This build carries no eBPF program, so loading
//! it always reports that the feature is not enabled.

use vstd::prelude::*;

verus! {

/// Why the enforcer could not be loaded.
#[derive(Debug, Clone, PartialEq, Eq)]
pub enum EnforcerError {
    FeatureNotEnabled,
}

impl EnforcerError {
    /// The error's message.
    pub fn message(&self) -> (s: String)
        ensures
            s@ == "ebpf feature not enabled"@,
    {
        String::from_str("ebpf feature not enabled")
    }
}

/// A loaded syscall enforcer.
#[derive(Debug, Default)]
pub struct EbpfEnforcer;

impl EbpfEnforcer {
    /// Loads the enforcer; without the eBPF feature this always fails.
    pub fn load() -> (r: Result<Self, EnforcerError>)
        ensures
            r matches Err(EnforcerError::FeatureNotEnabled),
    {
        Err(EnforcerError::FeatureNotEnabled)
    }
}

} // verus!
