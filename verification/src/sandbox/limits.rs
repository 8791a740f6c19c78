//! Resource limits of a sandbox and the container host settings derived from them.

use vstd::prelude::*;

use crate::sandbox::SandboxError;

verus! {

/// The most CPU cores a sandbox may have.
pub const MAX_CPU_CORES: i32 = 1;

/// The most memory, in MiB, a sandbox may have.
pub const MAX_MEMORY_MB: i64 = 512;

/// Bytes in one MiB.
pub const BYTES_PER_MB: i64 = 1048576;

/// Nanoseconds of CPU time per second, per core.
pub const NANO_CPUS_PER_CORE: i64 = 1000000000;

/// CPU, memory and network limits of one sandbox.
#[derive(Debug, Clone, Copy, PartialEq, Eq, Structural)]
pub struct ResourceLimitConfig {
    pub cpu_cores: i32,
    pub memory_mb: i64,
    pub network_enabled: bool,
}

/// The limits a sandbox gets when none are asked for: one core, 512 MiB, no network.
pub open spec fn default_limits() -> ResourceLimitConfig {
    ResourceLimitConfig { cpu_cores: 1, memory_mb: 512, network_enabled: false }
}

/// Whether limits are within the bounds every sandbox must respect.
pub open spec fn limits_valid(limits: ResourceLimitConfig) -> bool {
    &&& 1 <= limits.cpu_cores <= MAX_CPU_CORES
    &&& 1 <= limits.memory_mb <= MAX_MEMORY_MB
}

/// The error `validate` reports for limits, if any; the CPU bound is checked first.
pub open spec fn limits_error(limits: ResourceLimitConfig) -> Option<SandboxError> {
    if !(1 <= limits.cpu_cores <= MAX_CPU_CORES) {
        Some(SandboxError::InvalidCpuCores)
    } else if !(1 <= limits.memory_mb <= MAX_MEMORY_MB) {
        Some(SandboxError::InvalidMemory)
    } else {
        None
    }
}

/// Whether the memory limit, in bytes, fits the container API's signed 64-bit field.
pub open spec fn memory_bytes_fit(limits: ResourceLimitConfig) -> bool {
    i64::MIN <= limits.memory_mb * BYTES_PER_MB <= i64::MAX
}

/// The host settings of a container: its bind mounts, memory in bytes, CPU quota in
/// nano-CPUs, network mode (`bridge` or `none`) and whether it is removed on exit.
#[derive(Debug, Clone, PartialEq, Eq)]
pub struct HostConfig {
    pub binds: Vec<String>,
    pub memory: i64,
    pub nano_cpus: i64,
    pub network_mode: String,
    pub auto_remove: bool,
}

/// The network mode for limits: `bridge` with network, `none` without.
pub open spec fn network_mode_text(network_enabled: bool) -> Seq<char> {
    if network_enabled { "bridge"@ } else { "none"@ }
}

impl Default for ResourceLimitConfig {
    fn default() -> (limits: Self)
        ensures
            limits == default_limits(),
    {
        Self { cpu_cores: 1, memory_mb: 512, network_enabled: false }
    }
}

impl ResourceLimitConfig {
    /// Checks the limits against the bounds; the CPU bound is checked first.
    pub fn validate(&self) -> (r: Result<(), SandboxError>)
        ensures
            r is Ok == limits_valid(*self),
            r is Ok == limits_error(*self) is None,
            r matches Err(e) ==> limits_error(*self) == Some(e),
    {
        if self.cpu_cores <= 0 || self.cpu_cores > MAX_CPU_CORES {
            return Err(SandboxError::InvalidCpuCores);
        }
        if self.memory_mb <= 0 || self.memory_mb > MAX_MEMORY_MB {
            return Err(SandboxError::InvalidMemory);
        }
        Ok(())
    }

    /// The host settings that enforce these limits, with the given bind mounts.
    pub fn to_host_config(&self, binds: Vec<String>) -> (h: HostConfig)
        requires
            memory_bytes_fit(*self),
        ensures
            h.binds@ == binds@,
            h.memory == self.memory_mb * BYTES_PER_MB,
            h.nano_cpus == self.cpu_cores * NANO_CPUS_PER_CORE,
            h.network_mode@ == network_mode_text(self.network_enabled),
            h.auto_remove,
    {
        let network_mode = if self.network_enabled {
            String::from_str("bridge")
        } else {
            String::from_str("none")
        };
        HostConfig {
            binds,
            memory: self.memory_mb * BYTES_PER_MB,
            nano_cpus: self.cpu_cores as i64 * NANO_CPUS_PER_CORE,
            network_mode,
            auto_remove: true,
        }
    }
}

/// The default limits pass validation.
pub proof fn lemma_default_limits_valid()
    ensures
        limits_valid(default_limits()),
        limits_error(default_limits()) is None,
        memory_bytes_fit(default_limits()),
{
}

/// Valid limits give a container at most one core (10^9 nano-CPUs) and at most
/// 512 MiB of memory, and never overflow the byte count.
pub proof fn lemma_valid_limits_bound_the_container(limits: ResourceLimitConfig)
    requires
        limits_valid(limits),
    ensures
        memory_bytes_fit(limits),
        0 < limits.memory_mb * BYTES_PER_MB <= MAX_MEMORY_MB * BYTES_PER_MB,
        0 < limits.cpu_cores * NANO_CPUS_PER_CORE <= MAX_CPU_CORES * NANO_CPUS_PER_CORE,
{
    assert(0 < limits.memory_mb * BYTES_PER_MB <= MAX_MEMORY_MB * BYTES_PER_MB) by (nonlinear_arith)
        requires
            1 <= limits.memory_mb <= MAX_MEMORY_MB,
    ;
}

} // verus!
