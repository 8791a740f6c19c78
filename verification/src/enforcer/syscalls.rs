//! The syscalls the enforcer intercepts, and the events it reports.

use vstd::prelude::*;

verus! {

/// A syscall the enforcer intercepts.
#[derive(Debug, Clone, Copy, PartialEq, Eq, Structural)]
pub enum InterceptedSyscall {
    Execve,
    Open,
    Connect,
    Socket,
}

/// The x86-64 syscall number of each intercepted syscall.
pub open spec fn syscall_number(s: InterceptedSyscall) -> u32 {
    match s {
        InterceptedSyscall::Execve => 59,
        InterceptedSyscall::Open => 2,
        InterceptedSyscall::Connect => 42,
        InterceptedSyscall::Socket => 41,
    }
}

impl InterceptedSyscall {
    /// The syscall's number.
    pub fn number(&self) -> (n: u32)
        ensures
            n == syscall_number(*self),
    {
        match self {
            InterceptedSyscall::Execve => 59,
            InterceptedSyscall::Open => 2,
            InterceptedSyscall::Connect => 42,
            InterceptedSyscall::Socket => 41,
        }
    }
}

/// Distinct intercepted syscalls have distinct numbers, so a number names at most one.
pub proof fn lemma_syscall_numbers_distinct(a: InterceptedSyscall, b: InterceptedSyscall)
    ensures
        syscall_number(a) == syscall_number(b) <==> a == b,
{
}

/// What the enforcer reports of one intercepted syscall.
#[derive(Debug, Clone)]
pub struct SecurityEvent {
    pub pid: u32,
    pub syscall: InterceptedSyscall,
    pub allowed: bool,
    pub intent_hash: [u8; 32],
}

} // verus!
