pub mod ebpf_loader;
pub mod syscalls;
