//! Policy core of a sidecar that runs agent code in sandboxes: intent-bound
//! JWT checks, resource limits, sandbox bookkeeping and command construction.

pub mod enforcer;
pub mod grpc;
pub mod jwt;
pub mod sandbox;
pub mod sidecar;
pub mod text;
