//! The one error value the bridge surfaces: the operation that failed and
//! what the collaborator reported.

use crate::capability::FdId;
use vstd::prelude::*;

verus! {

/// The operations asked of the native resource.
#[derive(Clone, Copy, Debug, PartialEq, Eq, Structural)]
pub enum ResourceOp {
    Descriptors,
    Probe,
    Drain,
}

/// The operations asked of the reactor's registry.
#[derive(Clone, Copy, Debug, PartialEq, Eq, Structural)]
pub enum RegistryOp {
    Register,
    Reregister,
    Deregister,
}

/// Why the bridge gave up. Every kind is fatal: the bridge never retries.
#[derive(Debug)]
#[allow(inconsistent_fields)]
pub enum BridgeError<E> {
    /// The native library failed; `cause` is what it reported.
    Resource { operation: ResourceOp, cause: E },
    /// The reactor refused `operation` on descriptor `fd`.
    Io { operation: RegistryOp, fd: FdId, cause: std::io::Error },
    /// The stream had already been terminated, by an earlier failure or by
    /// teardown, when it was asked to advance.
    Terminated,
}

} // verus!
