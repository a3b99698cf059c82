//! A minimal container runtime library: cgroup resource control over the
//! v1 and v2 on-disk protocols, construction of a mount jail for a child
//! process, and the supervisor state machines that order fork, cgroup
//! attachment, namespace isolation and command execution.
//!
//! The library computes every decision of the runtime — which control files
//! to write and with what contents, which mount operations to perform and in
//! what order, which step of the bootstrap comes next — as plain values with
//! verified contracts.  Executing those decisions (filesystem writes and
//! syscalls) is left to an unverified runner around the library.

use vstd::prelude::*;

verus! {

/// The error taxonomy of the runtime.
#[derive(Clone, Copy, PartialEq, Eq, Structural, Debug)]
pub enum CgroupError {
    /// A request that is malformed in itself (empty controller list under v1,
    /// a missing required controller argument).
    InvalidConfiguration,
    /// The named cgroup or control file does not exist.
    NotFound,
    /// A privileged operation was rejected.
    PermissionDenied,
    /// A syscall or control-file write failed.
    OperationFailed,
    /// Deletion was attempted on a cgroup that still has member processes.
    ResourceBusy,
    /// The operation is only valid under the other cgroup protocol.
    ProtocolMismatch,
}

/// One pending write of `contents` to the control file at `path`.
///
/// Every mutating cgroup operation of the library returns its effect in this
/// form; the runner performs the write and reports failure to its caller.
#[derive(PartialEq, Eq, Debug)]
pub struct FileWrite {
    pub path: String,
    pub contents: String,
}

} // verus!

pub mod cgroups;
pub mod container;
pub mod controller;
pub mod convert;
pub mod image;
pub mod jail;
pub mod manager;
pub mod paths;
pub mod stats;
pub mod supervisor;
pub mod text;
pub mod version;
