//! A manager for one container's dedicated cgroup under the unified
//! hierarchy's fixed runtime directory.  Every operation is returned as
//! the directory to create or remove, or the control-file write to
//! perform; the runner executes it.

use vstd::prelude::*;

use crate::paths::path_join;
use crate::text::dec_str;
use crate::FileWrite;

verus! {

/// Manages the cgroup `/sys/fs/cgroup/woody/<container-id>`.
pub struct CgroupManager {
    pub cgroup_path: String,
}

impl CgroupManager {
    /// A manager for the container's own group under the runtime's
    /// fixed directory in the unified hierarchy.
    pub fn new(container_id: &str) -> (m: Self)
        ensures
            m.cgroup_path@ == "/sys/fs/cgroup/woody/"@ + container_id@,
    {
        CgroupManager { cgroup_path: String::from_str("/sys/fs/cgroup/woody/").concat(container_id) }
    }

    /// The directory to create (with its parents) for this group.
    pub fn create(&self) -> (d: String)
        ensures
            d@ == self.cgroup_path@,
    {
        self.cgroup_path.clone()
    }

    /// The write that enables the pids and memory controllers for child
    /// groups of the runtime directory.  Must precede any limit write.
    pub fn enable_controllers(&self) -> (w: FileWrite)
        ensures
            w.path@ == "/sys/fs/cgroup/woody/cgroup.subtree_control"@,
            w.contents@ == "+pids +memory"@,
    {
        FileWrite {
            path: String::from_str("/sys/fs/cgroup/woody/cgroup.subtree_control"),
            contents: String::from_str("+pids +memory"),
        }
    }

    /// The write that caps the number of processes in the group.
    pub fn set_pid_limit(&self, limit: u32) -> (w: FileWrite)
        ensures
            w.path@ == path_join(self.cgroup_path@, "pids.max"@),
            w.contents@ == dec_str(limit as nat),
    {
        FileWrite {
            path: crate::paths::join_path(self.cgroup_path.as_str(), "pids.max"),
            contents: crate::text::u32_to_string(limit),
        }
    }

    /// The write that caps the group's memory in bytes.
    pub fn set_memory_limit(&self, limit: u64) -> (w: FileWrite)
        ensures
            w.path@ == path_join(self.cgroup_path@, "memory.max"@),
            w.contents@ == dec_str(limit as nat),
    {
        FileWrite {
            path: crate::paths::join_path(self.cgroup_path.as_str(), "memory.max"),
            contents: crate::text::u64_to_string(limit),
        }
    }

    /// The write that moves the process `pid` into the group.
    pub fn add_process(&self, pid: u32) -> (w: FileWrite)
        ensures
            w.path@ == path_join(self.cgroup_path@, "cgroup.procs"@),
            w.contents@ == dec_str(pid as nat),
    {
        FileWrite {
            path: crate::paths::join_path(self.cgroup_path.as_str(), "cgroup.procs"),
            contents: crate::text::u32_to_string(pid),
        }
    }

    /// The directory to remove to tear the group down; the runner
    /// ignores a failure here, as teardown is best-effort.
    pub fn destroy(&self) -> (d: String)
        ensures
            d@ == self.cgroup_path@,
    {
        self.cgroup_path.clone()
    }
}

} // verus!
