//! The launch request: what to run, where its root filesystem lives,
//! and which resource limits to apply.

use vstd::prelude::*;

verus! {

/// One launch request: the command path (the first element of
/// `command`), its arguments, and the root filesystem directory the
/// jail is built from.
#[derive(Debug)]
pub struct ContainerConfig {
    pub command: Vec<String>,
    pub args: Vec<String>,
    pub rootfs: String,
}

/// A CPU bandwidth cap: `quota_us` microseconds of CPU per period of
/// `period_us` microseconds; a negative quota means no limit.
#[derive(Clone, Copy, PartialEq, Eq, Structural, Debug)]
pub struct CpuQuota {
    pub quota_us: i64,
    pub period_us: u64,
}

/// The resource caps applied to the supervised process, each absent
/// field left unlimited.
#[derive(Debug)]
pub struct ResourceLimits {
    pub memory_bytes: Option<u64>,
    pub pids: Option<u32>,
    pub cpu_shares: Option<u64>,
    pub cpu_quota: Option<CpuQuota>,
}

impl ResourceLimits {
    /// The machine bound the share→weight conversion needs.
    pub open spec fn wf(&self) -> bool {
        match self.cpu_shares {
            Some(s) => s * 100 <= u64::MAX,
            None => true,
        }
    }

    /// No caps at all.
    pub fn none() -> (r: Self)
        ensures
            r.memory_bytes is None,
            r.pids is None,
            r.cpu_shares is None,
            r.cpu_quota is None,
            r.wf(),
    {
        ResourceLimits { memory_bytes: None, pids: None, cpu_shares: None, cpu_quota: None }
    }
}

/// A container: its launch request.  The supervisor drives the launch.
pub struct Container {
    pub config: ContainerConfig,
}

impl Container {
    /// A container for the given launch request.
    pub fn new(config: ContainerConfig) -> (c: Self)
        ensures
            c.config == config,
    {
        Container { config }
    }
}

/// Copies a list of strings.
pub fn clone_strings(v: &Vec<String>) -> (r: Vec<String>)
    ensures
        r@ == v@,
{
    let mut r: Vec<String> = Vec::new();
    let mut i: usize = 0;
    while i < v.len()
        invariant
            i <= v@.len(),
            r@ == v@.take(i as int),
        decreases v@.len() - i,
    {
        r.push(v[i].clone());
        proof {
            assert(v@.take(i + 1) =~= v@.take(i as int).push(v@[i as int]));
        }
        i = i + 1;
    }
    proof {
        assert(v@.take(v@.len() as int) =~= v@);
    }
    r
}

} // verus!
