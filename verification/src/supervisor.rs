//! The process supervisor: the two state machines that order fork,
//! cgroup configuration and attachment, namespace isolation, the jail
//! bootstrap, and command execution.
//!
//! The runner performs each action the machines hand out — syscalls
//! and control-file writes — and reports back whether it succeeded.
//! The machines decide everything else, and their contracts encode the
//! ordering guarantees: limits are configured before the fork, the
//! namespaces are unshared before the first mount, every mount
//! precedes the chroot, and the child joins the cgroup before it
//! executes the command.

use vstd::prelude::*;

use crate::container::{clone_strings, ContainerConfig, ResourceLimits};
use crate::jail::{jail_steps, jail_steps_spec, lemma_chroot_after_mounts, JailStep, MountPlan};
use crate::manager::{pids_of, Cgroup};
use crate::paths::path_join;
use crate::text::dec_str;
use crate::version::CgroupVersion;
use crate::{CgroupError, FileWrite};

verus! {

/// The kernel namespaces to unshare, all in one call: partial
/// isolation is not a supported intermediate state.
#[derive(Clone, Copy, PartialEq, Eq, Structural, Debug)]
pub struct NamespaceSet {
    pub pid: bool,
    pub mount: bool,
    pub uts: bool,
    pub ipc: bool,
    pub net: bool,
}

impl NamespaceSet {
    /// The launch policy: PID, mount, UTS, IPC and network namespaces
    /// together.
    pub fn all() -> (r: Self)
        ensures
            r == (NamespaceSet { pid: true, mount: true, uts: true, ipc: true, net: true }),
    {
        NamespaceSet { pid: true, mount: true, uts: true, ipc: true, net: true }
    }
}

/// A model of one cgroup's process membership, as the kernel keeps it:
/// a set.  Writing a pid that is already a member changes nothing, so
/// the membership file never lists a pid twice.
pub struct Membership {
    pub pids: Vec<u32>,
}

impl Membership {
    /// No pid is listed twice.
    pub open spec fn wf(&self) -> bool {
        forall|i: int, j: int|
            0 <= i < j < self.pids@.len() ==> #[trigger] self.pids@[i] != #[trigger] self.pids@[j]
    }

    /// The membership as a set.
    pub open spec fn as_set(&self) -> Set<u32> {
        Set::new(|p: u32| self.pids@.contains(p))
    }

    /// An empty membership.
    pub fn new() -> (m: Self)
        ensures
            m.wf(),
            m.as_set() == Set::<u32>::empty(),
            m.pids@.len() == 0,
    {
        let m = Membership { pids: Vec::new() };
        proof {
            assert(m.as_set() =~= Set::<u32>::empty());
        }
        m
    }

    fn contains_pid(&self, pid: u32) -> (r: bool)
        ensures
            r == self.pids@.contains(pid),
    {
        let mut i: usize = 0;
        while i < self.pids.len()
            invariant
                i <= self.pids@.len(),
                forall|k: int| 0 <= k < i as int ==> self.pids@[k] != pid,
            decreases self.pids@.len() - i,
        {
            if self.pids[i] == pid {
                return true;
            }
            i = i + 1;
        }
        false
    }

    /// Records that `pid` was written into the membership file: the
    /// kernel moves the process into the group, and a pid already a
    /// member stays a single entry.
    pub fn record_attach(&mut self, pid: u32)
        requires
            old(self).wf(),
        ensures
            final(self).wf(),
            final(self).as_set() == old(self).as_set().insert(pid),
            final(self).pids@.contains(pid),
    {
        let present = self.contains_pid(pid);
        if !present {
            let ghost olds = self.pids@;
            self.pids.push(pid);
            proof {
                assert(self.pids@ == olds.push(pid));
                assert(self.pids@[olds.len() as int] == pid);
                assert forall|p: u32| self.pids@.contains(p) implies (olds.contains(p) || p
                    == pid) by {
                    let i = choose|i: int| 0 <= i < self.pids@.len() && self.pids@[i] == p;
                    if i < olds.len() {
                        assert(olds[i] == p);
                    }
                }
                assert forall|p: u32| olds.contains(p) implies self.pids@.contains(p) by {
                    let i = choose|i: int| 0 <= i < olds.len() && olds[i] == p;
                    assert(self.pids@[i] == p);
                }
                assert(self.as_set() =~= old(self).as_set().insert(pid));
            }
        } else {
            proof {
                assert(self.as_set() =~= old(self).as_set().insert(pid));
            }
        }
    }

    /// Whether no process is a member.
    pub fn is_empty(&self) -> (r: bool)
        ensures
            r == (self.pids@.len() == 0),
    {
        self.pids.len() == 0
    }
}

/// Attaching the same pid twice is idempotent: the membership — a set —
/// is the same after the second attach as after the first, and it
/// holds the pid.
pub proof fn lemma_attach_idempotent(members: Set<u32>, pid: u32)
    ensures
        members.insert(pid).insert(pid) == members.insert(pid),
        members.insert(pid).contains(pid),
{
    assert(members.insert(pid).insert(pid) =~= members.insert(pid));
}

/// However often a pid was attached, a well-formed membership that
/// holds it lists it at exactly one position: the read-back shows one
/// entry, never a duplicate.
pub proof fn lemma_attach_single_entry(m: Membership, pid: u32)
    requires
        m.wf(),
        m.pids@.contains(pid),
    ensures
        exists|k: int| 0 <= k < m.pids@.len() && m.pids@[k] == pid,
        forall|k: int, l: int|
            0 <= k < m.pids@.len() && 0 <= l < m.pids@.len() && m.pids@[k] == pid && m.pids@[l]
                == pid ==> k == l,
{
    assert forall|k: int, l: int|
        0 <= k < m.pids@.len() && 0 <= l < m.pids@.len() && m.pids@[k] == pid && m.pids@[l]
            == pid implies k == l by {
        if k < l {
            assert(m.pids@[k] != m.pids@[l]);
        } else if l < k {
            assert(m.pids@[l] != m.pids@[k]);
        }
    }
}

/// The phases of the child's bootstrap, in order.
#[derive(Clone, Copy, PartialEq, Eq, Structural, Debug)]
pub enum ChildPhase {
    /// Unsharing the kernel namespaces, before any mount.
    Isolating,
    /// Performing the jail steps, strictly in order.
    Jailing,
    /// Setting the hostname, after the jail is entered.
    NamingHost,
    /// Writing the child's own pid into the membership file, before
    /// the command runs so everything it spawns inherits the limits.
    JoiningCgroup,
    /// Replacing the process image; on success no supervisor code
    /// runs again.
    Executing,
    /// A step failed: the child must terminate with a non-zero
    /// status, never continue half-isolated.
    Failed,
}

/// What the runner must do next.  The data each action needs stands in
/// the machine's fields.
#[derive(Clone, Copy, PartialEq, Eq, Structural, Debug)]
pub enum ChildAction {
    /// Unshare the machine's namespace set, in a single call.
    Unshare,
    /// Perform jail step `i` of the machine's step list.
    JailStepAt(usize),
    /// Set the machine's hostname.
    SetHostname,
    /// Write the runner's own pid into the file at the machine's
    /// membership path.
    JoinCgroup,
    /// Replace the process image with the machine's command, argument
    /// vector and environment.
    Exec,
    /// Terminate with a non-zero status.
    Fail,
}

/// The child-side state machine.
pub struct ChildMachine {
    pub namespaces: NamespaceSet,
    pub steps: Vec<JailStep>,
    pub next_step: usize,
    pub hostname: String,
    pub procs_path: String,
    pub command: String,
    pub argv: Vec<String>,
    pub env: Vec<String>,
    pub phase: ChildPhase,
}

impl ChildMachine {
    /// The machine's bookkeeping invariant.
    pub open spec fn wf(&self) -> bool {
        &&& self.next_step <= self.steps@.len()
        &&& (self.phase == ChildPhase::Isolating ==> self.next_step == 0)
        &&& (self.phase == ChildPhase::Jailing ==> self.next_step < self.steps@.len())
    }

    /// A bootstrap for the launch request: unshare `namespaces`, run
    /// the serialized `plan`, set `hostname`, join the cgroup whose
    /// membership file is at `procs_path`, then execute the config's
    /// command with argument 0 set to the command path, and `env` as
    /// environment.
    pub fn new(
        config: &ContainerConfig,
        namespaces: NamespaceSet,
        plan: MountPlan,
        hostname: &str,
        procs_path: &str,
        env: Vec<String>,
    ) -> (m: Self)
        requires
            config.command@.len() > 0,
        ensures
            m.wf(),
            m.phase == ChildPhase::Isolating,
            m.next_step == 0,
            m.namespaces == namespaces,
            m.steps@ == jail_steps_spec(plan),
            m.hostname@ == hostname@,
            m.procs_path@ == procs_path@,
            m.command == config.command@[0],
            m.argv@ == seq![config.command@[0]] + config.args@,
            m.env == env,
    {
        let steps = jail_steps(plan);
        let mut argv: Vec<String> = Vec::new();
        argv.push(config.command[0].clone());
        let mut more = clone_strings(&config.args);
        argv.append(&mut more);
        proof {
            assert(argv@ =~= seq![config.command@[0]] + config.args@);
        }
        ChildMachine {
            namespaces,
            steps,
            next_step: 0,
            hostname: String::from_str(hostname),
            procs_path: String::from_str(procs_path),
            command: config.command[0].clone(),
            argv,
            env,
            phase: ChildPhase::Isolating,
        }
    }

    /// The next action the runner must take, decided by the phase.
    pub fn next_action(&self) -> (a: ChildAction)
        requires
            self.wf(),
        ensures
            self.phase == ChildPhase::Isolating ==> a == ChildAction::Unshare,
            self.phase == ChildPhase::Jailing ==> a == ChildAction::JailStepAt(self.next_step),
            self.phase == ChildPhase::NamingHost ==> a == ChildAction::SetHostname,
            self.phase == ChildPhase::JoiningCgroup ==> a == ChildAction::JoinCgroup,
            self.phase == ChildPhase::Executing ==> a == ChildAction::Exec,
            self.phase == ChildPhase::Failed ==> a == ChildAction::Fail,
    {
        match self.phase {
            ChildPhase::Isolating => ChildAction::Unshare,
            ChildPhase::Jailing => ChildAction::JailStepAt(self.next_step),
            ChildPhase::NamingHost => ChildAction::SetHostname,
            ChildPhase::JoiningCgroup => ChildAction::JoinCgroup,
            ChildPhase::Executing => ChildAction::Exec,
            ChildPhase::Failed => ChildAction::Fail,
        }
    }

    /// Applies the outcome of the action just performed.  Any failure
    /// is fatal to the bootstrap.  A successful exec never returns,
    /// so no outcome can be reported for it.
    pub fn advance(&mut self, ok: bool)
        requires
            old(self).wf(),
            old(self).phase != ChildPhase::Failed,
            old(self).phase == ChildPhase::Executing ==> !ok,
        ensures
            final(self).wf(),
            final(self).namespaces == old(self).namespaces,
            final(self).steps == old(self).steps,
            final(self).hostname == old(self).hostname,
            final(self).procs_path == old(self).procs_path,
            final(self).command == old(self).command,
            final(self).argv == old(self).argv,
            final(self).env == old(self).env,
            !ok ==> final(self).phase == ChildPhase::Failed,
            ok && old(self).phase == ChildPhase::Isolating ==> final(self).next_step == 0 && final(self).phase
                == (if old(self).steps@.len() > 0 {
                ChildPhase::Jailing
            } else {
                ChildPhase::NamingHost
            }),
            ok && old(self).phase == ChildPhase::Jailing ==> final(self).next_step == old(self).next_step
                + 1 && final(self).phase == (if old(self).next_step + 1 < old(self).steps@.len() {
                ChildPhase::Jailing
            } else {
                ChildPhase::NamingHost
            }),
            ok && old(self).phase == ChildPhase::NamingHost ==> final(self).phase
                == ChildPhase::JoiningCgroup && final(self).next_step == old(self).next_step,
            ok && old(self).phase == ChildPhase::JoiningCgroup ==> final(self).phase
                == ChildPhase::Executing && final(self).next_step == old(self).next_step,
    {
        if !ok {
            self.phase = ChildPhase::Failed;
            return ;
        }
        match self.phase {
            ChildPhase::Isolating => {
                if self.steps.len() > 0 {
                    self.phase = ChildPhase::Jailing;
                } else {
                    self.phase = ChildPhase::NamingHost;
                }
            },
            ChildPhase::Jailing => {
                let len = self.steps.len();
                self.next_step = self.next_step + 1;
                if self.next_step < len {
                } else {
                    self.phase = ChildPhase::NamingHost;
                }
            },
            ChildPhase::NamingHost => {
                self.phase = ChildPhase::JoiningCgroup;
            },
            ChildPhase::JoiningCgroup => {
                self.phase = ChildPhase::Executing;
            },
            ChildPhase::Executing => {
            },
            ChildPhase::Failed => {
            },
        }
    }
}

/// When the machine is about to perform the chroot step, every mount
/// step of the plan already lies behind it: the machine takes the
/// steps strictly in index order, and the serialized plan places the
/// chroot after every mount.
pub proof fn lemma_machine_chroot_in_order(m: ChildMachine, p: MountPlan)
    requires
        m.wf(),
        m.steps@ == jail_steps_spec(p),
        m.phase == ChildPhase::Jailing,
        m.steps@[m.next_step as int] is ChrootHere,
    ensures
        forall|k: int| 0 <= k < m.steps@.len() && m.steps@[k] is Mount ==> k < m.next_step,
{
    lemma_chroot_after_mounts(p);
}

/// The phases of the parent's supervision, in order.
#[derive(Clone, Copy, PartialEq, Eq, Structural, Debug)]
pub enum ParentPhase {
    /// Creating the cgroup and putting the limits in force, before
    /// any child exists.
    ConfiguringCgroup,
    /// The child is forked and registered; the parent blocks on wait.
    ForkedWaiting,
    /// The child's terminal status is recorded.
    ChildExited,
    /// The cgroup is torn down (or its deletion failure tolerated).
    CgroupTornDown,
}

/// A child's terminal wait status: a normal exit code, or the signal
/// that terminated it.
#[derive(Clone, Copy, PartialEq, Eq, Structural, Debug)]
pub enum WaitStatus {
    Exited(i32),
    Signaled(i32),
}

/// The path and contents of a pending write, as contracts speak of
/// them.
pub open spec fn write_views(ws: Seq<FileWrite>) -> Seq<(Seq<char>, Seq<char>)> {
    ws.map_values(|w: FileWrite| (w.path@, w.contents@))
}

/// The memory-limit write for a group.
pub open spec fn memory_write_view(c: Cgroup, bytes: u64) -> (Seq<char>, Seq<char>) {
    (
        match c.manager.cgroup_version {
            CgroupVersion::V1 => path_join(
                c.controller_path_spec(crate::controller::Controller::Memory),
                "memory.limit_in_bytes"@,
            ),
            CgroupVersion::V2 => path_join(c.path@, "memory.max"@),
        },
        dec_str(bytes as nat),
    )
}

/// The pid-limit write for a group (meaningful under v2 only).
pub open spec fn pid_write_view(c: Cgroup, n: u32) -> (Seq<char>, Seq<char>) {
    (path_join(c.path@, "pids.max"@), dec_str(n as nat))
}

/// The CPU-shares write for a group.
pub open spec fn shares_write_view(c: Cgroup, shares: u64) -> (Seq<char>, Seq<char>) {
    match c.manager.cgroup_version {
        CgroupVersion::V1 => (
            path_join(c.controller_path_spec(crate::controller::Controller::Cpu), "cpu.shares"@),
            dec_str(shares as nat),
        ),
        CgroupVersion::V2 => (
            path_join(c.path@, "cpu.weight"@),
            dec_str(crate::convert::spec_shares_to_weight(shares as nat)),
        ),
    }
}

/// The CPU-quota writes for a group.
pub open spec fn quota_write_views(c: Cgroup, quota_us: i64, period_us: u64) -> Seq<
    (Seq<char>, Seq<char>),
> {
    match c.manager.cgroup_version {
        CgroupVersion::V1 => seq![
            (
                path_join(
                    c.controller_path_spec(crate::controller::Controller::Cpu),
                    "cpu.cfs_quota_us"@,
                ),
                crate::text::dec_str_int(quota_us as int),
            ),
            (
                path_join(
                    c.controller_path_spec(crate::controller::Controller::Cpu),
                    "cpu.cfs_period_us"@,
                ),
                dec_str(period_us as nat),
            ),
        ],
        CgroupVersion::V2 => seq![
            (
                path_join(c.path@, "cpu.max"@),
                if quota_us < 0 {
                    "max"@
                } else {
                    dec_str(quota_us as nat) + " "@ + dec_str(period_us as nat)
                },
            ),
        ],
    }
}

/// Every limit write the configuration owes, in order: memory, pids,
/// CPU shares, CPU quota — each only where the limit is set.
pub open spec fn expected_limit_writes(c: Cgroup, l: ResourceLimits) -> Seq<
    (Seq<char>, Seq<char>),
> {
    (match l.memory_bytes {
        Some(b) => seq![memory_write_view(c, b)],
        None => Seq::empty(),
    }) + (match l.pids {
        Some(n) => seq![pid_write_view(c, n)],
        None => Seq::empty(),
    }) + (match l.cpu_shares {
        Some(s) => seq![shares_write_view(c, s)],
        None => Seq::empty(),
    }) + (match l.cpu_quota {
        Some(q) => quota_write_views(c, q.quota_us, q.period_us),
        None => Seq::empty(),
    })
}

/// The parent-side state machine: it owns the group handle and the
/// limits, and supervises exactly one child.
pub struct ParentMachine {
    pub cgroup: Cgroup,
    pub limits: ResourceLimits,
    pub phase: ParentPhase,
    pub child_pid: u32,
    pub exit_status: Option<WaitStatus>,
}

impl ParentMachine {
    /// A supervisor over a created group and the limits to apply.
    pub fn new(cgroup: Cgroup, limits: ResourceLimits) -> (m: Self)
        ensures
            m.cgroup == cgroup,
            m.limits == limits,
            m.phase == ParentPhase::ConfiguringCgroup,
            m.exit_status is None,
    {
        ParentMachine {
            cgroup,
            limits,
            phase: ParentPhase::ConfiguringCgroup,
            child_pid: 0,
            exit_status: None,
        }
    }

    /// The control-file writes that put every set limit in force, in
    /// order.  Available only before the fork, so the limits bind
    /// from the child's first instruction.  A pid limit under v1 is a
    /// protocol mismatch; an error leaves nothing written.
    pub fn configure_writes(&self) -> (r: Result<Vec<FileWrite>, CgroupError>)
        requires
            self.phase == ParentPhase::ConfiguringCgroup,
            self.limits.wf(),
        ensures
            self.cgroup.manager.cgroup_version == CgroupVersion::V1 && self.limits.pids is Some
                ==> (r matches Err(e) && e == CgroupError::ProtocolMismatch),
            !(self.cgroup.manager.cgroup_version == CgroupVersion::V1 && self.limits.pids is Some)
                ==> (r matches Ok(ws) && write_views(ws@) == expected_limit_writes(
                self.cgroup,
                self.limits,
            )),
    {
        let mut ws: Vec<FileWrite> = Vec::new();
        match &self.limits.memory_bytes {
            Some(b) => {
                ws.push(self.cgroup.set_memory_limit(*b));
            },
            None => {},
        }
        match &self.limits.pids {
            Some(n) => {
                match self.cgroup.set_pid_limit(*n) {
                    Ok(w) => {
                        ws.push(w);
                    },
                    Err(e) => {
                        return Err(e);
                    },
                }
            },
            None => {},
        }
        match &self.limits.cpu_shares {
            Some(s) => {
                ws.push(self.cgroup.set_cpu_shares(*s));
            },
            None => {},
        }
        match &self.limits.cpu_quota {
            Some(q) => {
                let mut qs = self.cgroup.set_cpu_quota(q.quota_us, q.period_us);
                ws.append(&mut qs);
            },
            None => {},
        }
        proof {
            assert(write_views(ws@) =~= expected_limit_writes(self.cgroup, self.limits));
        }
        Ok(ws)
    }

    /// Registers the freshly forked child: the parent moves to
    /// waiting, and the returned write attaches the child's pid — as
    /// the parent's namespace sees it — to the group.
    pub fn on_forked(&mut self, child_pid: u32) -> (w: FileWrite)
        requires
            old(self).phase == ParentPhase::ConfiguringCgroup,
        ensures
            final(self).phase == ParentPhase::ForkedWaiting,
            final(self).child_pid == child_pid,
            final(self).cgroup == old(self).cgroup,
            final(self).limits == old(self).limits,
            final(self).exit_status == old(self).exit_status,
            w.path@ == path_join(final(self).cgroup.path@, "cgroup.procs"@),
            w.contents@ == dec_str(child_pid as nat),
    {
        let w = self.cgroup.add_process(child_pid);
        self.phase = ParentPhase::ForkedWaiting;
        self.child_pid = child_pid;
        w
    }

    /// Records the child's terminal wait status: a workload that
    /// started and exited non-zero is still a successful supervision,
    /// surfaced as that status.
    pub fn on_wait(&mut self, status: WaitStatus)
        requires
            old(self).phase == ParentPhase::ForkedWaiting,
        ensures
            final(self).phase == ParentPhase::ChildExited,
            final(self).exit_status == Some(status),
            final(self).cgroup == old(self).cgroup,
            final(self).limits == old(self).limits,
            final(self).child_pid == old(self).child_pid,
    {
        self.phase = ParentPhase::ChildExited;
        self.exit_status = Some(status);
    }

    /// Decides teardown from a fresh read of the membership file: the
    /// directories to remove when no process is listed any more, and
    /// `None` — the deletion failure the parent tolerates — while one
    /// still is.  Either way supervision finishes torn down.
    pub fn teardown(&mut self, procs_content: &str) -> (r: Option<Vec<String>>)
        requires
            old(self).phase == ParentPhase::ChildExited,
        ensures
            final(self).phase == ParentPhase::CgroupTornDown,
            final(self).cgroup == old(self).cgroup,
            final(self).limits == old(self).limits,
            final(self).child_pid == old(self).child_pid,
            final(self).exit_status == old(self).exit_status,
            (pids_of(procs_content@).len() == 0) <==> r is Some,
            r matches Some(dirs) ==> match final(self).cgroup.manager.cgroup_version {
                CgroupVersion::V1 => {
                    &&& dirs@.len() == crate::manager::delete_controllers().len()
                    &&& forall|i: int|
                        0 <= i < dirs@.len() ==> dirs@[i]@ == crate::manager::v1_controller_dir(
                            final(self).cgroup.manager.cgroup_root@,
                            crate::manager::delete_controllers()[i],
                            final(self).cgroup.name@,
                        )
                },
                CgroupVersion::V2 => dirs@.len() == 1 && dirs@[0]@ == final(self).cgroup.path@,
            },
    {
        self.phase = ParentPhase::CgroupTornDown;
        match self.cgroup.delete(procs_content) {
            Ok(dirs) => Some(dirs),
            Err(_) => None,
        }
    }
}

} // verus!
