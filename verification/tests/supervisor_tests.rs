use woody::container::{ContainerConfig, CpuQuota, ResourceLimits};
use woody::controller::Controller;
use woody::jail::build_mount_plan;
use woody::manager::CgroupManager;
use woody::stats::MemoryReads;
use woody::supervisor::{
    ChildAction, ChildMachine, ChildPhase, Membership, NamespaceSet, ParentMachine, ParentPhase,
    WaitStatus,
};

fn echo_config() -> ContainerConfig {
    ContainerConfig {
        command: vec!["/bin/echo".to_string()],
        args: vec!["hello".to_string()],
        rootfs: "/tmp/jail".to_string(),
    }
}

#[test]
fn membership_attach_twice_leaves_one_entry() {
    let mut m = Membership::new();
    m.record_attach(1234);
    m.record_attach(1234);
    assert_eq!(m.pids, vec![1234]);
    m.record_attach(99);
    m.record_attach(1234);
    assert_eq!(m.pids, vec![1234, 99]);
    assert_eq!(m.pids.iter().filter(|p| **p == 1234).count(), 1);
}

#[test]
fn child_machine_orders_the_bootstrap() {
    let config = echo_config();
    let plan = build_mount_plan(&config.rootfs, true);
    let mut m = ChildMachine::new(
        &config,
        NamespaceSet::all(),
        plan,
        "woody_container",
        "/sys/fs/cgroup/demo/cgroup.procs",
        Vec::new(),
    );
    assert_eq!(m.argv, vec!["/bin/echo", "hello"]);
    assert_eq!(m.command, "/bin/echo");
    assert!(m.namespaces.pid && m.namespaces.mount && m.namespaces.uts);
    assert!(m.namespaces.ipc && m.namespaces.net);

    // The unshare comes first, before any mount.
    assert_eq!(m.next_action(), ChildAction::Unshare);
    m.advance(true);
    // Then the jail steps, strictly in index order.
    let total = m.steps.len();
    for i in 0..total {
        assert_eq!(m.next_action(), ChildAction::JailStepAt(i));
        m.advance(true);
    }
    // Then hostname, cgroup self-attach, and only then the exec.
    assert_eq!(m.next_action(), ChildAction::SetHostname);
    assert_eq!(m.hostname, "woody_container");
    m.advance(true);
    assert_eq!(m.next_action(), ChildAction::JoinCgroup);
    assert_eq!(m.procs_path, "/sys/fs/cgroup/demo/cgroup.procs");
    m.advance(true);
    assert_eq!(m.next_action(), ChildAction::Exec);
}

#[test]
fn child_machine_fails_closed() {
    let config = echo_config();
    let plan = build_mount_plan(&config.rootfs, false);
    let mut m = ChildMachine::new(&config, NamespaceSet::all(), plan, "h", "/p", Vec::new());
    m.advance(true); // unshare succeeded
    assert_eq!(m.phase, ChildPhase::Jailing);
    m.advance(false); // a mount failed: the bootstrap is over
    assert_eq!(m.phase, ChildPhase::Failed);
    assert_eq!(m.next_action(), ChildAction::Fail);
}

#[test]
fn echo_scenario_exits_zero_and_tears_down() {
    // The end-to-end scenario, with every outside effect simulated as
    // succeeding: /bin/echo hello in a jail under /tmp, memory capped
    // at 50 MB and pids at 10, exits 0 and the cgroup is gone after.
    let config = echo_config();
    let limits = ResourceLimits {
        memory_bytes: Some(50_000_000),
        pids: Some(10),
        cpu_shares: None,
        cpu_quota: None,
    };
    let manager = CgroupManager::with_root("/sys/fs/cgroup", true);
    let creation = manager.create_cgroup("woody_demo", &[Controller::Memory]).unwrap();
    assert_eq!(creation.dirs, vec!["/sys/fs/cgroup/woody_demo"]);
    let mut parent = ParentMachine::new(creation.cgroup, limits);

    // Limits are configured before any child exists.
    let writes = parent.configure_writes().unwrap();
    assert_eq!(writes.len(), 2);
    assert_eq!(writes[0].path, "/sys/fs/cgroup/woody_demo/memory.max");
    assert_eq!(writes[0].contents, "50000000");
    assert_eq!(writes[1].path, "/sys/fs/cgroup/woody_demo/pids.max");
    assert_eq!(writes[1].contents, "10");

    // Fork: the parent registers the child's pid.
    let attach = parent.on_forked(4321);
    assert_eq!(parent.phase, ParentPhase::ForkedWaiting);
    assert_eq!(attach.path, "/sys/fs/cgroup/woody_demo/cgroup.procs");
    assert_eq!(attach.contents, "4321");

    // The child bootstraps and execs; echo exits 0.
    let plan = build_mount_plan(&config.rootfs, true);
    let mut child = ChildMachine::new(
        &config,
        NamespaceSet::all(),
        plan,
        "woody_container",
        attach.path.as_str(),
        Vec::new(),
    );
    loop {
        match child.next_action() {
            ChildAction::Exec => break,
            ChildAction::Fail => panic!("bootstrap failed"),
            _ => child.advance(true),
        }
    }
    parent.on_wait(WaitStatus::Exited(0));
    assert_eq!(parent.exit_status, Some(WaitStatus::Exited(0)));

    // The child exited, so the membership reads empty and teardown
    // removes the group's directory.
    let removed = parent.teardown("").expect("teardown should proceed");
    assert_eq!(removed, vec!["/sys/fs/cgroup/woody_demo"]);
    assert_eq!(parent.phase, ParentPhase::CgroupTornDown);
}

#[test]
fn oom_scenario_shows_usage_at_limit_and_signal_exit() {
    // A workload that outgrows its memory cap: the stats read just
    // before death show usage at or above the limit, and the wait
    // status records the kill; supervision still finishes.
    let limit: u64 = 50_000_000;
    let limits = ResourceLimits {
        memory_bytes: Some(limit),
        pids: None,
        cpu_shares: None,
        cpu_quota: None,
    };
    let manager = CgroupManager::with_root("/sys/fs/cgroup", true);
    let creation = manager.create_cgroup("woody_oom", &[Controller::Memory]).unwrap();
    let cgroup = manager.get_cgroup("woody_oom", None, true).unwrap();
    let mut parent = ParentMachine::new(creation.cgroup, limits);
    let writes = parent.configure_writes().unwrap();
    assert_eq!(writes[0].contents, "50000000");
    parent.on_forked(777);

    let reads = MemoryReads {
        limit: Some("50000000\n".to_string()),
        usage: None,
        max_usage: None,
        failcnt: None,
        current: Some("52428800\n".to_string()),
        stat: Some("oom_kill 1\n".to_string()),
    };
    let st = cgroup.get_memory_stats(&reads);
    assert!(st.usage_in_bytes >= limit);
    assert_eq!(st.limit_in_bytes, Some(limit));
    assert_eq!(st.failcnt, 1);

    parent.on_wait(WaitStatus::Signaled(9));
    assert_eq!(parent.exit_status, Some(WaitStatus::Signaled(9)));
    let removed = parent.teardown("");
    assert!(removed.is_some());
}

#[test]
fn teardown_tolerates_busy_membership() {
    let manager = CgroupManager::with_root("/sys/fs/cgroup", true);
    let creation = manager.create_cgroup("lingering", &[]).unwrap();
    let mut parent = ParentMachine::new(creation.cgroup, ResourceLimits::none());
    parent.on_forked(1);
    parent.on_wait(WaitStatus::Exited(1));
    // A process is still listed: deletion is refused, nothing removed,
    // and the parent finishes regardless.
    assert!(parent.teardown("1\n").is_none());
    assert_eq!(parent.phase, ParentPhase::CgroupTornDown);
}

#[test]
fn configure_writes_all_four_limits_v1() {
    let manager = CgroupManager::with_root("/sys/fs/cgroup", false);
    let creation = manager.create_cgroup("full", &[Controller::Memory, Controller::Cpu]).unwrap();
    let limits = ResourceLimits {
        memory_bytes: Some(104857600),
        pids: None,
        cpu_shares: Some(256),
        cpu_quota: Some(CpuQuota { quota_us: 50_000, period_us: 100_000 }),
    };
    let parent = ParentMachine::new(creation.cgroup, limits);
    let ws = parent.configure_writes().unwrap();
    let paths: Vec<&str> = ws.iter().map(|w| w.path.as_str()).collect();
    assert_eq!(
        paths,
        vec![
            "/sys/fs/cgroup/memory/full/memory.limit_in_bytes",
            "/sys/fs/cgroup/cpu/full/cpu.shares",
            "/sys/fs/cgroup/cpu/full/cpu.cfs_quota_us",
            "/sys/fs/cgroup/cpu/full/cpu.cfs_period_us",
        ]
    );
    assert_eq!(ws[1].contents, "256");
}

#[test]
fn configure_writes_pid_limit_v1_is_mismatch() {
    let manager = CgroupManager::with_root("/sys/fs/cgroup", false);
    let creation = manager.create_cgroup("p", &[Controller::Memory]).unwrap();
    let limits = ResourceLimits {
        memory_bytes: None,
        pids: Some(5),
        cpu_shares: None,
        cpu_quota: None,
    };
    let parent = ParentMachine::new(creation.cgroup, limits);
    assert!(matches!(parent.configure_writes(), Err(woody::CgroupError::ProtocolMismatch)));
}
