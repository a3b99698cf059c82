use woody::controller::Controller;
use woody::convert::{shares_to_weight, weight_to_shares};
use woody::manager::{Cgroup, CgroupManager, DirTree};
use woody::stats::{CpuReads, MemoryReads};
use woody::version::{detect_protocol, CgroupVersion};
use woody::CgroupError;

fn v2_cgroup(name: &str) -> Cgroup {
    let manager = CgroupManager::with_root("/sys/fs/cgroup", true);
    let creation = manager.create_cgroup(name, &[Controller::Memory, Controller::Cpu]).unwrap();
    creation.cgroup
}

fn v1_cgroup(name: &str) -> Cgroup {
    let manager = CgroupManager::with_root("/sys/fs/cgroup", false);
    let creation = manager.create_cgroup(name, &[Controller::Memory, Controller::Cpu]).unwrap();
    creation.cgroup
}

#[test]
fn detection_is_deterministic_and_idempotent() {
    assert_eq!(detect_protocol(true), CgroupVersion::V2);
    assert_eq!(detect_protocol(false), CgroupVersion::V1);
    assert_eq!(detect_protocol(true), detect_protocol(true));
    assert_eq!(detect_protocol(false), detect_protocol(false));
}

#[test]
fn share_weight_conversion_floors_both_ways() {
    assert_eq!(shares_to_weight(1024), 100);
    assert_eq!(shares_to_weight(512), 50);
    assert_eq!(shares_to_weight(256), 25);
    assert_eq!(weight_to_shares(100), 1024);
    assert_eq!(weight_to_shares(50), 512);
    // The round trip is not exact: both directions truncate toward zero.
    let w: u64 = 101;
    let s = weight_to_shares(w);
    assert_eq!(s, 1034); // floor(101 * 1024 / 100) = floor(1034.24)
    let back = shares_to_weight(s);
    assert_eq!(back, 100); // floor(1034 * 100 / 1024) = floor(100.97...)
    assert!(back <= w);
    // And from the shares side.
    let sh: u64 = 1000;
    let back_s = weight_to_shares(shares_to_weight(sh));
    assert_eq!(shares_to_weight(sh), 97);
    assert_eq!(back_s, 993);
    assert!(back_s <= sh);
}

#[test]
fn controller_names_on_disk() {
    assert_eq!(Controller::Memory.as_str(), "memory");
    assert_eq!(Controller::Cpu.as_str(), "cpu");
    assert_eq!(Controller::CpuSet.as_str(), "cpuset");
    assert_eq!(Controller::BlkIo.as_str(), "blkio");
    assert_eq!(Controller::Devices.as_str(), "devices");
    assert_eq!(Controller::Freezer.as_str(), "freezer");
    assert_eq!(Controller::NetCls.as_str(), "net_cls");
}

#[test]
fn create_v1_needs_a_controller() {
    let manager = CgroupManager::with_root("/sys/fs/cgroup", false);
    let r = manager.create_cgroup("grp", &[]);
    assert!(matches!(r, Err(CgroupError::InvalidConfiguration)));
}

#[test]
fn create_v1_one_dir_per_controller() {
    let manager = CgroupManager::with_root("/sys/fs/cgroup", false);
    let c = manager.create_cgroup("grp", &[Controller::Memory, Controller::Cpu]).unwrap();
    assert_eq!(c.dirs, vec!["/sys/fs/cgroup/memory/grp", "/sys/fs/cgroup/cpu/grp"]);
    assert!(c.writes.is_empty());
    assert_eq!(c.cgroup.name(), "grp");
    assert_eq!(c.cgroup.path(), "/sys/fs/cgroup/memory/grp");
}

#[test]
fn create_v2_enables_controllers_for_descendants() {
    let manager = CgroupManager::with_root("/sys/fs/cgroup", true);
    let c = manager.create_cgroup("grp", &[Controller::Memory, Controller::Cpu]).unwrap();
    assert_eq!(c.dirs, vec!["/sys/fs/cgroup/grp"]);
    assert_eq!(c.writes.len(), 1);
    assert_eq!(c.writes[0].path, "/sys/fs/cgroup/grp/cgroup.subtree_control");
    assert_eq!(c.writes[0].contents, "+memory +cpu");
    assert_eq!(c.cgroup.path(), "/sys/fs/cgroup/grp");
}

#[test]
fn create_v2_empty_controller_list_is_legal() {
    let manager = CgroupManager::with_root("/sys/fs/cgroup", true);
    let c = manager.create_cgroup("bare", &[]).unwrap();
    assert_eq!(c.dirs, vec!["/sys/fs/cgroup/bare"]);
    assert!(c.writes.is_empty());
}

#[test]
fn get_cgroup_requires_controller_under_v1() {
    let manager = CgroupManager::with_root("/sys/fs/cgroup", false);
    let r = manager.get_cgroup("grp", None, true);
    assert!(matches!(r, Err(CgroupError::InvalidConfiguration)));
}

#[test]
fn get_cgroup_not_found_when_absent() {
    let manager = CgroupManager::with_root("/sys/fs/cgroup", true);
    let r = manager.get_cgroup("grp", None, false);
    assert!(matches!(r, Err(CgroupError::NotFound)));
    let ok = manager.get_cgroup("grp", None, true).unwrap();
    assert_eq!(ok.path(), "/sys/fs/cgroup/grp");
}

#[test]
fn list_cgroups_flattens_the_walked_tree() {
    let manager = CgroupManager::with_root("/sys/fs/cgroup", true);
    let tree = DirTree {
        name: String::new(),
        children: vec![
            DirTree {
                name: "a".to_string(),
                children: vec![DirTree { name: "b".to_string(), children: vec![] }],
            },
            DirTree { name: "c".to_string(), children: vec![] },
        ],
    };
    let names = manager.list_cgroups(None, &tree).unwrap();
    assert_eq!(names, vec!["a", "a/b", "c"]);
    let v1 = CgroupManager::with_root("/sys/fs/cgroup", false);
    assert!(matches!(v1.list_cgroups(None, &tree), Err(CgroupError::InvalidConfiguration)));
    let v1_names = v1.list_cgroups(Some(Controller::Memory), &tree).unwrap();
    assert_eq!(v1_names, vec!["a", "a/b", "c"]);
}

#[test]
fn controller_paths_per_version() {
    let c1 = v1_cgroup("grp");
    assert_eq!(c1.get_controller_path(Controller::Freezer), "/sys/fs/cgroup/freezer/grp");
    let c2 = v2_cgroup("grp");
    assert_eq!(c2.get_controller_path(Controller::Freezer), "/sys/fs/cgroup/grp");
}

#[test]
fn add_process_writes_decimal_pid() {
    let c = v2_cgroup("grp");
    let w = c.add_process(4321);
    assert_eq!(w.path, "/sys/fs/cgroup/grp/cgroup.procs");
    assert_eq!(w.contents, "4321");
}

#[test]
fn attach_write_reads_back_as_one_entry() {
    // What the attach write puts into the membership file parses back
    // as exactly that one pid.
    let c = v2_cgroup("grp");
    let w = c.add_process(4321);
    assert_eq!(c.get_processes(&w.contents), vec![4321]);
}

#[test]
fn get_processes_parses_lines_best_effort() {
    let c = v2_cgroup("grp");
    assert_eq!(c.get_processes("12\n34\n"), vec![12, 34]);
    assert_eq!(c.get_processes(""), Vec::<u32>::new());
    assert_eq!(c.get_processes("12\njunk\n 7 \n"), vec![12, 7]);
}

#[test]
fn memory_limit_write_per_version() {
    let c1 = v1_cgroup("grp");
    let w1 = c1.set_memory_limit(104857600);
    assert_eq!(w1.path, "/sys/fs/cgroup/memory/grp/memory.limit_in_bytes");
    assert_eq!(w1.contents, "104857600");
    let c2 = v2_cgroup("grp");
    let w2 = c2.set_memory_limit(50_000_000);
    assert_eq!(w2.path, "/sys/fs/cgroup/grp/memory.max");
    assert_eq!(w2.contents, "50000000");
}

#[test]
fn pid_limit_is_v2_only() {
    let c2 = v2_cgroup("grp");
    let w = c2.set_pid_limit(10).unwrap();
    assert_eq!(w.path, "/sys/fs/cgroup/grp/pids.max");
    assert_eq!(w.contents, "10");
    let c1 = v1_cgroup("grp");
    assert!(matches!(c1.set_pid_limit(10), Err(CgroupError::ProtocolMismatch)));
}

#[test]
fn cpu_shares_converted_under_v2() {
    let c1 = v1_cgroup("grp");
    let w1 = c1.set_cpu_shares(512);
    assert_eq!(w1.path, "/sys/fs/cgroup/cpu/grp/cpu.shares");
    assert_eq!(w1.contents, "512");
    let c2 = v2_cgroup("grp");
    let w2 = c2.set_cpu_shares(512);
    assert_eq!(w2.path, "/sys/fs/cgroup/grp/cpu.weight");
    assert_eq!(w2.contents, "50");
}

#[test]
fn cpu_quota_writes_per_version() {
    let c1 = v1_cgroup("grp");
    let ws = c1.set_cpu_quota(50_000, 100_000);
    assert_eq!(ws.len(), 2);
    assert_eq!(ws[0].path, "/sys/fs/cgroup/cpu/grp/cpu.cfs_quota_us");
    assert_eq!(ws[0].contents, "50000");
    assert_eq!(ws[1].path, "/sys/fs/cgroup/cpu/grp/cpu.cfs_period_us");
    assert_eq!(ws[1].contents, "100000");
    let neg = c1.set_cpu_quota(-1, 100_000);
    assert_eq!(neg[0].contents, "-1");
    let c2 = v2_cgroup("grp");
    let ws2 = c2.set_cpu_quota(50_000, 100_000);
    assert_eq!(ws2.len(), 1);
    assert_eq!(ws2[0].path, "/sys/fs/cgroup/grp/cpu.max");
    assert_eq!(ws2[0].contents, "50000 100000");
    let unlimited = c2.set_cpu_quota(-1, 100_000);
    assert_eq!(unlimited[0].contents, "max");
}

#[test]
fn freeze_and_unfreeze_tokens() {
    let c1 = v1_cgroup("grp");
    let f1 = c1.freeze();
    assert_eq!(f1.path, "/sys/fs/cgroup/freezer/grp/freezer.state");
    assert_eq!(f1.contents, "FROZEN");
    assert_eq!(c1.unfreeze().contents, "THAWED");
    let c2 = v2_cgroup("grp");
    let f2 = c2.freeze();
    assert_eq!(f2.path, "/sys/fs/cgroup/grp/cgroup.freeze");
    assert_eq!(f2.contents, "1");
    assert_eq!(c2.unfreeze().contents, "0");
}

#[test]
fn delete_busy_then_succeeds() {
    // A still-attached pid makes deletion fail and removes nothing;
    // once the membership reads empty, the retried delete succeeds.
    let c = v2_cgroup("grp");
    let busy = c.delete("1234\n");
    assert!(matches!(busy, Err(CgroupError::ResourceBusy)));
    let done = c.delete("").unwrap();
    assert_eq!(done, vec!["/sys/fs/cgroup/grp"]);
}

#[test]
fn delete_v1_removes_all_controller_dirs() {
    let c = v1_cgroup("grp");
    let dirs = c.delete("").unwrap();
    assert_eq!(
        dirs,
        vec![
            "/sys/fs/cgroup/memory/grp",
            "/sys/fs/cgroup/cpu/grp",
            "/sys/fs/cgroup/cpuset/grp",
            "/sys/fs/cgroup/blkio/grp",
            "/sys/fs/cgroup/devices/grp",
            "/sys/fs/cgroup/freezer/grp",
        ]
    );
}

#[test]
fn stats_source_files_per_version() {
    let c1 = v1_cgroup("grp");
    assert_eq!(
        c1.memory_source_files(),
        vec![
            "/sys/fs/cgroup/memory/grp/memory.limit_in_bytes",
            "/sys/fs/cgroup/memory/grp/memory.usage_in_bytes",
            "/sys/fs/cgroup/memory/grp/memory.max_usage_in_bytes",
            "/sys/fs/cgroup/memory/grp/memory.failcnt",
        ]
    );
    assert_eq!(
        c1.cpu_source_files(),
        vec![
            "/sys/fs/cgroup/cpu/grp/cpu.shares",
            "/sys/fs/cgroup/cpu/grp/cpu.cfs_quota_us",
            "/sys/fs/cgroup/cpu/grp/cpu.cfs_period_us",
            "/sys/fs/cgroup/cpu/grp/cpuacct.usage",
        ]
    );
    let c2 = v2_cgroup("grp");
    assert_eq!(
        c2.memory_source_files(),
        vec![
            "/sys/fs/cgroup/grp/memory.max",
            "/sys/fs/cgroup/grp/memory.current",
            "/sys/fs/cgroup/grp/memory.stat",
        ]
    );
    assert_eq!(
        c2.cpu_source_files(),
        vec![
            "/sys/fs/cgroup/grp/cpu.weight",
            "/sys/fs/cgroup/grp/cpu.max",
            "/sys/fs/cgroup/grp/cpu.stat",
        ]
    );
}

fn empty_memory_reads() -> MemoryReads {
    MemoryReads {
        limit: None,
        usage: None,
        max_usage: None,
        failcnt: None,
        current: None,
        stat: None,
    }
}

fn empty_cpu_reads() -> CpuReads {
    CpuReads {
        shares: None,
        quota: None,
        period: None,
        usage: None,
        weight: None,
        max: None,
        stat: None,
    }
}

#[test]
fn memory_stats_v1_best_effort() {
    let c = v1_cgroup("grp");
    let mut reads = empty_memory_reads();
    reads.limit = Some("104857600\n".to_string());
    reads.usage = Some("52428800\n".to_string());
    reads.failcnt = Some("3\n".to_string());
    let st = c.get_memory_stats(&reads);
    assert_eq!(st.limit_in_bytes, Some(104857600));
    assert_eq!(st.usage_in_bytes, 52428800);
    assert_eq!(st.max_usage_in_bytes, 0); // file missing: left at zero
    assert_eq!(st.failcnt, 3);
}

#[test]
fn memory_stats_v2_max_means_no_limit() {
    let c = v2_cgroup("grp");
    let mut reads = empty_memory_reads();
    reads.limit = Some("max\n".to_string());
    reads.current = Some("52428800\n".to_string());
    reads.stat = Some("anon 100\noom_kill 2\n".to_string());
    let st = c.get_memory_stats(&reads);
    assert_eq!(st.limit_in_bytes, None);
    assert_eq!(st.usage_in_bytes, 52428800);
    assert_eq!(st.failcnt, 2);
}

#[test]
fn memory_stats_v2_numeric_limit() {
    let c = v2_cgroup("grp");
    let mut reads = empty_memory_reads();
    reads.limit = Some("50000000\n".to_string());
    reads.current = Some("garbage".to_string());
    let st = c.get_memory_stats(&reads);
    assert_eq!(st.limit_in_bytes, Some(50000000));
    assert_eq!(st.usage_in_bytes, 0);
}

#[test]
fn cpu_stats_v1_fields() {
    let c = v1_cgroup("grp");
    let mut reads = empty_cpu_reads();
    reads.shares = Some("512\n".to_string());
    reads.quota = Some("-1\n".to_string());
    reads.period = Some("100000\n".to_string());
    reads.usage = Some("123456789\n".to_string());
    let st = c.get_cpu_stats(&reads);
    assert_eq!(st.shares, Some(512));
    assert_eq!(st.quota, Some(-1));
    assert_eq!(st.period, Some(100000));
    assert_eq!(st.usage_ns, 123456789);
}

#[test]
fn cpu_stats_v2_converts_weight_and_usec() {
    let c = v2_cgroup("grp");
    let mut reads = empty_cpu_reads();
    reads.weight = Some("50\n".to_string());
    reads.max = Some("50000 100000\n".to_string());
    reads.stat = Some("usage_usec 1500\nuser_usec 900\n".to_string());
    let st = c.get_cpu_stats(&reads);
    assert_eq!(st.shares, Some(512)); // 50 * 1024 / 100
    assert_eq!(st.quota, Some(50000));
    assert_eq!(st.period, Some(100000));
    assert_eq!(st.usage_ns, 1_500_000); // microseconds times 1000
}

#[test]
fn cpu_stats_v2_max_quota_absent() {
    let c = v2_cgroup("grp");
    let mut reads = empty_cpu_reads();
    reads.max = Some("max 100000\n".to_string());
    let st = c.get_cpu_stats(&reads);
    assert_eq!(st.quota, None);
    assert_eq!(st.period, Some(100000));
    assert_eq!(st.shares, None);
    assert_eq!(st.usage_ns, 0);
}
