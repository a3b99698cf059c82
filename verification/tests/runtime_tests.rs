use woody::container::{Container, ContainerConfig};
use woody::image::{parse_image_name, select_command};
use woody::cgroups::CgroupManager;
use woody::CgroupError;

#[test]
fn fixed_root_manager_paths() {
    let m = CgroupManager::new("demo");
    assert_eq!(m.cgroup_path, "/sys/fs/cgroup/woody/demo");
    assert_eq!(m.create(), "/sys/fs/cgroup/woody/demo");
    assert_eq!(m.destroy(), "/sys/fs/cgroup/woody/demo");
}

#[test]
fn fixed_root_manager_writes() {
    let m = CgroupManager::new("demo");
    let e = m.enable_controllers();
    assert_eq!(e.path, "/sys/fs/cgroup/woody/cgroup.subtree_control");
    assert_eq!(e.contents, "+pids +memory");
    let p = m.set_pid_limit(1024);
    assert_eq!(p.path, "/sys/fs/cgroup/woody/demo/pids.max");
    assert_eq!(p.contents, "1024");
    let mem = m.set_memory_limit(512 * 1024 * 1024);
    assert_eq!(mem.path, "/sys/fs/cgroup/woody/demo/memory.max");
    assert_eq!(mem.contents, "536870912");
    let a = m.add_process(99);
    assert_eq!(a.path, "/sys/fs/cgroup/woody/demo/cgroup.procs");
    assert_eq!(a.contents, "99");
}

#[test]
fn container_holds_its_config() {
    let config = ContainerConfig {
        command: vec!["/bin/bash".to_string()],
        args: vec![],
        rootfs: "./container/".to_string(),
    };
    let c = Container::new(config);
    assert_eq!(c.config.command, vec!["/bin/bash"]);
    assert_eq!(c.config.rootfs, "./container/");
}

#[test]
fn image_names_are_scoped_and_tagged() {
    assert_eq!(parse_image_name("alpine"), ("library/alpine".to_string(), "latest".to_string()));
    assert_eq!(parse_image_name("alpine:3.19"), ("library/alpine".to_string(), "3.19".to_string()));
    assert_eq!(
        parse_image_name("grafana/loki:2.9"),
        ("grafana/loki".to_string(), "2.9".to_string())
    );
    assert_eq!(
        parse_image_name("grafana/loki"),
        ("grafana/loki".to_string(), "latest".to_string())
    );
}

#[test]
fn entrypoint_wins_over_cmd() {
    let entry = Some(vec!["/entry".to_string(), "-v".to_string()]);
    let cmd = Some(vec!["/cmd".to_string()]);
    let (c, argv) = select_command(&entry, &cmd).unwrap();
    assert_eq!(c, "/entry");
    assert_eq!(argv, vec!["/entry", "-v"]);
    let (c2, argv2) = select_command(&None, &cmd).unwrap();
    assert_eq!(c2, "/cmd");
    assert_eq!(argv2, vec!["/cmd"]);
    let empty: Option<Vec<String>> = Some(vec![]);
    assert!(matches!(
        select_command(&empty, &None),
        Err(CgroupError::InvalidConfiguration)
    ));
}
