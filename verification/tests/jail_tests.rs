use woody::jail::{build_mount_plan, jail_steps, JailStep};

#[test]
fn plan_opens_with_private_root_then_rootfs_bind() {
    let p = build_mount_plan("/tmp/jail", true);
    assert!(p.root_private.source.is_none());
    assert_eq!(p.root_private.target, "/");
    assert!(p.root_private.flags.private && p.root_private.flags.recursive);
    assert!(!p.root_private.flags.bind);
    assert_eq!(p.rootfs_bind.source.as_deref(), Some("/tmp/jail"));
    assert_eq!(p.rootfs_bind.target, "/tmp/jail");
    assert!(p.rootfs_bind.flags.bind && p.rootfs_bind.flags.recursive);
    assert_eq!(p.enter_dir, "/tmp/jail");
}

#[test]
fn plan_mounts_pseudo_filesystems_in_order() {
    let p = build_mount_plan("/tmp/jail", false);
    assert_eq!(p.dirs, vec!["./proc", "./sys", "./dev", "./tmp"]);
    assert_eq!(p.mounts.len(), 4);
    assert_eq!(p.mounts[0].fstype.as_deref(), Some("proc"));
    assert_eq!(p.mounts[0].target, "./proc");
    assert_eq!(p.mounts[1].fstype.as_deref(), Some("sysfs"));
    assert_eq!(p.mounts[1].target, "./sys");
    assert_eq!(p.mounts[2].fstype.as_deref(), Some("tmpfs"));
    assert_eq!(p.mounts[2].target, "./dev");
    assert_eq!(p.mounts[2].options.as_deref(), Some("mode=0755,size=65536k"));
    assert_eq!(p.mounts[3].fstype.as_deref(), Some("tmpfs"));
    assert_eq!(p.mounts[3].target, "./tmp");
}

#[test]
fn plan_binds_host_userland_when_asked() {
    let p = build_mount_plan("/tmp/jail", true);
    assert_eq!(
        p.dirs,
        vec![
            "./proc",
            "./sys",
            "./dev",
            "./tmp",
            "./bin",
            "./usr/bin",
            "./usr/lib",
            "./usr/lib64",
            "./lib",
            "./lib64",
        ]
    );
    assert_eq!(p.mounts.len(), 10);
    let sources: Vec<&str> = p.mounts[4..].iter().map(|m| m.source.as_deref().unwrap()).collect();
    assert_eq!(sources, vec!["/bin", "/usr/bin", "/lib", "/lib64", "/usr/lib", "/usr/lib64"]);
    for m in &p.mounts[4..] {
        assert!(m.flags.bind);
        assert!(m.fstype.is_none());
    }
}

#[test]
fn plan_device_mounts() {
    let p = build_mount_plan("/tmp/jail", false);
    assert_eq!(p.dev_dirs, vec!["./dev/pts", "./dev/shm"]);
    assert_eq!(p.dev_mounts.len(), 2);
    assert_eq!(p.dev_mounts[0].fstype.as_deref(), Some("devpts"));
    assert_eq!(p.dev_mounts[0].target, "./dev/pts");
    assert!(p.dev_mounts[0].flags.noexec);
    assert!(p.dev_mounts[0].flags.nosuid);
    assert!(p.dev_mounts[0].flags.nodev);
    assert_eq!(p.dev_mounts[0].options.as_deref(), Some("newinstance,ptmxmode=0666,gid=5"));
    assert_eq!(p.dev_mounts[1].fstype.as_deref(), Some("tmpfs"));
    assert_eq!(p.dev_mounts[1].target, "./dev/shm");
    assert_eq!(p.dev_mounts[1].options.as_deref(), Some("size=64m,mode=1777"));
}

#[test]
fn jail_is_confined_to_relative_targets() {
    // After the private remount of the host root and the rootfs
    // self-bind, every mount lands on a jail-relative path: the jail
    // sees only the pseudo-filesystems and the explicitly bound paths.
    let p = build_mount_plan("/tmp/jail", true);
    for m in p.mounts.iter().chain(p.dev_mounts.iter()) {
        assert!(m.target.starts_with("./"), "target escapes the jail: {}", m.target);
    }
}

#[test]
fn chroot_comes_after_every_mount() {
    for bind in [false, true] {
        let steps = jail_steps(build_mount_plan("/tmp/jail", bind));
        let chroot_positions: Vec<usize> = steps
            .iter()
            .enumerate()
            .filter(|(_, s)| matches!(s, JailStep::ChrootHere))
            .map(|(i, _)| i)
            .collect();
        assert_eq!(chroot_positions, vec![steps.len() - 2]);
        let last_mount = steps
            .iter()
            .rposition(|s| matches!(s, JailStep::Mount(_)))
            .unwrap();
        assert!(last_mount < steps.len() - 2);
        assert!(matches!(steps[steps.len() - 1], JailStep::ChangeDirRoot));
        assert!(matches!(steps[0], JailStep::Mount(_)));
        assert!(matches!(&steps[2], JailStep::ChangeDir(d) if d == "/tmp/jail"));
    }
}
