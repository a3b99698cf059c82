//! The mount jail: the ordered plan that turns a root filesystem
//! directory into a self-contained jail and moves the child's view of
//! the filesystem into it.
//!
//! The plan is data, executed strictly in order by the runner inside
//! the freshly isolated child: remount the host root private, bind the
//! rootfs onto itself, enter it, create the needed directories, mount
//! the pseudo-filesystems (and, when requested, bind the host's
//! userland read-through), then chroot at the current directory and
//! reset the working directory to the new root.  Any step failing
//! aborts the bootstrap; there is no partial-jail fallback.

use vstd::prelude::*;

verus! {

/// Mount flags, as plain booleans; the runner maps them onto the OS's
/// flag bits.
#[derive(Clone, Copy, PartialEq, Eq, Structural, Debug)]
pub struct MountFlags {
    pub bind: bool,
    pub recursive: bool,
    pub private: bool,
    pub noexec: bool,
    pub nosuid: bool,
    pub nodev: bool,
}

/// One mount operation: what the mount syscall is given.
#[derive(Debug)]
pub struct MountOp {
    pub source: Option<String>,
    pub target: String,
    pub fstype: Option<String>,
    pub flags: MountFlags,
    pub options: Option<String>,
}

/// One step of the jail bootstrap, in the order the runner must take
/// them.
#[derive(Debug)]
pub enum JailStep {
    /// Create the directory if it does not exist.
    EnsureDir(String),
    /// Perform the mount operation.
    Mount(MountOp),
    /// Change the working directory.
    ChangeDir(String),
    /// Chroot to `.`: the new root is anchored at the current
    /// directory, never at an absolute path.
    ChrootHere,
    /// Reset the working directory to `/` inside the new root.
    ChangeDirRoot,
}

/// The plan's pieces, in the order they are serialized.
#[derive(Debug)]
pub struct MountPlan {
    /// Remounts the host root private and recursive, first of all.
    pub root_private: MountOp,
    /// Binds the rootfs onto itself, making it a mount point.
    pub rootfs_bind: MountOp,
    /// The directory entered before any jail-relative step: the rootfs.
    pub enter_dir: String,
    /// The directories created before the pseudo-filesystem mounts.
    pub dirs: Vec<String>,
    /// The pseudo-filesystem mounts, then the host userland binds when
    /// requested.
    pub mounts: Vec<MountOp>,
    /// The directories created under the freshly mounted `./dev`.
    pub dev_dirs: Vec<String>,
    /// The terminal and shared-memory mounts under `./dev`.
    pub dev_mounts: Vec<MountOp>,
}

/// No flag set.
pub open spec fn no_flags() -> MountFlags {
    MountFlags {
        bind: false,
        recursive: false,
        private: false,
        noexec: false,
        nosuid: false,
        nodev: false,
    }
}

/// Whether an optional string holds exactly `v`.
pub open spec fn opt_str_is(o: Option<String>, v: Option<Seq<char>>) -> bool {
    match (o, v) {
        (Some(s), Some(t)) => s@ == t,
        (None, None) => true,
        _ => false,
    }
}

/// A plain filesystem mount: no source, the given type and target, no
/// flags, the given options.
pub open spec fn is_fs_mount(
    m: MountOp,
    fstype: Seq<char>,
    target: Seq<char>,
    options: Option<Seq<char>>,
) -> bool {
    &&& m.source is None
    &&& m.target@ == target
    &&& opt_str_is(m.fstype, Some(fstype))
    &&& m.flags == no_flags()
    &&& opt_str_is(m.options, options)
}

/// A read-through bind of a host directory into the jail.
pub open spec fn is_bind_mount(m: MountOp, source: Seq<char>, target: Seq<char>) -> bool {
    &&& opt_str_is(m.source, Some(source))
    &&& m.target@ == target
    &&& m.fstype is None
    &&& m.flags == (MountFlags {
        bind: true,
        recursive: false,
        private: false,
        noexec: false,
        nosuid: false,
        nodev: false,
    })
    &&& m.options is None
}

/// The directories created inside the jail before the mounts, relative
/// to the entered rootfs.
pub open spec fn jail_dir_names(bind_host_userland: bool) -> Seq<Seq<char>> {
    seq!["./proc"@, "./sys"@, "./dev"@, "./tmp"@] + if bind_host_userland {
        seq!["./bin"@, "./usr/bin"@, "./usr/lib"@, "./usr/lib64"@, "./lib"@, "./lib64"@]
    } else {
        Seq::empty()
    }
}

/// The host directories bound read-through when the jail has no
/// userland of its own, in order.
pub open spec fn host_bind_sources() -> Seq<Seq<char>> {
    seq!["/bin"@, "/usr/bin"@, "/lib"@, "/lib64"@, "/usr/lib"@, "/usr/lib64"@]
}

/// Where each bound host directory lands inside the jail.
pub open spec fn host_bind_targets() -> Seq<Seq<char>> {
    seq!["./bin"@, "./usr/bin"@, "./lib"@, "./lib64"@, "./usr/lib"@, "./usr/lib64"@]
}

/// What the jail plan for `rootfs` holds, step by step.
pub open spec fn is_jail_plan(p: MountPlan, rootfs: Seq<char>, bind_host_userland: bool) -> bool {
    &&& p.root_private.source is None
    &&& p.root_private.target@ == "/"@
    &&& p.root_private.fstype is None
    &&& p.root_private.flags == (MountFlags {
        bind: false,
        recursive: true,
        private: true,
        noexec: false,
        nosuid: false,
        nodev: false,
    })
    &&& p.root_private.options is None
    &&& opt_str_is(p.rootfs_bind.source, Some(rootfs))
    &&& p.rootfs_bind.target@ == rootfs
    &&& p.rootfs_bind.fstype is None
    &&& p.rootfs_bind.flags == (MountFlags {
        bind: true,
        recursive: true,
        private: false,
        noexec: false,
        nosuid: false,
        nodev: false,
    })
    &&& p.rootfs_bind.options is None
    &&& p.enter_dir@ == rootfs
    &&& p.dirs@.map_values(|d: String| d@) == jail_dir_names(bind_host_userland)
    &&& p.mounts@.len() == if bind_host_userland {
        10int
    } else {
        4int
    }
    &&& is_fs_mount(p.mounts@[0], "proc"@, "./proc"@, None)
    &&& is_fs_mount(p.mounts@[1], "sysfs"@, "./sys"@, None)
    &&& is_fs_mount(p.mounts@[2], "tmpfs"@, "./dev"@, Some("mode=0755,size=65536k"@))
    &&& is_fs_mount(p.mounts@[3], "tmpfs"@, "./tmp"@, None)
    &&& bind_host_userland ==> forall|j: int|
        0 <= j < 6 ==> is_bind_mount(
            #[trigger] p.mounts@[4 + j],
            host_bind_sources()[j],
            host_bind_targets()[j],
        )
    &&& p.dev_dirs@.map_values(|d: String| d@) == seq!["./dev/pts"@, "./dev/shm"@]
    &&& p.dev_mounts@.len() == 2
    &&& p.dev_mounts@[0].source is None
    &&& p.dev_mounts@[0].target@ == "./dev/pts"@
    &&& opt_str_is(p.dev_mounts@[0].fstype, Some("devpts"@))
    &&& p.dev_mounts@[0].flags == (MountFlags {
        bind: false,
        recursive: false,
        private: false,
        noexec: true,
        nosuid: true,
        nodev: true,
    })
    &&& opt_str_is(p.dev_mounts@[0].options, Some("newinstance,ptmxmode=0666,gid=5"@))
    &&& is_fs_mount(p.dev_mounts@[1], "tmpfs"@, "./dev/shm"@, Some("size=64m,mode=1777"@))
}

fn flags_none() -> (f: MountFlags)
    ensures
        f == no_flags(),
{
    MountFlags {
        bind: false,
        recursive: false,
        private: false,
        noexec: false,
        nosuid: false,
        nodev: false,
    }
}

fn fs_mount(fstype: &str, target: &str, options: Option<&str>) -> (m: MountOp)
    ensures
        is_fs_mount(
            m,
            fstype@,
            target@,
            match options {
                Some(o) => Some(o@),
                None => None,
            },
        ),
{
    MountOp {
        source: None,
        target: String::from_str(target),
        fstype: Some(String::from_str(fstype)),
        flags: flags_none(),
        options: match options {
            Some(o) => Some(String::from_str(o)),
            None => None,
        },
    }
}

fn bind_mount(source: &str, target: &str) -> (m: MountOp)
    ensures
        is_bind_mount(m, source@, target@),
{
    MountOp {
        source: Some(String::from_str(source)),
        target: String::from_str(target),
        fstype: None,
        flags: MountFlags {
            bind: true,
            recursive: false,
            private: false,
            noexec: false,
            nosuid: false,
            nodev: false,
        },
        options: None,
    }
}

/// Builds the jail plan for `rootfs`.  With `bind_host_userland` the
/// host's binary and library directories are bound read-through, so
/// the command can resolve its loader and libraries without copying.
pub fn build_mount_plan(rootfs: &str, bind_host_userland: bool) -> (p: MountPlan)
    ensures
        is_jail_plan(p, rootfs@, bind_host_userland),
{
    let root_private = MountOp {
        source: None,
        target: String::from_str("/"),
        fstype: None,
        flags: MountFlags {
            bind: false,
            recursive: true,
            private: true,
            noexec: false,
            nosuid: false,
            nodev: false,
        },
        options: None,
    };
    let rootfs_bind = MountOp {
        source: Some(String::from_str(rootfs)),
        target: String::from_str(rootfs),
        fstype: None,
        flags: MountFlags {
            bind: true,
            recursive: true,
            private: false,
            noexec: false,
            nosuid: false,
            nodev: false,
        },
        options: None,
    };
    let mut dirs: Vec<String> = Vec::new();
    dirs.push(String::from_str("./proc"));
    dirs.push(String::from_str("./sys"));
    dirs.push(String::from_str("./dev"));
    dirs.push(String::from_str("./tmp"));
    if bind_host_userland {
        dirs.push(String::from_str("./bin"));
        dirs.push(String::from_str("./usr/bin"));
        dirs.push(String::from_str("./usr/lib"));
        dirs.push(String::from_str("./usr/lib64"));
        dirs.push(String::from_str("./lib"));
        dirs.push(String::from_str("./lib64"));
    }
    proof {
        assert(dirs@.map_values(|d: String| d@) =~= jail_dir_names(bind_host_userland));
    }
    let mut mounts: Vec<MountOp> = Vec::new();
    mounts.push(fs_mount("proc", "./proc", None));
    mounts.push(fs_mount("sysfs", "./sys", None));
    mounts.push(fs_mount("tmpfs", "./dev", Some("mode=0755,size=65536k")));
    mounts.push(fs_mount("tmpfs", "./tmp", None));
    if bind_host_userland {
        mounts.push(bind_mount("/bin", "./bin"));
        mounts.push(bind_mount("/usr/bin", "./usr/bin"));
        mounts.push(bind_mount("/lib", "./lib"));
        mounts.push(bind_mount("/lib64", "./lib64"));
        mounts.push(bind_mount("/usr/lib", "./usr/lib"));
        mounts.push(bind_mount("/usr/lib64", "./usr/lib64"));
    }
    let mut dev_dirs: Vec<String> = Vec::new();
    dev_dirs.push(String::from_str("./dev/pts"));
    dev_dirs.push(String::from_str("./dev/shm"));
    proof {
        assert(dev_dirs@.map_values(|d: String| d@) =~= seq!["./dev/pts"@, "./dev/shm"@]);
    }
    let mut dev_mounts: Vec<MountOp> = Vec::new();
    dev_mounts.push(
        MountOp {
            source: None,
            target: String::from_str("./dev/pts"),
            fstype: Some(String::from_str("devpts")),
            flags: MountFlags {
                bind: false,
                recursive: false,
                private: false,
                noexec: true,
                nosuid: true,
                nodev: true,
            },
            options: Some(String::from_str("newinstance,ptmxmode=0666,gid=5")),
        },
    );
    dev_mounts.push(fs_mount("tmpfs", "./dev/shm", Some("size=64m,mode=1777")));
    MountPlan {
        root_private,
        rootfs_bind,
        enter_dir: String::from_str(rootfs),
        dirs,
        mounts,
        dev_dirs,
        dev_mounts,
    }
}

/// The serialized bootstrap: the private remount, the rootfs
/// self-bind, entering the rootfs, the directories, the mounts, the
/// device directories and mounts, then — only then — the chroot and
/// the reset of the working directory.
pub open spec fn jail_steps_spec(p: MountPlan) -> Seq<JailStep> {
    seq![
        JailStep::Mount(p.root_private),
        JailStep::Mount(p.rootfs_bind),
        JailStep::ChangeDir(p.enter_dir),
    ] + p.dirs@.map_values(|d: String| JailStep::EnsureDir(d)) + p.mounts@.map_values(
        |m: MountOp| JailStep::Mount(m),
    ) + p.dev_dirs@.map_values(|d: String| JailStep::EnsureDir(d)) + p.dev_mounts@.map_values(
        |m: MountOp| JailStep::Mount(m),
    ) + seq![JailStep::ChrootHere, JailStep::ChangeDirRoot]
}

/// Serializes a plan into the runner's step list.
pub fn jail_steps(plan: MountPlan) -> (steps: Vec<JailStep>)
    ensures
        steps@ == jail_steps_spec(plan),
{
    let ghost p = plan;
    let MountPlan { root_private, rootfs_bind, enter_dir, dirs, mounts, dev_dirs, dev_mounts } =
        plan;
    let mut steps: Vec<JailStep> = Vec::new();
    steps.push(JailStep::Mount(root_private));
    steps.push(JailStep::Mount(rootfs_bind));
    steps.push(JailStep::ChangeDir(enter_dir));
    let mut dirs = dirs;
    push_dirs(&mut steps, dirs);
    let mut mounts = mounts;
    push_mounts(&mut steps, mounts);
    push_dirs(&mut steps, dev_dirs);
    push_mounts(&mut steps, dev_mounts);
    steps.push(JailStep::ChrootHere);
    steps.push(JailStep::ChangeDirRoot);
    proof {
        assert(steps@ =~= jail_steps_spec(p));
    }
    steps
}

fn push_dirs(steps: &mut Vec<JailStep>, dirs: Vec<String>)
    ensures
        final(steps)@ == old(steps)@ + dirs@.map_values(|d: String| JailStep::EnsureDir(d)),
{
    let ghost base = steps@;
    let ghost ds = dirs@;
    let mut dirs = dirs;
    proof {
        assert(ds.take(0) =~= Seq::<String>::empty());
        assert(base + ds.take(0).map_values(|d: String| JailStep::EnsureDir(d)) =~= base);
    }
    let total = dirs.len();
    let mut i: usize = 0;
    while i < total
        invariant
            i <= total,
            total == ds.len(),
            dirs@ == ds.skip(i as int),
            steps@ == base + ds.take(i as int).map_values(|d: String| JailStep::EnsureDir(d)),
        decreases total - i,
    {
        let d = dirs.remove(0);
        steps.push(JailStep::EnsureDir(d));
        proof {
            assert(ds.skip(i as int).remove(0) =~= ds.skip(i + 1));
            assert(ds.skip(i as int)[0] == ds[i as int]);
            assert(steps@ =~= base + ds.take(i + 1).map_values(
                |x: String| JailStep::EnsureDir(x),
            ));
        }
        i = i + 1;
    }
    proof {
        assert(ds.take(i as int) =~= ds);
    }
}

fn push_mounts(steps: &mut Vec<JailStep>, mounts: Vec<MountOp>)
    ensures
        final(steps)@ == old(steps)@ + mounts@.map_values(|m: MountOp| JailStep::Mount(m)),
{
    let ghost base = steps@;
    let ghost ms = mounts@;
    let mut mounts = mounts;
    proof {
        assert(ms.take(0) =~= Seq::<MountOp>::empty());
        assert(base + ms.take(0).map_values(|m: MountOp| JailStep::Mount(m)) =~= base);
    }
    let total = mounts.len();
    let mut i: usize = 0;
    while i < total
        invariant
            i <= total,
            total == ms.len(),
            mounts@ == ms.skip(i as int),
            steps@ == base + ms.take(i as int).map_values(|m: MountOp| JailStep::Mount(m)),
        decreases total - i,
    {
        let m = mounts.remove(0);
        steps.push(JailStep::Mount(m));
        proof {
            assert(ms.skip(i as int).remove(0) =~= ms.skip(i + 1));
            assert(ms.skip(i as int)[0] == ms[i as int]);
            assert(steps@ =~= base + ms.take(i + 1).map_values(|x: MountOp| JailStep::Mount(x)));
        }
        i = i + 1;
    }
    proof {
        assert(ms.take(i as int) =~= ms);
    }
}

/// The bootstrap sequencing law: in every serialized plan the chroot
/// step stands after every mount and directory step — there is exactly
/// one chroot, second to last, with only the reset of the working
/// directory after it.  No step list this module produces can reach
/// the chroot before the mounts are done.
pub proof fn lemma_chroot_after_mounts(p: MountPlan)
    ensures
        jail_steps_spec(p).len() >= 5,
        jail_steps_spec(p)[jail_steps_spec(p).len() - 2] == JailStep::ChrootHere,
        forall|i: int|
            0 <= i < jail_steps_spec(p).len() && jail_steps_spec(p)[i] is ChrootHere ==> i
                == jail_steps_spec(p).len() - 2,
        forall|i: int|
            0 <= i < jail_steps_spec(p).len() && jail_steps_spec(p)[i] is Mount ==> i
                < jail_steps_spec(p).len() - 2,
{
    let s = jail_steps_spec(p);
    let d = p.dirs@.len() as int;
    let m = p.mounts@.len() as int;
    let dd = p.dev_dirs@.len() as int;
    let dm = p.dev_mounts@.len() as int;
    let n = s.len() as int;
    assert(n == 3 + d + m + dd + dm + 2);
    assert forall|i: int| 0 <= i < n implies (s[i] is ChrootHere ==> i == n - 2) && (s[i] is Mount
        ==> i < n - 2) by {
        if i < 3 {
            assert(s[i] is Mount || s[i] is ChangeDir);
        } else if i < 3 + d {
            assert(s[i] == JailStep::EnsureDir(p.dirs@[i - 3]));
        } else if i < 3 + d + m {
            assert(s[i] == JailStep::Mount(p.mounts@[i - 3 - d]));
        } else if i < 3 + d + m + dd {
            assert(s[i] == JailStep::EnsureDir(p.dev_dirs@[i - 3 - d - m]));
        } else if i < 3 + d + m + dd + dm {
            assert(s[i] == JailStep::Mount(p.dev_mounts@[i - 3 - d - m - dd]));
        } else if i == n - 2 {
            assert(s[i] == JailStep::ChrootHere);
        } else {
            assert(s[i] == JailStep::ChangeDirRoot);
        }
    }
}

/// Whether a path stays inside the jail: it is relative to the entered
/// rootfs.
pub open spec fn jail_local(t: Seq<char>) -> bool {
    t.len() >= 2 && t[0] == '.' && t[1] == '/'
}

/// What the jail can see: the host root is remounted private and
/// recursive before anything else, so no later mount propagates to the
/// host, and every mount after entering the rootfs lands on a
/// jail-local path — exactly the fixed pseudo-filesystem targets, the
/// explicitly bound host directories when requested, and the two
/// device mounts.  No other host directory is mapped in.
pub proof fn lemma_jail_mounts_confined(p: MountPlan, rootfs: Seq<char>, bind_host_userland: bool)
    requires
        is_jail_plan(p, rootfs, bind_host_userland),
    ensures
        p.root_private.flags.private && p.root_private.flags.recursive && p.root_private.target@
            == "/"@,
        p.mounts@.map_values(|m: MountOp| m.target@) == seq!["./proc"@, "./sys"@, "./dev"@, "./tmp"@]
            + if bind_host_userland {
            host_bind_targets()
        } else {
            Seq::empty()
        },
        forall|i: int| 0 <= i < p.mounts@.len() ==> jail_local(#[trigger] p.mounts@[i].target@),
        forall|i: int|
            0 <= i < p.dev_mounts@.len() ==> jail_local(#[trigger] p.dev_mounts@[i].target@),
        bind_host_userland ==> forall|i: int|
            0 <= i < 6 ==> opt_str_is(
                #[trigger] p.mounts@[4 + i].source,
                Some(host_bind_sources()[i]),
            ),
{
    reveal_strlit("./proc");
    reveal_strlit("./sys");
    reveal_strlit("./dev");
    reveal_strlit("./tmp");
    reveal_strlit("./bin");
    reveal_strlit("./usr/bin");
    reveal_strlit("./lib");
    reveal_strlit("./lib64");
    reveal_strlit("./usr/lib");
    reveal_strlit("./usr/lib64");
    reveal_strlit("./dev/pts");
    reveal_strlit("./dev/shm");
    if bind_host_userland {
        assert forall|j: int| 0 <= j < 6 implies is_bind_mount(
            p.mounts@[4 + j],
            host_bind_sources()[j],
            host_bind_targets()[j],
        ) by {}
        assert forall|i: int| 4 <= i < 10 implies p.mounts@[i].target@ == host_bind_targets()[i - 4]
            && opt_str_is(p.mounts@[i].source, Some(host_bind_sources()[i - 4])) by {
            let j = i - 4;
            assert(is_bind_mount(p.mounts@[4 + j], host_bind_sources()[j], host_bind_targets()[j]));
            assert(p.mounts@[4 + j] == p.mounts@[i]);
        }
    }
    assert forall|i: int| 0 <= i < p.mounts@.len() implies jail_local(
        #[trigger] p.mounts@[i].target@,
    ) by {
        if i >= 4 {
            assert(p.mounts@[i].target@ == host_bind_targets()[i - 4]);
        }
    }
    assert(p.mounts@.map_values(|m: MountOp| m.target@) =~= seq![
        "./proc"@,
        "./sys"@,
        "./dev"@,
        "./tmp"@,
    ]
        + if bind_host_userland {
        host_bind_targets()
    } else {
        Seq::empty()
    });
}

} // verus!
