//! The dual-protocol cgroup controller.
//!
//! A `CgroupManager` carries the mount root and the protocol detected
//! once for it; a `Cgroup` is a named, created group.  Every mutating
//! operation is returned as the directories to create or remove and
//! the control-file writes to perform — the runner executes them and
//! propagates their failure — while reads are parsed here from the raw
//! file contents the runner hands in.

use vstd::prelude::*;

use crate::controller::{controller_name, Controller};
use crate::paths::{join_path, path_join};
use crate::stats::{
    cpu_stats_v1, cpu_stats_v1_spec, cpu_stats_v2, cpu_stats_v2_spec, memory_stats_v1,
    mem_stats_v1_spec, memory_stats_v2, mem_stats_v2_spec, CpuReads, CpuStats, MemoryReads,
    MemoryStats,
};
use crate::text::{dec_str, dec_str_int, lines_spec, parse_u32, parse_u32_spec, split_lines, trim,
    trim_spec};
use crate::version::{detected_version, CgroupVersion};
use crate::{CgroupError, FileWrite};

verus! {

/// A manager bound to one cgroup mount root and the protocol found
/// there.
#[derive(Debug)]
pub struct CgroupManager {
    pub cgroup_root: String,
    pub cgroup_version: CgroupVersion,
}

/// A named group: its name, the directory it is anchored at, and the
/// manager it was created under.
#[derive(Debug)]
pub struct Cgroup {
    pub name: String,
    pub path: String,
    pub manager: CgroupManager,
}

/// What creating a cgroup asks of the runner: the directories to
/// create, in order, then the control-file writes to perform.
pub struct CgroupCreation {
    pub cgroup: Cgroup,
    pub dirs: Vec<String>,
    pub writes: Vec<FileWrite>,
}

/// A directory tree, as an eager walk of the filesystem materializes
/// it: the subdirectories of each directory, in the order the walk
/// yielded them.
pub struct DirTree {
    pub name: String,
    pub children: Vec<DirTree>,
}

/// The directory of `name` under controller `c`'s own v1 hierarchy.
pub open spec fn v1_controller_dir(root: Seq<char>, c: Controller, name: Seq<char>) -> Seq<char> {
    path_join(path_join(root, controller_name(c)), name)
}

/// The `+name` token list written to a subtree-control file to enable
/// `cs` for child groups.
pub open spec fn plus_join(cs: Seq<Controller>) -> Seq<char>
    decreases cs.len(),
{
    if cs.len() == 0 {
        Seq::empty()
    } else if cs.len() == 1 {
        "+"@ + controller_name(cs[0])
    } else {
        plus_join(cs.drop_last()) + " +"@ + controller_name(cs.last())
    }
}

/// Builds the `+name` token list for a subtree-control write.
pub fn plus_tokens(controllers: &[Controller]) -> (s: String)
    ensures
        s@ == plus_join(controllers@),
{
    let mut s = String::new();
    proof {
        assert(controllers@.take(0) =~= Seq::<Controller>::empty());
    }
    let mut i: usize = 0;
    while i < controllers.len()
        invariant
            i <= controllers@.len(),
            s@ == plus_join(controllers@.take(i as int)),
        decreases controllers@.len() - i,
    {
        if i == 0 {
            s = String::from_str("+").concat(controllers[0].as_str());
            proof {
                assert(controllers@.take(1)[0] == controllers@[0]);
                assert(s@ =~= plus_join(controllers@.take(1)));
            }
        } else {
            s.append(" +");
            s.append(controllers[i].as_str());
            proof {
                assert(controllers@.take(i + 1).drop_last() =~= controllers@.take(i as int));
                assert(controllers@.take(i + 1).last() == controllers@[i as int]);
                assert(s@ =~= plus_join(controllers@.take(i + 1)));
            }
        }
        i = i + 1;
    }
    proof {
        assert(controllers@.take(controllers@.len() as int) =~= controllers@);
    }
    s
}

/// The names of every directory under the children of `cs`, each
/// prefixed with its ancestors' names, in depth-first order.
pub open spec fn flatten_children(cs: Seq<DirTree>, prefix: Seq<char>) -> Seq<Seq<char>>
    decreases cs, cs.len(),
{
    if cs.len() == 0 {
        Seq::empty()
    } else {
        flatten_one(cs[0], prefix) + flatten_children(cs.skip(1), prefix)
    }
}

/// One directory's full name followed by those of its descendants.
pub open spec fn flatten_one(t: DirTree, prefix: Seq<char>) -> Seq<Seq<char>>
    decreases t, 0nat,
{
    let full = if prefix.len() == 0 {
        t.name@
    } else {
        prefix + "/"@ + t.name@
    };
    seq![full] + flatten_children(t.children@, full)
}

proof fn lemma_flatten_children_take(cs: Seq<DirTree>, prefix: Seq<char>, i: int)
    requires
        0 <= i < cs.len(),
    ensures
        flatten_children(cs.take(i + 1), prefix) == flatten_children(cs.take(i), prefix)
            + flatten_one(cs[i], prefix),
    decreases i,
{
    if i == 0 {
        assert(cs.take(1)[0] == cs[0]);
        assert(cs.take(1).skip(1) =~= Seq::<DirTree>::empty());
        assert(cs.take(0) =~= Seq::<DirTree>::empty());
        assert(flatten_children(cs.take(1), prefix) == flatten_one(cs.take(1)[0], prefix)
            + flatten_children(cs.take(1).skip(1), prefix));
        assert(flatten_children(Seq::<DirTree>::empty(), prefix) == Seq::<Seq<char>>::empty());
        assert(flatten_children(cs.take(1), prefix) =~= flatten_one(cs[0], prefix));
    } else {
        lemma_flatten_children_take(cs.skip(1), prefix, i - 1);
        assert(cs.take(i + 1)[0] == cs[0]);
        assert(cs.take(i)[0] == cs[0]);
        assert(cs.take(i + 1).skip(1) =~= cs.skip(1).take(i));
        assert(cs.take(i).skip(1) =~= cs.skip(1).take(i - 1));
        assert(cs.skip(1)[i - 1] == cs[i]);
        assert(flatten_children(cs.take(i + 1), prefix) == flatten_one(cs[0], prefix)
            + flatten_children(cs.skip(1).take(i), prefix));
        assert(flatten_children(cs.take(i + 1), prefix) =~= flatten_children(cs.take(i), prefix)
            + flatten_one(cs[i], prefix));
    }
}

impl CgroupManager {
    /// A manager for the well-known cgroup mount root, under the
    /// protocol a probe of that root revealed (the unified-hierarchy
    /// marker file `cgroup.controllers` exists exactly under v2).
    pub fn new(unified_marker_present: bool) -> (m: Self)
        ensures
            m.cgroup_root@ == "/sys/fs/cgroup"@,
            m.cgroup_version == detected_version(unified_marker_present),
    {
        CgroupManager {
            cgroup_root: String::from_str("/sys/fs/cgroup"),
            cgroup_version: crate::version::detect_protocol(unified_marker_present),
        }
    }

    /// A manager for an explicit root path, under the protocol a probe
    /// of that root revealed.
    pub fn with_root(root: &str, unified_marker_present: bool) -> (m: Self)
        ensures
            m.cgroup_root@ == root@,
            m.cgroup_version == detected_version(unified_marker_present),
    {
        CgroupManager {
            cgroup_root: String::from_str(root),
            cgroup_version: crate::version::detect_protocol(unified_marker_present),
        }
    }

    /// The protocol this manager was created under.
    pub fn version(&self) -> (v: &CgroupVersion)
        ensures
            *v == self.cgroup_version,
    {
        &self.cgroup_version
    }

    /// The directory whose existence decides whether the named group
    /// exists: under v1 the group's directory in the given
    /// controller's hierarchy — a controller is required — and under
    /// v2 its directory under the unified root.
    pub open spec fn location_spec(self, name: Seq<char>, controller: Option<Controller>) -> Result<
        Seq<char>,
        CgroupError,
    > {
        match self.cgroup_version {
            CgroupVersion::V1 => match controller {
                Some(c) => Ok(v1_controller_dir(self.cgroup_root@, c, name)),
                None => Err(CgroupError::InvalidConfiguration),
            },
            CgroupVersion::V2 => Ok(path_join(self.cgroup_root@, name)),
        }
    }

    /// The directory to probe before `get_cgroup`.
    pub fn cgroup_location(&self, name: &str, controller: Option<Controller>) -> (r: Result<
        String,
        CgroupError,
    >)
        ensures
            match self.location_spec(name@, controller) {
                Ok(p) => r matches Ok(s) && s@ == p,
                Err(e) => r matches Err(g) && g == e,
            },
    {
        match self.cgroup_version {
            CgroupVersion::V1 => match controller {
                Some(c) => Ok(
                    join_path(
                        join_path(self.cgroup_root.as_str(), c.as_str()).as_str(),
                        name,
                    ),
                ),
                None => Err(CgroupError::InvalidConfiguration),
            },
            CgroupVersion::V2 => Ok(join_path(self.cgroup_root.as_str(), name)),
        }
    }

    /// A handle for a group that already exists, `present` being the
    /// runner's probe of the deciding directory.  Fails with
    /// `InvalidConfiguration` when v1 is asked without a controller,
    /// and with `NotFound` when the directory is absent.
    pub fn get_cgroup(&self, name: &str, controller: Option<Controller>, present: bool) -> (r:
        Result<Cgroup, CgroupError>)
        ensures
            match self.location_spec(name@, controller) {
                Err(e) => r matches Err(g) && g == e,
                Ok(p) => if present {
                    r matches Ok(c) && c.name@ == name@ && c.path@ == p && c.manager == *self
                } else {
                    r matches Err(g) && g == CgroupError::NotFound
                },
            },
    {
        let path = match self.cgroup_location(name, controller) {
            Ok(p) => p,
            Err(e) => {
                return Err(e);
            },
        };
        if !present {
            return Err(CgroupError::NotFound);
        }
        Ok(
            Cgroup {
                name: String::from_str(name),
                path,
                manager: CgroupManager {
                    cgroup_root: self.cgroup_root.clone(),
                    cgroup_version: self.cgroup_version,
                },
            },
        )
    }

    /// Creates the named group: under v1 one directory per requested
    /// controller, the handle anchored at the first controller's path,
    /// and an empty controller list refused; under v2 one directory
    /// under the unified root, plus — when controllers were named — a
    /// subtree-control write enabling them for descendants.
    pub fn create_cgroup(&self, name: &str, controllers: &[Controller]) -> (r: Result<
        CgroupCreation,
        CgroupError,
    >)
        ensures
            self.cgroup_version == CgroupVersion::V1 && controllers@.len() == 0 ==> (r matches Err(e)
                && e == CgroupError::InvalidConfiguration),
            self.cgroup_version == CgroupVersion::V1 && controllers@.len() > 0 ==> (r matches Ok(c)
                && {
                &&& c.dirs@.len() == controllers@.len()
                &&& forall|i: int|
                    0 <= i < controllers@.len() ==> c.dirs@[i]@ == v1_controller_dir(
                        self.cgroup_root@,
                        controllers@[i],
                        name@,
                    )
                &&& c.writes@.len() == 0
                &&& c.cgroup.name@ == name@
                &&& c.cgroup.path@ == v1_controller_dir(self.cgroup_root@, controllers@[0], name@)
                &&& c.cgroup.manager == *self
            }),
            self.cgroup_version == CgroupVersion::V2 ==> (r matches Ok(c) && {
                &&& c.dirs@.len() == 1
                &&& c.dirs@[0]@ == path_join(self.cgroup_root@, name@)
                &&& c.cgroup.name@ == name@
                &&& c.cgroup.path@ == path_join(self.cgroup_root@, name@)
                &&& c.cgroup.manager == *self
                &&& controllers@.len() == 0 ==> c.writes@.len() == 0
                &&& controllers@.len() > 0 ==> c.writes@.len() == 1 && c.writes@[0].path@
                    == path_join(
                    path_join(self.cgroup_root@, name@),
                    "cgroup.subtree_control"@,
                ) && c.writes@[0].contents@ == plus_join(controllers@)
            }),
    {
        match self.cgroup_version {
            CgroupVersion::V1 => self.create_cgroup_v1(name, controllers),
            CgroupVersion::V2 => self.create_cgroup_v2(name, controllers),
        }
    }

    fn create_cgroup_v1(&self, name: &str, controllers: &[Controller]) -> (r: Result<
        CgroupCreation,
        CgroupError,
    >)
        requires
            self.cgroup_version == CgroupVersion::V1,
        ensures
            controllers@.len() == 0 ==> (r matches Err(e) && e
                == CgroupError::InvalidConfiguration),
            controllers@.len() > 0 ==> (r matches Ok(c) && {
                &&& c.dirs@.len() == controllers@.len()
                &&& forall|i: int|
                    0 <= i < controllers@.len() ==> c.dirs@[i]@ == v1_controller_dir(
                        self.cgroup_root@,
                        controllers@[i],
                        name@,
                    )
                &&& c.writes@.len() == 0
                &&& c.cgroup.name@ == name@
                &&& c.cgroup.path@ == v1_controller_dir(self.cgroup_root@, controllers@[0], name@)
                &&& c.cgroup.manager == *self
            }),
    {
        if controllers.len() == 0 {
            return Err(CgroupError::InvalidConfiguration);
        }
        let mut dirs: Vec<String> = Vec::new();
        let mut i: usize = 0;
        while i < controllers.len()
            invariant
                i <= controllers@.len(),
                dirs@.len() == i,
                forall|k: int|
                    0 <= k < i as int ==> dirs@[k]@ == v1_controller_dir(
                        self.cgroup_root@,
                        controllers@[k],
                        name@,
                    ),
            decreases controllers@.len() - i,
        {
            let d = join_path(
                join_path(self.cgroup_root.as_str(), controllers[i].as_str()).as_str(),
                name,
            );
            dirs.push(d);
            i = i + 1;
        }
        let main_path = join_path(
            join_path(self.cgroup_root.as_str(), controllers[0].as_str()).as_str(),
            name,
        );
        Ok(
            CgroupCreation {
                cgroup: Cgroup {
                    name: String::from_str(name),
                    path: main_path,
                    manager: CgroupManager {
                        cgroup_root: self.cgroup_root.clone(),
                        cgroup_version: self.cgroup_version,
                    },
                },
                dirs,
                writes: Vec::new(),
            },
        )
    }

    fn create_cgroup_v2(&self, name: &str, controllers: &[Controller]) -> (r: Result<
        CgroupCreation,
        CgroupError,
    >)
        requires
            self.cgroup_version == CgroupVersion::V2,
        ensures
            r matches Ok(c) && {
                &&& c.dirs@.len() == 1
                &&& c.dirs@[0]@ == path_join(self.cgroup_root@, name@)
                &&& c.cgroup.name@ == name@
                &&& c.cgroup.path@ == path_join(self.cgroup_root@, name@)
                &&& c.cgroup.manager == *self
                &&& controllers@.len() == 0 ==> c.writes@.len() == 0
                &&& controllers@.len() > 0 ==> c.writes@.len() == 1 && c.writes@[0].path@
                    == path_join(
                    path_join(self.cgroup_root@, name@),
                    "cgroup.subtree_control"@,
                ) && c.writes@[0].contents@ == plus_join(controllers@)
            },
    {
        let cgroup_path = join_path(self.cgroup_root.as_str(), name);
        let mut dirs: Vec<String> = Vec::new();
        dirs.push(cgroup_path.clone());
        let mut writes: Vec<FileWrite> = Vec::new();
        if controllers.len() > 0 {
            writes.push(
                FileWrite {
                    path: join_path(cgroup_path.as_str(), "cgroup.subtree_control"),
                    contents: plus_tokens(controllers),
                },
            );
        }
        Ok(
            CgroupCreation {
                cgroup: Cgroup {
                    name: String::from_str(name),
                    path: cgroup_path,
                    manager: CgroupManager {
                        cgroup_root: self.cgroup_root.clone(),
                        cgroup_version: self.cgroup_version,
                    },
                },
                dirs,
                writes,
            },
        )
    }

    /// The directory a listing walks: a controller's hierarchy under
    /// v1 — a controller is required — or the unified root under v2.
    pub open spec fn list_root_spec(self, controller: Option<Controller>) -> Result<
        Seq<char>,
        CgroupError,
    > {
        match self.cgroup_version {
            CgroupVersion::V1 => match controller {
                Some(c) => Ok(path_join(self.cgroup_root@, controller_name(c))),
                None => Err(CgroupError::InvalidConfiguration),
            },
            CgroupVersion::V2 => Ok(self.cgroup_root@),
        }
    }

    /// The directory to walk before `list_cgroups`.
    pub fn list_root(&self, controller: Option<Controller>) -> (r: Result<String, CgroupError>)
        ensures
            match self.list_root_spec(controller) {
                Ok(p) => r matches Ok(s) && s@ == p,
                Err(e) => r matches Err(g) && g == e,
            },
    {
        match self.cgroup_version {
            CgroupVersion::V1 => match controller {
                Some(c) => Ok(join_path(self.cgroup_root.as_str(), c.as_str())),
                None => Err(CgroupError::InvalidConfiguration),
            },
            CgroupVersion::V2 => Ok(self.cgroup_root.clone()),
        }
    }

    /// The names of every group under the relevant hierarchy root,
    /// from the tree an eager walk of that root materialized: each
    /// directory prefixed with its ancestors, in depth-first order.
    /// Under v1 a controller is required; v2 ignores it.
    pub fn list_cgroups(&self, controller: Option<Controller>, tree: &DirTree) -> (r: Result<
        Vec<String>,
        CgroupError,
    >)
        ensures
            match self.list_root_spec(controller) {
                Err(e) => r matches Err(g) && g == e,
                Ok(_) => r matches Ok(v) && v@.map_values(|s: String| s@) == flatten_children(
                    tree.children@,
                    Seq::<char>::empty(),
                ),
            },
    {
        match self.cgroup_version {
            CgroupVersion::V1 => {
                if controller.is_none() {
                    return Err(CgroupError::InvalidConfiguration);
                }
            },
            CgroupVersion::V2 => {},
        }
        let mut cgroups: Vec<String> = Vec::new();
        proof {
            reveal_strlit("");
            assert(""@ =~= Seq::<char>::empty());
            assert(cgroups@.map_values(|s: String| s@) =~= Seq::<Seq<char>>::empty());
        }
        self.collect_cgroups(tree, "", &mut cgroups);
        proof {
            assert(cgroups@.map_values(|s: String| s@) =~= flatten_children(
                tree.children@,
                Seq::<char>::empty(),
            ));
        }
        Ok(cgroups)
    }

    /// Appends the prefixed names of everything under `tree`'s
    /// children, depth first.
    pub fn collect_cgroups(&self, tree: &DirTree, prefix: &str, cgroups: &mut Vec<String>)
        ensures
            final(cgroups)@.map_values(|s: String| s@) == old(cgroups)@.map_values(|s: String| s@)
                + flatten_children(tree.children@, prefix@),
        decreases *tree,
    {
        let ghost snap = cgroups@.map_values(|s: String| s@);
        let n = tree.children.len();
        proof {
            assert(tree.children@.take(0) =~= Seq::<DirTree>::empty());
            assert(snap + flatten_children(tree.children@.take(0), prefix@) =~= snap);
        }
        let mut i: usize = 0;
        while i < n
            invariant
                i <= n,
                n == tree.children@.len(),
                cgroups@.map_values(|s: String| s@) == snap + flatten_children(
                    tree.children@.take(i as int),
                    prefix@,
                ),
            decreases n - i,
        {
            let child = &tree.children[i];
            let full: String = if prefix.unicode_len() == 0 {
                child.name.clone()
            } else {
                String::from_str(prefix).concat("/").concat(child.name.as_str())
            };
            let ghost fullv = full@;
            let ghost before = cgroups@.map_values(|s: String| s@);
            let full_for_rec = full.clone();
            cgroups.push(full);
            proof {
                assert(cgroups@.map_values(|s: String| s@) =~= before.push(fullv));
            }
            self.collect_cgroups(child, full_for_rec.as_str(), cgroups);
            proof {
                lemma_flatten_children_take(tree.children@, prefix@, i as int);
            }
            i = i + 1;
        }
        proof {
            assert(tree.children@.take(n as int) =~= tree.children@);
        }
    }
}

/// The process identifiers a membership file's contents list: each
/// line trimmed and read as a number, unreadable lines skipped.
pub open spec fn pids_of_lines(lines: Seq<Seq<char>>) -> Seq<u32>
    decreases lines.len(),
{
    if lines.len() == 0 {
        Seq::empty()
    } else {
        pids_of_lines(lines.drop_last()) + match parse_u32_spec(trim_spec(lines.last())) {
            Some(p) => seq![p],
            None => Seq::empty(),
        }
    }
}

/// The process identifiers listed in a membership file's contents.
pub open spec fn pids_of(content: Seq<char>) -> Seq<u32> {
    pids_of_lines(lines_spec(content))
}

/// What the attach write reads back as: the contents `add_process`
/// writes for `pid` — its decimal — list exactly that one pid when the
/// membership file is read again.
pub proof fn lemma_attach_write_reads_back(pid: u32)
    ensures
        pids_of(dec_str(pid as nat)) == seq![pid],
{
    let s = dec_str(pid as nat);
    crate::text::lemma_dec_str_digits(pid as nat);
    crate::text::lemma_digits_single_line(s);
    assert forall|i: int| 0 <= i < s.len() implies !crate::text::is_space(#[trigger] s[i]) by {
        assert(crate::text::is_digit(s[i]));
    }
    crate::text::lemma_trim_no_space(s);
    crate::text::lemma_dec_str_round_trip(pid as nat);
    assert(seq![s].drop_last() =~= Seq::<Seq<char>>::empty());
    assert(seq![s].last() == s);
    assert(pids_of_lines(Seq::<Seq<char>>::empty()) == Seq::<u32>::empty());
    assert(parse_u32_spec(trim_spec(s)) == Some(pid));
    assert(pids_of(s) =~= seq![pid]);
}

/// The v1 hierarchies a deletion removes a group from, in order.
pub open spec fn delete_controllers() -> Seq<Controller> {
    seq![
        Controller::Memory,
        Controller::Cpu,
        Controller::CpuSet,
        Controller::BlkIo,
        Controller::Devices,
        Controller::Freezer,
    ]
}

impl Cgroup {
    /// The group's name.
    pub fn name(&self) -> (r: &str)
        ensures
            r@ == self.name@,
    {
        self.name.as_str()
    }

    /// The directory the group is anchored at.
    pub fn path(&self) -> (r: &str)
        ensures
            r@ == self.path@,
    {
        self.path.as_str()
    }

    /// The directory holding controller `c`'s control files for this
    /// group: the group's directory in `c`'s own hierarchy under v1,
    /// the group's one directory under v2.
    pub open spec fn controller_path_spec(self, c: Controller) -> Seq<char> {
        match self.manager.cgroup_version {
            CgroupVersion::V1 => v1_controller_dir(self.manager.cgroup_root@, c, self.name@),
            CgroupVersion::V2 => self.path@,
        }
    }

    /// The directory holding controller `c`'s control files.
    pub fn get_controller_path(&self, controller: Controller) -> (r: String)
        ensures
            r@ == self.controller_path_spec(controller),
    {
        match self.manager.cgroup_version {
            CgroupVersion::V1 => join_path(
                join_path(self.manager.cgroup_root.as_str(), controller.as_str()).as_str(),
                self.name.as_str(),
            ),
            CgroupVersion::V2 => self.path.clone(),
        }
    }

    /// The write that moves process `pid` into this group: its decimal
    /// number into the group's membership file.  The kernel keeps
    /// membership as a set, so repeating the write for the same
    /// process leaves a single entry.
    pub fn add_process(&self, pid: u32) -> (w: FileWrite)
        ensures
            w.path@ == path_join(self.path@, "cgroup.procs"@),
            w.contents@ == dec_str(pid as nat),
    {
        FileWrite {
            path: join_path(self.path.as_str(), "cgroup.procs"),
            contents: crate::text::u32_to_string(pid),
        }
    }

    /// The processes the membership file's contents list.
    pub fn get_processes(&self, procs_content: &str) -> (r: Vec<u32>)
        ensures
            r@ == pids_of(procs_content@),
    {
        let lines = split_lines(procs_content);
        proof {
            assert(lines@.map_values(|l: String| l@) =~= lines_spec(procs_content@));
        }
        let ghost ls = lines@.map_values(|l: String| l@);
        let mut pids: Vec<u32> = Vec::new();
        proof {
            assert(ls.take(0) =~= Seq::<Seq<char>>::empty());
            assert(pids@ =~= pids_of_lines(ls.take(0)));
        }
        let mut i: usize = 0;
        while i < lines.len()
            invariant
                i <= lines@.len(),
                ls == lines@.map_values(|l: String| l@),
                pids@ == pids_of_lines(ls.take(i as int)),
            decreases lines@.len() - i,
        {
            let line = &lines[i];
            proof {
                assert(ls.take(i + 1).drop_last() =~= ls.take(i as int));
                assert(ls.take(i + 1).last() == ls[i as int]);
            }
            match parse_u32(trim(line.as_str())) {
                Some(p) => {
                    pids.push(p);
                    proof {
                        assert(pids@ =~= pids_of_lines(ls.take(i + 1)));
                    }
                },
                None => {
                    proof {
                        assert(pids@ =~= pids_of_lines(ls.take(i + 1)));
                    }
                },
            }
            i = i + 1;
        }
        proof {
            assert(ls.take(lines@.len() as int) =~= ls);
        }
        pids
    }

    /// The write that caps the number of processes in the group: the
    /// count into v2's `pids.max`.  The v1 pids controller is not
    /// among the controllers this manager drives, so under v1 the
    /// operation is refused as a protocol mismatch.
    pub fn set_pid_limit(&self, limit: u32) -> (r: Result<FileWrite, CgroupError>)
        ensures
            self.manager.cgroup_version == CgroupVersion::V2 ==> (r matches Ok(w) && w.path@
                == path_join(self.path@, "pids.max"@) && w.contents@ == dec_str(limit as nat)),
            self.manager.cgroup_version == CgroupVersion::V1 ==> (r matches Err(e) && e
                == CgroupError::ProtocolMismatch),
    {
        match self.manager.cgroup_version {
            CgroupVersion::V1 => Err(CgroupError::ProtocolMismatch),
            CgroupVersion::V2 => Ok(
                FileWrite {
                    path: join_path(self.path.as_str(), "pids.max"),
                    contents: crate::text::u32_to_string(limit),
                },
            ),
        }
    }

    /// The write that caps the group's memory: the byte count into
    /// `memory.limit_in_bytes` (v1) or `memory.max` (v2).
    pub fn set_memory_limit(&self, limit_bytes: u64) -> (w: FileWrite)
        ensures
            w.path@ == match self.manager.cgroup_version {
                CgroupVersion::V1 => path_join(
                    self.controller_path_spec(Controller::Memory),
                    "memory.limit_in_bytes"@,
                ),
                CgroupVersion::V2 => path_join(self.path@, "memory.max"@),
            },
            w.contents@ == dec_str(limit_bytes as nat),
    {
        let path = match self.manager.cgroup_version {
            CgroupVersion::V1 => join_path(
                self.get_controller_path(Controller::Memory).as_str(),
                "memory.limit_in_bytes",
            ),
            CgroupVersion::V2 => join_path(self.path.as_str(), "memory.max"),
        };
        FileWrite { path, contents: crate::text::u64_to_string(limit_bytes) }
    }

    /// The files a memory-statistics read draws from, in order: under
    /// v1 the limit, usage, high-water mark and failure count in the
    /// memory controller's directory; under v2 the limit, current
    /// usage and key-value statistics in the group's one directory.
    /// The runner reads each, best-effort, into `MemoryReads`.
    pub fn memory_source_files(&self) -> (v: Vec<String>)
        ensures
            self.manager.cgroup_version == CgroupVersion::V1 ==> {
                &&& v@.len() == 4
                &&& v@[0]@ == path_join(
                    self.controller_path_spec(Controller::Memory),
                    "memory.limit_in_bytes"@,
                )
                &&& v@[1]@ == path_join(
                    self.controller_path_spec(Controller::Memory),
                    "memory.usage_in_bytes"@,
                )
                &&& v@[2]@ == path_join(
                    self.controller_path_spec(Controller::Memory),
                    "memory.max_usage_in_bytes"@,
                )
                &&& v@[3]@ == path_join(
                    self.controller_path_spec(Controller::Memory),
                    "memory.failcnt"@,
                )
            },
            self.manager.cgroup_version == CgroupVersion::V2 ==> {
                &&& v@.len() == 3
                &&& v@[0]@ == path_join(self.path@, "memory.max"@)
                &&& v@[1]@ == path_join(self.path@, "memory.current"@)
                &&& v@[2]@ == path_join(self.path@, "memory.stat"@)
            },
    {
        let mut v: Vec<String> = Vec::new();
        match self.manager.cgroup_version {
            CgroupVersion::V1 => {
                let mem = self.get_controller_path(Controller::Memory);
                v.push(join_path(mem.as_str(), "memory.limit_in_bytes"));
                v.push(join_path(mem.as_str(), "memory.usage_in_bytes"));
                v.push(join_path(mem.as_str(), "memory.max_usage_in_bytes"));
                v.push(join_path(mem.as_str(), "memory.failcnt"));
            },
            CgroupVersion::V2 => {
                v.push(join_path(self.path.as_str(), "memory.max"));
                v.push(join_path(self.path.as_str(), "memory.current"));
                v.push(join_path(self.path.as_str(), "memory.stat"));
            },
        }
        v
    }

    /// The files a CPU-statistics read draws from, in order: under v1
    /// the shares, quota, period and accumulated usage in the cpu
    /// controller's directory; under v2 the weight, the combined
    /// quota-and-period file and the key-value statistics in the
    /// group's one directory.  The runner reads each, best-effort,
    /// into `CpuReads`.
    pub fn cpu_source_files(&self) -> (v: Vec<String>)
        ensures
            self.manager.cgroup_version == CgroupVersion::V1 ==> {
                &&& v@.len() == 4
                &&& v@[0]@ == path_join(self.controller_path_spec(Controller::Cpu), "cpu.shares"@)
                &&& v@[1]@ == path_join(
                    self.controller_path_spec(Controller::Cpu),
                    "cpu.cfs_quota_us"@,
                )
                &&& v@[2]@ == path_join(
                    self.controller_path_spec(Controller::Cpu),
                    "cpu.cfs_period_us"@,
                )
                &&& v@[3]@ == path_join(
                    self.controller_path_spec(Controller::Cpu),
                    "cpuacct.usage"@,
                )
            },
            self.manager.cgroup_version == CgroupVersion::V2 ==> {
                &&& v@.len() == 3
                &&& v@[0]@ == path_join(self.path@, "cpu.weight"@)
                &&& v@[1]@ == path_join(self.path@, "cpu.max"@)
                &&& v@[2]@ == path_join(self.path@, "cpu.stat"@)
            },
    {
        let mut v: Vec<String> = Vec::new();
        match self.manager.cgroup_version {
            CgroupVersion::V1 => {
                let cpu = self.get_controller_path(Controller::Cpu);
                v.push(join_path(cpu.as_str(), "cpu.shares"));
                v.push(join_path(cpu.as_str(), "cpu.cfs_quota_us"));
                v.push(join_path(cpu.as_str(), "cpu.cfs_period_us"));
                v.push(join_path(cpu.as_str(), "cpuacct.usage"));
            },
            CgroupVersion::V2 => {
                v.push(join_path(self.path.as_str(), "cpu.weight"));
                v.push(join_path(self.path.as_str(), "cpu.max"));
                v.push(join_path(self.path.as_str(), "cpu.stat"));
            },
        }
        v
    }

    /// Memory statistics from the raw control-file contents, parsed
    /// by the protocol the group lives under.  Best-effort: absent or
    /// unreadable fields stay absent or zero.
    pub fn get_memory_stats(&self, reads: &MemoryReads) -> (st: MemoryStats)
        ensures
            st == match self.manager.cgroup_version {
                CgroupVersion::V1 => mem_stats_v1_spec(*reads),
                CgroupVersion::V2 => mem_stats_v2_spec(*reads),
            },
    {
        match self.manager.cgroup_version {
            CgroupVersion::V1 => memory_stats_v1(reads),
            CgroupVersion::V2 => memory_stats_v2(reads),
        }
    }

    /// The write that sets the group's CPU weight: the raw share count
    /// into `cpu.shares` under v1; under v2 the count converted to a
    /// weight (`shares * 100 / 1024`) into `cpu.weight`.
    pub fn set_cpu_shares(&self, shares: u64) -> (w: FileWrite)
        requires
            shares * 100 <= u64::MAX,
        ensures
            w.path@ == match self.manager.cgroup_version {
                CgroupVersion::V1 => path_join(
                    self.controller_path_spec(Controller::Cpu),
                    "cpu.shares"@,
                ),
                CgroupVersion::V2 => path_join(self.path@, "cpu.weight"@),
            },
            w.contents@ == match self.manager.cgroup_version {
                CgroupVersion::V1 => dec_str(shares as nat),
                CgroupVersion::V2 => dec_str(
                    crate::convert::spec_shares_to_weight(shares as nat),
                ),
            },
    {
        match self.manager.cgroup_version {
            CgroupVersion::V1 => FileWrite {
                path: join_path(
                    self.get_controller_path(Controller::Cpu).as_str(),
                    "cpu.shares",
                ),
                contents: crate::text::u64_to_string(shares),
            },
            CgroupVersion::V2 => FileWrite {
                path: join_path(self.path.as_str(), "cpu.weight"),
                contents: crate::text::u64_to_string(crate::convert::shares_to_weight(shares)),
            },
        }
    }

    /// The writes that set the group's CPU quota: under v1 the quota
    /// and period each into their own file, the quota kept signed;
    /// under v2 one `cpu.max` write, a negative quota written as the
    /// literal `max` (no limit).
    pub fn set_cpu_quota(&self, quota_us: i64, period_us: u64) -> (ws: Vec<FileWrite>)
        ensures
            self.manager.cgroup_version == CgroupVersion::V1 ==> {
                &&& ws@.len() == 2
                &&& ws@[0].path@ == path_join(
                    self.controller_path_spec(Controller::Cpu),
                    "cpu.cfs_quota_us"@,
                )
                &&& ws@[0].contents@ == dec_str_int(quota_us as int)
                &&& ws@[1].path@ == path_join(
                    self.controller_path_spec(Controller::Cpu),
                    "cpu.cfs_period_us"@,
                )
                &&& ws@[1].contents@ == dec_str(period_us as nat)
            },
            self.manager.cgroup_version == CgroupVersion::V2 ==> {
                &&& ws@.len() == 1
                &&& ws@[0].path@ == path_join(self.path@, "cpu.max"@)
                &&& ws@[0].contents@ == if quota_us < 0 {
                    "max"@
                } else {
                    dec_str(quota_us as nat) + " "@ + dec_str(period_us as nat)
                }
            },
    {
        let mut ws: Vec<FileWrite> = Vec::new();
        match self.manager.cgroup_version {
            CgroupVersion::V1 => {
                let cpu_path = self.get_controller_path(Controller::Cpu);
                ws.push(
                    FileWrite {
                        path: join_path(cpu_path.as_str(), "cpu.cfs_quota_us"),
                        contents: crate::text::i64_to_string(quota_us),
                    },
                );
                ws.push(
                    FileWrite {
                        path: join_path(cpu_path.as_str(), "cpu.cfs_period_us"),
                        contents: crate::text::u64_to_string(period_us),
                    },
                );
            },
            CgroupVersion::V2 => {
                let contents: String = if quota_us < 0 {
                    String::from_str("max")
                } else {
                    crate::text::u64_to_string(quota_us as u64).concat(" ").concat(
                        crate::text::u64_to_string(period_us).as_str(),
                    )
                };
                ws.push(
                    FileWrite { path: join_path(self.path.as_str(), "cpu.max"), contents },
                );
            },
        }
        ws
    }

    /// CPU statistics from the raw control-file contents, parsed by
    /// the protocol the group lives under.  Best-effort.
    pub fn get_cpu_stats(&self, reads: &CpuReads) -> (st: CpuStats)
        ensures
            st == match self.manager.cgroup_version {
                CgroupVersion::V1 => cpu_stats_v1_spec(*reads),
                CgroupVersion::V2 => cpu_stats_v2_spec(*reads),
            },
    {
        match self.manager.cgroup_version {
            CgroupVersion::V1 => cpu_stats_v1(reads),
            CgroupVersion::V2 => cpu_stats_v2(reads),
        }
    }

    /// The write that freezes every member process: the literal
    /// `FROZEN` into v1's freezer state file, `1` into v2's freeze
    /// file.
    pub fn freeze(&self) -> (w: FileWrite)
        ensures
            w.path@ == match self.manager.cgroup_version {
                CgroupVersion::V1 => path_join(
                    self.controller_path_spec(Controller::Freezer),
                    "freezer.state"@,
                ),
                CgroupVersion::V2 => path_join(self.path@, "cgroup.freeze"@),
            },
            w.contents@ == match self.manager.cgroup_version {
                CgroupVersion::V1 => "FROZEN"@,
                CgroupVersion::V2 => "1"@,
            },
    {
        match self.manager.cgroup_version {
            CgroupVersion::V1 => FileWrite {
                path: join_path(
                    self.get_controller_path(Controller::Freezer).as_str(),
                    "freezer.state",
                ),
                contents: String::from_str("FROZEN"),
            },
            CgroupVersion::V2 => FileWrite {
                path: join_path(self.path.as_str(), "cgroup.freeze"),
                contents: String::from_str("1"),
            },
        }
    }

    /// The write that thaws every member process: the literal `THAWED`
    /// into v1's freezer state file, `0` into v2's freeze file.
    pub fn unfreeze(&self) -> (w: FileWrite)
        ensures
            w.path@ == match self.manager.cgroup_version {
                CgroupVersion::V1 => path_join(
                    self.controller_path_spec(Controller::Freezer),
                    "freezer.state"@,
                ),
                CgroupVersion::V2 => path_join(self.path@, "cgroup.freeze"@),
            },
            w.contents@ == match self.manager.cgroup_version {
                CgroupVersion::V1 => "THAWED"@,
                CgroupVersion::V2 => "0"@,
            },
    {
        match self.manager.cgroup_version {
            CgroupVersion::V1 => FileWrite {
                path: join_path(
                    self.get_controller_path(Controller::Freezer).as_str(),
                    "freezer.state",
                ),
                contents: String::from_str("THAWED"),
            },
            CgroupVersion::V2 => FileWrite {
                path: join_path(self.path.as_str(), "cgroup.freeze"),
                contents: String::from_str("0"),
            },
        }
    }

    /// Decides a deletion from a fresh read of the membership file:
    /// refused with `ResourceBusy` while any process is still listed —
    /// the group is left intact — and otherwise the directories to
    /// remove, under v1 the group's directory in every controller
    /// hierarchy (the runner skips those that do not exist), under v2
    /// the group's one directory.
    pub fn delete(&self, procs_content: &str) -> (r: Result<Vec<String>, CgroupError>)
        ensures
            pids_of(procs_content@).len() > 0 <==> (r matches Err(e) && e
                == CgroupError::ResourceBusy),
            pids_of(procs_content@).len() == 0 ==> (r matches Ok(dirs) && match self
                .manager
                .cgroup_version {
                CgroupVersion::V1 => {
                    &&& dirs@.len() == delete_controllers().len()
                    &&& forall|i: int|
                        0 <= i < dirs@.len() ==> dirs@[i]@ == v1_controller_dir(
                            self.manager.cgroup_root@,
                            delete_controllers()[i],
                            self.name@,
                        )
                },
                CgroupVersion::V2 => dirs@.len() == 1 && dirs@[0]@ == self.path@,
            }),
    {
        let procs = self.get_processes(procs_content);
        if procs.len() > 0 {
            return Err(CgroupError::ResourceBusy);
        }
        let mut dirs: Vec<String> = Vec::new();
        match self.manager.cgroup_version {
            CgroupVersion::V1 => {
                let order: [Controller; 6] = [
                    Controller::Memory,
                    Controller::Cpu,
                    Controller::CpuSet,
                    Controller::BlkIo,
                    Controller::Devices,
                    Controller::Freezer,
                ];
                let mut i: usize = 0;
                while i < 6
                    invariant
                        i <= 6,
                        order@ =~= delete_controllers(),
                        self.manager.cgroup_version == CgroupVersion::V1,
                        dirs@.len() == i,
                        forall|k: int|
                            0 <= k < i as int ==> dirs@[k]@ == v1_controller_dir(
                                self.manager.cgroup_root@,
                                delete_controllers()[k],
                                self.name@,
                            ),
                    decreases 6 - i,
                {
                    let d = join_path(
                        join_path(self.manager.cgroup_root.as_str(), order[i].as_str()).as_str(),
                        self.name.as_str(),
                    );
                    dirs.push(d);
                    i = i + 1;
                }
            },
            CgroupVersion::V2 => {
                dirs.push(self.path.clone());
            },
        }
        Ok(dirs)
    }
}

} // verus!
