//! The v1 resource controllers and their on-disk names.

use vstd::prelude::*;

verus! {

/// A cgroup resource controller.  Under v1 each controller has a
/// hierarchy of its own under the mount root; under v2 controllers are
/// names enabled in a group's subtree-control file.
#[derive(Clone, Copy, PartialEq, Eq, Structural, Debug)]
pub enum Controller {
    Memory,
    Cpu,
    CpuSet,
    BlkIo,
    Devices,
    Freezer,
    NetCls,
}

/// The on-disk name of a controller.
pub open spec fn controller_name(c: Controller) -> Seq<char> {
    match c {
        Controller::Memory => "memory"@,
        Controller::Cpu => "cpu"@,
        Controller::CpuSet => "cpuset"@,
        Controller::BlkIo => "blkio"@,
        Controller::Devices => "devices"@,
        Controller::Freezer => "freezer"@,
        Controller::NetCls => "net_cls"@,
    }
}

impl Controller {
    /// The directory or token name of this controller.
    pub fn as_str(&self) -> (r: &'static str)
        ensures
            r@ == controller_name(*self),
    {
        match self {
            Controller::Memory => "memory",
            Controller::Cpu => "cpu",
            Controller::CpuSet => "cpuset",
            Controller::BlkIo => "blkio",
            Controller::Devices => "devices",
            Controller::Freezer => "freezer",
            Controller::NetCls => "net_cls",
        }
    }
}

} // verus!
