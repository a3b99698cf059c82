//! Detection of the kernel's cgroup protocol.

use vstd::prelude::*;

verus! {

/// The cgroup protocol the kernel exposes under the cgroup mount root:
/// one hierarchy per controller (v1) or one unified hierarchy (v2).
#[derive(Clone, Copy, PartialEq, Eq, Structural, Debug)]
pub enum CgroupVersion {
    V1,
    V2,
}

/// The protocol that a probe of the mount root reveals: the unified
/// hierarchy's marker file (`cgroup.controllers`) exists directly under
/// the root exactly under v2.
pub open spec fn detected_version(unified_marker_present: bool) -> CgroupVersion {
    if unified_marker_present {
        CgroupVersion::V2
    } else {
        CgroupVersion::V1
    }
}

/// Decides the protocol from the result of probing for the
/// unified-hierarchy marker file directly under the cgroup mount root.
/// Pure and side-effect free: the probe itself is the caller's.
pub fn detect_protocol(unified_marker_present: bool) -> (v: CgroupVersion)
    ensures
        v == detected_version(unified_marker_present),
{
    if unified_marker_present {
        CgroupVersion::V2
    } else {
        CgroupVersion::V1
    }
}

/// Protocol detection is deterministic and idempotent: two detections
/// over the same probe result of the same root agree.
pub proof fn lemma_detect_protocol_deterministic(first: bool, second: bool)
    requires
        first == second,
    ensures
        detected_version(first) == detected_version(second),
{
}

} // verus!
