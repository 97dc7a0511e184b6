//! Option string of the Chapter 12 managed lane segment.
use vstd::prelude::*;
use crate::text::{lowercase, str_eq, lowered, text_code};

verus! {

/// Managed lane separation type (Exhibit 12-9).
#[derive(Clone, Copy, Debug, PartialEq, Eq, Structural)]
pub enum ManagedLaneKind {
    ContinuousAccess,
    Buffer1,
    Buffer2,
    Barrier1,
    Barrier2,
}

/// Lane type a lowercased name selects; an unknown name is continuous
/// access.
pub open spec fn managed_lane_kind_named(s: Seq<char>) -> ManagedLaneKind {
    if s == "buffer1"@ {
        ManagedLaneKind::Buffer1
    } else if s == "buffer2"@ {
        ManagedLaneKind::Buffer2
    } else if s == "barrier1"@ {
        ManagedLaneKind::Barrier1
    } else if s == "barrier2"@ {
        ManagedLaneKind::Barrier2
    } else {
        ManagedLaneKind::ContinuousAccess
    }
}

/// Lane type from an already lowercased name.
pub fn managed_lane_kind_from_lowercase(s: &str) -> (r: ManagedLaneKind)
    ensures
        r == managed_lane_kind_named(s@),
{
    if str_eq(s, "buffer1") {
        ManagedLaneKind::Buffer1
    } else if str_eq(s, "buffer2") {
        ManagedLaneKind::Buffer2
    } else if str_eq(s, "barrier1") {
        ManagedLaneKind::Barrier1
    } else if str_eq(s, "barrier2") {
        ManagedLaneKind::Barrier2
    } else {
        ManagedLaneKind::ContinuousAccess
    }
}

/// Lane type from an optional name in any letter case; no name means
/// continuous access.
pub fn parse_managed_lane_type(s: Option<&str>) -> (r: ManagedLaneKind)
    ensures
        r == (match s {
            Some(t) => managed_lane_kind_named(lowered(t@)),
            None => ManagedLaneKind::ContinuousAccess,
        }),
{
    match s {
        Some(t) => {
            let low = lowercase(t);
            managed_lane_kind_from_lowercase(low.as_str())
        },
        None => ManagedLaneKind::ContinuousAccess,
    }
}

/// Each managed-lane type's names read as that type, and every other text
/// as continuous access.
pub proof fn lemma_managed_lane_kind_reads(s: Seq<char>)
    ensures
        managed_lane_kind_named(s) == ManagedLaneKind::Buffer1 <==> (s == "buffer1"@),
        managed_lane_kind_named(s) == ManagedLaneKind::Buffer2 <==> (s == "buffer2"@),
        managed_lane_kind_named(s) == ManagedLaneKind::Barrier1 <==> (s == "barrier1"@),
        managed_lane_kind_named(s) == ManagedLaneKind::Barrier2 <==> (s == "barrier2"@),
        managed_lane_kind_named(s) == ManagedLaneKind::ContinuousAccess <==> !(
            s == "buffer1"@ || s == "buffer2"@ || s == "barrier1"@ || s == "barrier2"@
        ),
{
    reveal_strlit("buffer1");
    reveal_strlit("buffer2");
    reveal_strlit("barrier1");
    reveal_strlit("barrier2");
    assert(text_code("buffer1"@) == 14200632494224995);
    assert(text_code("buffer2"@) == 14482107470935651);
    assert(text_code("barrier1"@) == 3635361931607630435);
    assert(text_code("barrier2"@) == 3707419525645558371);
}

} // verus!
