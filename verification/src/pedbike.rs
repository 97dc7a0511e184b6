//! Option strings of the Chapter 24 off-street pedestrian facilities.
use vstd::prelude::*;
use crate::text::{chars_eq, lowercase, str_eq, strip_separators, lowered, text_code, without_separators};

verus! {

/// Exclusive pedestrian facility type.
#[derive(Clone, Copy, Debug, PartialEq, Eq, Structural)]
pub enum PedFacilityKind {
    Walkway,
    CrossFlow,
    Stairway,
}

/// Pedestrian arrival pattern.
#[derive(Clone, Copy, Debug, PartialEq, Eq, Structural)]
pub enum PedFlowKind {
    Random,
    Platooned,
}

/// Facility type a lowercased name with separators removed selects; an
/// unknown or empty name is a walkway.
pub open spec fn ped_facility_named(s: Seq<char>) -> PedFacilityKind {
    if s == "crossflow"@ {
        PedFacilityKind::CrossFlow
    } else if s == "stairway"@ {
        PedFacilityKind::Stairway
    } else {
        PedFacilityKind::Walkway
    }
}

/// Flow type a lowercased name selects: platooned for "platooned" or
/// "platoon", else random.
pub open spec fn ped_flow_named(s: Seq<char>) -> PedFlowKind {
    if s == "platooned"@ || s == "platoon"@ {
        PedFlowKind::Platooned
    } else {
        PedFlowKind::Random
    }
}

/// Facility type from an already lowercased name, separators ignored.
pub fn ped_facility_from_lowercase(s: &str) -> (r: PedFacilityKind)
    ensures
        r == ped_facility_named(without_separators(s@)),
{
    let k = strip_separators(s);
    if chars_eq(&k, "crossflow") {
        PedFacilityKind::CrossFlow
    } else if chars_eq(&k, "stairway") {
        PedFacilityKind::Stairway
    } else {
        PedFacilityKind::Walkway
    }
}

/// Facility type from an optional name ("cross_flow", "Stair-way", ...);
/// no name is a walkway.
pub fn parse_facility_type(s: Option<&str>) -> (r: PedFacilityKind)
    ensures
        r == (match s {
            Some(t) => ped_facility_named(without_separators(lowered(t@))),
            None => PedFacilityKind::Walkway,
        }),
{
    match s {
        Some(t) => {
            let low = lowercase(t);
            ped_facility_from_lowercase(low.as_str())
        },
        None => PedFacilityKind::Walkway,
    }
}

/// Flow type from an already lowercased name.
pub fn ped_flow_from_lowercase(s: &str) -> (r: PedFlowKind)
    ensures
        r == ped_flow_named(s@),
{
    if str_eq(s, "platooned") || str_eq(s, "platoon") {
        PedFlowKind::Platooned
    } else {
        PedFlowKind::Random
    }
}

/// Flow type from an optional name; no name means
/// random arrivals.
pub fn parse_flow_type(s: Option<&str>) -> (r: PedFlowKind)
    ensures
        r == (match s {
            Some(t) => ped_flow_named(lowered(t@)),
            None => PedFlowKind::Random,
        }),
{
    match s {
        Some(t) => {
            let low = lowercase(t);
            ped_flow_from_lowercase(low.as_str())
        },
        None => PedFlowKind::Random,
    }
}

/// "crossflow" reads as a cross-flow facility, "stairway" as a stairway,
/// and every other text as a walkway.
pub proof fn lemma_ped_facility_reads(s: Seq<char>)
    ensures
        ped_facility_named(s) == PedFacilityKind::CrossFlow <==> (s == "crossflow"@),
        ped_facility_named(s) == PedFacilityKind::Stairway <==> (s == "stairway"@),
        ped_facility_named(s) == PedFacilityKind::Walkway <==> !(
            s == "crossflow"@ || s == "stairway"@
        ),
{
    reveal_strlit("crossflow");
    reveal_strlit("stairway");
    assert(text_code("crossflow"@) == 2221710533899722978148);
    assert(text_code("stairway"@) == 8818743457446262132);
}

/// "platooned" and "platoon" read as platooned flow and every other text as
/// random flow.
pub proof fn lemma_ped_flow_reads(s: Seq<char>)
    ensures
        ped_flow_named(s) == PedFlowKind::Platooned <==> (s == "platooned"@ || s == "platoon"@),
        ped_flow_named(s) == PedFlowKind::Random <==> !(s == "platooned"@ || s == "platoon"@),
{
    reveal_strlit("platooned");
    reveal_strlit("platoon");
    assert(text_code("platooned"@) == 1870502393387256278385);
    assert(text_code("platoon"@) == 31367350722915697);
}

} // verus!
