//! Chapter 19 pretimed intersection built from flat arrays: how each
//! approach's lanes, shared lanes, left-turn treatment and phase numbers
//! follow from the lane counts and from which volumes and phase durations
//! are positive; and the lookup of an approach's results by direction name.
use vstd::prelude::*;
use crate::text::{str_eq, uppered, uppercase};

verus! {

/// Left-turn treatment of an approach.
#[derive(Clone, Copy, Debug, PartialEq, Eq, Structural)]
pub enum LeftTurnMode {
    NotPresent,
    Protected,
    Permitted,
}

/// Left-turn phase sequence of an approach.
#[derive(Clone, Copy, Debug, PartialEq, Eq, Structural)]
pub enum LeftTurnSequence {
    LeadLead,
    PermPerm,
}

/// The lane and phase layout of one approach.
#[derive(Clone, Copy, Debug, PartialEq, Eq, Structural)]
pub struct ApproachPlan {
    pub exclusive_left: u32,
    pub through: u32,
    pub exclusive_right: u32,
    pub shared_left: bool,
    pub shared_right: bool,
    pub receiving: u32,
    pub mode: LeftTurnMode,
    pub sequence: LeftTurnSequence,
    /// Phase number of the protected left-turn phase, where there is one.
    pub left_phase_no: Option<u8>,
    pub through_phase_no: u8,
}

/// Approaches in the order the flat arrays list them: NB, SB, EB, WB.
pub const APPROACHES: usize = 4;

/// Entries per approach in the volume and lane arrays (left, through,
/// right).
pub const MOVEMENTS_PER_APPROACH: usize = 3;

/// Through-phase number of approach `i` (NB 8, SB 4, EB 2, WB 6).
pub open spec fn through_phase_spec(i: int) -> u8 {
    if i == 0 {
        8
    } else if i == 1 {
        4
    } else if i == 2 {
        2
    } else {
        6
    }
}

/// Left-turn phase number of approach `i` (NB 3, SB 7, EB 5, WB 1).
pub open spec fn left_phase_spec(i: int) -> u8 {
    if i == 0 {
        3
    } else if i == 1 {
        7
    } else if i == 2 {
        5
    } else {
        1
    }
}

/// Whether the lane counts of approach `i` leave room to count a shared
/// right-turn lane among the receiving lanes without overflow.
pub open spec fn receiving_fits(lanes: Seq<u32>, i: int, right_positive: bool) -> bool {
    let through = if lanes[3 * i + 1] >= 1 { lanes[3 * i + 1] } else { 1u32 };
    !(right_positive && lanes[3 * i + 2] == 0) || through < u32::MAX
}

/// The layout of approach `i`, given its lane counts [exclusive left,
/// through, exclusive right] at positions 3i..3i+2 and the signs of its
/// left volume, right volume and left phase duration. "Positive" and
/// "nonpositive" are tested apart, since a volume that is neither (not a
/// number) counts as present but not as demand.
///
/// The through lane count is at least 1. A turn with demand and no
/// exclusive lane shares the adjacent through lane. A left turn with
/// neither demand nor an exclusive lane is absent; one with an exclusive
/// lane and a positive left phase is protected, lead-lead; any other is
/// permitted. The receiving lanes are the through lanes plus a shared right
/// lane, at least 1.
pub open spec fn approach_plan_spec(
    lanes: Seq<u32>,
    i: int,
    left_positive: bool,
    left_nonpositive: bool,
    right_positive: bool,
    left_phase_positive: bool,
) -> ApproachPlan {
    let excl_left = lanes[3 * i];
    let through = if lanes[3 * i + 1] >= 1 { lanes[3 * i + 1] } else { 1u32 };
    let excl_right = lanes[3 * i + 2];
    let shared_left = left_positive && excl_left == 0;
    let shared_right = right_positive && excl_right == 0;
    let receiving = if shared_right { (through + 1) as u32 } else { through };
    let (mode, sequence, left_phase_no) = if left_nonpositive && excl_left == 0 {
        (LeftTurnMode::NotPresent, LeftTurnSequence::PermPerm, None)
    } else if left_phase_positive && excl_left > 0 {
        (LeftTurnMode::Protected, LeftTurnSequence::LeadLead, Some(left_phase_spec(i)))
    } else {
        (LeftTurnMode::Permitted, LeftTurnSequence::PermPerm, None)
    };
    ApproachPlan {
        exclusive_left: excl_left,
        through,
        exclusive_right: excl_right,
        shared_left,
        shared_right,
        receiving,
        mode,
        sequence,
        left_phase_no,
        through_phase_no: through_phase_spec(i),
    }
}

/// The layout of approach `i` of a four-approach intersection; see
/// `approach_plan_spec`.
pub fn approach_plan(
    lanes: &Vec<u32>,
    i: usize,
    left_positive: bool,
    left_nonpositive: bool,
    right_positive: bool,
    left_phase_positive: bool,
) -> (r: ApproachPlan)
    requires
        lanes@.len() == APPROACHES * MOVEMENTS_PER_APPROACH,
        i < APPROACHES,
        receiving_fits(lanes@, i as int, right_positive),
    ensures
        r == approach_plan_spec(
            lanes@,
            i as int,
            left_positive,
            left_nonpositive,
            right_positive,
            left_phase_positive,
        ),
        r.through >= 1,
        r.receiving >= 1,
        r.mode == LeftTurnMode::Protected <==> lanes@[3 * i as int] > 0 && left_phase_positive,
        r.shared_left <==> left_positive && lanes@[3 * i as int] == 0,
        r.shared_right <==> right_positive && lanes@[3 * i + 2] == 0,
        r.left_phase_no is Some <==> r.mode == LeftTurnMode::Protected,
        r.exclusive_left == lanes@[3 * i as int],
        r.exclusive_right == lanes@[3 * i + 2],
        r.through == (if lanes@[3 * i + 1] >= 1 { lanes@[3 * i + 1] } else { 1u32 }),
        r.receiving == r.through + (if r.shared_right { 1int } else { 0int }),
        r.mode == LeftTurnMode::NotPresent <==> left_nonpositive && lanes@[3 * i as int] == 0,
        r.sequence == LeftTurnSequence::LeadLead <==> r.mode == LeftTurnMode::Protected,
        r.mode == LeftTurnMode::Protected ==> r.left_phase_no == Some(left_phase_spec(i as int)),
        r.through_phase_no == through_phase_spec(i as int),
{
    let excl_left = lanes[3 * i];
    let through = if lanes[3 * i + 1] >= 1 {
        lanes[3 * i + 1]
    } else {
        1u32
    };
    let excl_right = lanes[3 * i + 2];
    let shared_left = left_positive && excl_left == 0;
    let shared_right = right_positive && excl_right == 0;
    let receiving = if shared_right {
        through + 1
    } else {
        through
    };
    let through_no: u8 = if i == 0 {
        8
    } else if i == 1 {
        4
    } else if i == 2 {
        2
    } else {
        6
    };
    let left_no: u8 = if i == 0 {
        3
    } else if i == 1 {
        7
    } else if i == 2 {
        5
    } else {
        1
    };
    let (mode, sequence, left_phase_no) = if left_nonpositive && excl_left == 0 {
        (LeftTurnMode::NotPresent, LeftTurnSequence::PermPerm, None)
    } else if left_phase_positive && excl_left > 0 {
        (LeftTurnMode::Protected, LeftTurnSequence::LeadLead, Some(left_no))
    } else {
        (LeftTurnMode::Permitted, LeftTurnSequence::PermPerm, None)
    };
    ApproachPlan {
        exclusive_left: excl_left,
        through,
        exclusive_right: excl_right,
        shared_left,
        shared_right,
        receiving,
        mode,
        sequence,
        left_phase_no,
        through_phase_no: through_no,
    }
}

/// The position of the first name in `names` equal to `query` uppercased
/// (Unicode), or `None` where no name is.
pub fn first_direction_match(names: &Vec<String>, query: &str) -> (r: Option<usize>)
    ensures
        match r {
            Some(i) => i < names@.len() && names@[i as int]@ == uppered(query@) && forall|
                j: int,
            | 0 <= j < i ==> names@[j]@ != uppered(query@),
            None => forall|j: int|
                0 <= j < names@.len() ==> names@[j]@ != uppered(query@),
        },
{
    let key = uppercase(query);
    let mut i: usize = 0;
    while i < names.len()
        invariant
            key@ == uppered(query@),
            i <= names@.len(),
            forall|j: int| 0 <= j < i ==> names@[j]@ != key@,
        decreases names@.len() - i,
    {
        if str_eq(names[i].as_str(), key.as_str()) {
            return Some(i);
        }
        i = i + 1;
    }
    None
}

/// The plan of an approach keeps that approach's own lane counts: its
/// exclusive left and right lanes are the first and third entries of its
/// triple, its through lanes the second (at least one), and its receiving
/// lanes the through lanes plus one exactly when the right turn shares the
/// through lane. A left turn is protected exactly when the approach has an
/// exclusive left lane and a positive left phase, and is then the only
/// kind that carries a left phase, run lead-lead.
pub proof fn lemma_plan_takes_its_own_lanes(
    lanes: Seq<u32>,
    i: int,
    left_positive: bool,
    left_nonpositive: bool,
    right_positive: bool,
    left_phase_positive: bool,
)
    requires
        lanes.len() == APPROACHES * MOVEMENTS_PER_APPROACH,
        0 <= i < APPROACHES,
        receiving_fits(lanes, i, right_positive),
    ensures
        ({
            let p = approach_plan_spec(
                lanes,
                i,
                left_positive,
                left_nonpositive,
                right_positive,
                left_phase_positive,
            );
            &&& p.exclusive_left == lanes[3 * i]
            &&& p.exclusive_right == lanes[3 * i + 2]
            &&& p.through == (if lanes[3 * i + 1] >= 1 { lanes[3 * i + 1] } else { 1u32 })
            &&& p.through >= 1
            &&& p.shared_left <==> left_positive && lanes[3 * i] == 0
            &&& p.shared_right <==> right_positive && lanes[3 * i + 2] == 0
            &&& p.receiving == p.through + (if p.shared_right { 1int } else { 0int })
            &&& p.mode == LeftTurnMode::Protected <==> lanes[3 * i] > 0 && left_phase_positive
            &&& p.mode == LeftTurnMode::NotPresent <==> left_nonpositive && lanes[3 * i] == 0
                && !(left_phase_positive && lanes[3 * i] > 0)
            &&& p.left_phase_no is Some <==> p.mode == LeftTurnMode::Protected
            &&& p.sequence == LeftTurnSequence::LeadLead <==> p.mode == LeftTurnMode::Protected
        }),
{
}

/// The phase numbers follow the eight-phase dual ring: every through phase
/// is even and every left phase odd, all eight are different numbers from
/// 1 to 8, and an approach's left turn runs in the phase just before the
/// opposing approach's through movement (NB and SB oppose, as do EB and
/// WB).
pub proof fn lemma_phase_numbers_pair_with_the_opposing_through()
    ensures
        forall|i: int|
            0 <= i < APPROACHES ==> 1 <= #[trigger] through_phase_spec(i) <= 8
                && through_phase_spec(i) % 2 == 0 && 1 <= left_phase_spec(i) <= 8
                && left_phase_spec(i) % 2 == 1,
        forall|i: int, j: int|
            0 <= i < APPROACHES && 0 <= j < APPROACHES && i != j ==> #[trigger] through_phase_spec(i)
                != #[trigger] through_phase_spec(j) && left_phase_spec(i) != left_phase_spec(j),
        forall|i: int|
            0 <= i < APPROACHES ==> #[trigger] left_phase_spec(i) + 1 == through_phase_spec(
                if i % 2 == 0 { i + 1 } else { i - 1 },
            ),
{
}

} // verus!
