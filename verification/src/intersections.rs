//! Option strings and flat-array layouts of the intersection chapters:
//! all-way STOP (21), roundabouts (22), two-way STOP (20) and the
//! alternative-intersection approaches (23).
use vstd::prelude::*;
use crate::text::{
    ascii_lower, ascii_lower_seq, ascii_upper, ascii_upper_char, ascii_upper_seq, chars_eq,
    lowercase, str_eq,
    lowered, text_code,
};
use transportations_library::hcm::twsc::Mv;

verus! {

/// Compass approach of an intersection leg.
#[derive(Clone, Copy, Debug, PartialEq, Eq, Structural)]
pub enum Bound {
    EB,
    WB,
    NB,
    SB,
}

/// Roundabout bypass lane type.
#[derive(Clone, Copy, Debug, PartialEq, Eq, Structural)]
pub enum Bypass {
    NoBypass,
    Yielding,
    NonYielding,
}

/// Designated lane assignment of a two-lane roundabout entry.
#[derive(Clone, Copy, Debug, PartialEq, Eq, Structural)]
pub enum LaneAssignment {
    LeftAndThroughRight,
    LeftThroughAndRight,
    LeftThroughAndThroughRight,
    LeftAndAllMovements,
    AllMovementsAndRight,
}

/// Two-way STOP major-street right-turn configuration.
#[derive(Clone, Copy, Debug, PartialEq, Eq, Structural)]
pub enum MajorRightTurn {
    Shared,
    Exclusive,
    Channelized,
}

/// Two-way STOP minor-street lane configuration.
#[derive(Clone, Copy, Debug, PartialEq, Eq, Structural)]
pub enum MinorLanes {
    SingleShared,
    SharedLeftThroughExclusiveRight,
    ExclusiveLeftSharedThroughRight,
    Separate,
}

/// Two-way STOP median width for U-turns.
#[derive(Clone, Copy, Debug, PartialEq, Eq, Structural)]
pub enum MedianWidth {
    Wide,
    Narrow,
}

/// The conflicting-flow figure of a two-way STOP movement an override
/// replaces: the one-stage total or one of the two stages.
#[derive(Clone, Copy, Debug, PartialEq, Eq, Structural)]
pub enum ConflictStage {
    Total,
    Stage1,
    Stage2,
}

/// Why a conflicting-flow override cannot be placed.
#[derive(Clone, Copy, Debug, PartialEq, Eq, Structural)]
pub enum OverrideError {
    /// The movement label is not one of "1", "1U", ..., "12".
    UnknownMovement,
    /// The stage is not "total", "stage1" or "stage2".
    UnknownStage,
}

/// Why a flat lane-volume array cannot be read as lanes.
#[derive(Clone, Copy, Debug, PartialEq, Eq, Structural)]
pub enum LaneLayoutError {
    /// The array length `got` is not a multiple of three.
    NotTriples { got: usize },
    /// The array describes `lanes` lanes, more than the three allowed.
    TooManyLanes { lanes: usize },
}

/// Number of entries in a roundabout entry array.
pub const ENTRY_FIELDS: usize = 9;

/// Number of vehicular movements at a two-way STOP intersection.
pub const MOVEMENT_COUNT: usize = 14;

/// The approach an uppercased name selects, if any.
pub open spec fn bound_named_upper(s: Seq<char>) -> Option<Bound> {
    if s == "EB"@ {
        Some(Bound::EB)
    } else if s == "WB"@ {
        Some(Bound::WB)
    } else if s == "NB"@ {
        Some(Bound::NB)
    } else if s == "SB"@ {
        Some(Bound::SB)
    } else {
        None
    }
}

/// The approach a lowercased name selects, if any.
pub open spec fn bound_named_lower(s: Seq<char>) -> Option<Bound> {
    if s == "eb"@ {
        Some(Bound::EB)
    } else if s == "wb"@ {
        Some(Bound::WB)
    } else if s == "nb"@ {
        Some(Bound::NB)
    } else if s == "sb"@ {
        Some(Bound::SB)
    } else {
        None
    }
}

/// The minor-street approach (NB or SB) an uppercased name selects, if any.
pub open spec fn minor_bound_named_upper(s: Seq<char>) -> Option<Bound> {
    if s == "NB"@ {
        Some(Bound::NB)
    } else if s == "SB"@ {
        Some(Bound::SB)
    } else {
        None
    }
}

/// The key an approach is reported under, lowercase ("eb", ...).
pub open spec fn bound_key_spec(b: Bound) -> Seq<char> {
    match b {
        Bound::EB => "eb"@,
        Bound::WB => "wb"@,
        Bound::NB => "nb"@,
        Bound::SB => "sb"@,
    }
}

/// The bypass type a lowercased name selects, if any.
pub open spec fn bypass_named(s: Seq<char>) -> Option<Bypass> {
    if s == "none"@ {
        Some(Bypass::NoBypass)
    } else if s == "yielding"@ {
        Some(Bypass::Yielding)
    } else if s == "nonyielding"@ || s == "non_yielding"@ {
        Some(Bypass::NonYielding)
    } else {
        None
    }
}

/// The lane assignment a lowercased code selects, if any.
pub open spec fn lane_assignment_named(s: Seq<char>) -> Option<LaneAssignment> {
    if s == "l_tr"@ {
        Some(LaneAssignment::LeftAndThroughRight)
    } else if s == "lt_r"@ {
        Some(LaneAssignment::LeftThroughAndRight)
    } else if s == "lt_tr"@ {
        Some(LaneAssignment::LeftThroughAndThroughRight)
    } else if s == "l_ltr"@ {
        Some(LaneAssignment::LeftAndAllMovements)
    } else if s == "ltr_r"@ {
        Some(LaneAssignment::AllMovementsAndRight)
    } else {
        None
    }
}

/// The right-turn configuration a lowercased name selects, if any.
pub open spec fn major_right_turn_named(s: Seq<char>) -> Option<MajorRightTurn> {
    if s == "shared"@ {
        Some(MajorRightTurn::Shared)
    } else if s == "exclusive"@ {
        Some(MajorRightTurn::Exclusive)
    } else if s == "channelized"@ {
        Some(MajorRightTurn::Channelized)
    } else {
        None
    }
}

/// The minor-street lane configuration a lowercased name selects, if any.
pub open spec fn minor_lanes_named(s: Seq<char>) -> Option<MinorLanes> {
    if s == "single_shared"@ || s == "singleshared"@ {
        Some(MinorLanes::SingleShared)
    } else if s == "shared_lt_exclusive_r"@ || s == "sharedleftthroughexclusiveright"@ {
        Some(MinorLanes::SharedLeftThroughExclusiveRight)
    } else if s == "exclusive_l_shared_tr"@ || s == "exclusiveleftsharedthroughright"@ {
        Some(MinorLanes::ExclusiveLeftSharedThroughRight)
    } else if s == "separate"@ {
        Some(MinorLanes::Separate)
    } else {
        None
    }
}

/// The median width a lowercased name selects, if any.
pub open spec fn median_width_named(s: Seq<char>) -> Option<MedianWidth> {
    if s == "wide"@ {
        Some(MedianWidth::Wide)
    } else if s == "narrow"@ {
        Some(MedianWidth::Narrow)
    } else {
        None
    }
}

/// The stage an override names, if any: exactly "total", "stage1" or
/// "stage2".
pub open spec fn conflict_stage_named(s: Seq<char>) -> Option<ConflictStage> {
    if s == "total"@ {
        Some(ConflictStage::Total)
    } else if s == "stage1"@ {
        Some(ConflictStage::Stage1)
    } else if s == "stage2"@ {
        Some(ConflictStage::Stage2)
    } else {
        None
    }
}

/// The name the analysis engine reads a stage under.
pub open spec fn conflict_stage_label_spec(c: ConflictStage) -> Seq<char> {
    match c {
        ConflictStage::Total => "total"@,
        ConflictStage::Stage1 => "stage1"@,
        ConflictStage::Stage2 => "stage2"@,
    }
}

/// The HCM Exhibit 20-1 movement labels in computation order.
pub open spec fn movement_label_spec(i: int) -> Seq<char> {
    if i == 0 {
        "1"@
    } else if i == 1 {
        "1U"@
    } else if i == 2 {
        "2"@
    } else if i == 3 {
        "3"@
    } else if i == 4 {
        "4"@
    } else if i == 5 {
        "4U"@
    } else if i == 6 {
        "5"@
    } else if i == 7 {
        "6"@
    } else if i == 8 {
        "7"@
    } else if i == 9 {
        "8"@
    } else if i == 10 {
        "9"@
    } else if i == 11 {
        "10"@
    } else if i == 12 {
        "11"@
    } else {
        "12"@
    }
}

/// The movement index (position in computation order) that
/// `Mv::from_label` followed by `Mv::idx` gives a label, or `None` for a
/// label it does not know. The U-turns also accept a lowercase "u".
pub open spec fn movement_index_of(s: Seq<char>) -> Option<nat> {
    if s == "1"@ {
        Some(0)
    } else if s == "1U"@ || s == "1u"@ {
        Some(1)
    } else if s == "2"@ {
        Some(2)
    } else if s == "3"@ {
        Some(3)
    } else if s == "4"@ {
        Some(4)
    } else if s == "4U"@ || s == "4u"@ {
        Some(5)
    } else if s == "5"@ {
        Some(6)
    } else if s == "6"@ {
        Some(7)
    } else if s == "7"@ {
        Some(8)
    } else if s == "8"@ {
        Some(9)
    } else if s == "9"@ {
        Some(10)
    } else if s == "10"@ {
        Some(11)
    } else if s == "11"@ {
        Some(12)
    } else if s == "12"@ {
        Some(13)
    } else {
        None
    }
}

/// Calls `Mv::from_label` and then `Mv::idx` on the movement found. Both
/// are plain tables in the library source, restated in
/// `movement_index_of`.
#[verifier::external_body]
fn mv_index(label: &str) -> (r: Option<usize>)
    ensures
        match r {
            Some(i) => movement_index_of(label@) == Some(i as nat),
            None => movement_index_of(label@) is None,
        },
{
    match Mv::from_label(label) {
        Some(mv) => Some(mv.idx()),
        None => None,
    }
}

/// Approach from a name in any ASCII letter case ("eb", "Nb", ...), the
/// reading of the all-way STOP and roundabout bindings. A refused name
/// comes back uppercased, as the error message quotes it.
pub fn parse_dir(s: &str) -> (r: Result<Bound, Vec<char>>)
    ensures
        match r {
            Ok(b) => bound_named_upper(ascii_upper_seq(s@)) == Some(b),
            Err(e) => bound_named_upper(ascii_upper_seq(s@)) is None && e@ == ascii_upper_seq(
                s@,
            ),
        },
{
    let up = ascii_upper(s);
    if chars_eq(&up, "EB") {
        Ok(Bound::EB)
    } else if chars_eq(&up, "WB") {
        Ok(Bound::WB)
    } else if chars_eq(&up, "NB") {
        Ok(Bound::NB)
    } else if chars_eq(&up, "SB") {
        Ok(Bound::SB)
    } else {
        Err(up)
    }
}

/// Approach from a name in any ASCII letter case, the reading of the
/// alternative-intersection binding, which lowercases. A refused name comes
/// back lowercased.
pub fn parse_approach(s: &str) -> (r: Result<Bound, Vec<char>>)
    ensures
        match r {
            Ok(b) => bound_named_lower(ascii_lower_seq(s@)) == Some(b),
            Err(e) => bound_named_lower(ascii_lower_seq(s@)) is None && e@ == ascii_lower_seq(
                s@,
            ),
        },
{
    let low = ascii_lower(s);
    if chars_eq(&low, "eb") {
        Ok(Bound::EB)
    } else if chars_eq(&low, "wb") {
        Ok(Bound::WB)
    } else if chars_eq(&low, "nb") {
        Ok(Bound::NB)
    } else if chars_eq(&low, "sb") {
        Ok(Bound::SB)
    } else {
        Err(low)
    }
}

/// Minor-street approach of a two-way STOP intersection, NB or SB, from a
/// name in any ASCII letter case. A refused name comes back uppercased.
pub fn parse_minor_approach(s: &str) -> (r: Result<Bound, Vec<char>>)
    ensures
        match r {
            Ok(b) => minor_bound_named_upper(ascii_upper_seq(s@)) == Some(b),
            Err(e) => minor_bound_named_upper(ascii_upper_seq(s@)) is None && e@
                == ascii_upper_seq(s@),
        },
{
    let up = ascii_upper(s);
    if chars_eq(&up, "NB") {
        Ok(Bound::NB)
    } else if chars_eq(&up, "SB") {
        Ok(Bound::SB)
    } else {
        Err(up)
    }
}

/// The key an approach is reported under.
pub fn bound_key(b: Bound) -> (r: &'static str)
    ensures
        r@ == bound_key_spec(b),
{
    match b {
        Bound::EB => "eb",
        Bound::WB => "wb",
        Bound::NB => "nb",
        Bound::SB => "sb",
    }
}

/// Bypass type from a name in any letter case. A refused name comes back
/// lowercased.
pub fn parse_bypass(s: &str) -> (r: Result<Bypass, String>)
    ensures
        match r {
            Ok(b) => bypass_named(lowered(s@)) == Some(b),
            Err(e) => bypass_named(lowered(s@)) is None && e@ == lowered(s@),
        },
{
    let low = lowercase(s);
    if str_eq(low.as_str(), "none") {
        Ok(Bypass::NoBypass)
    } else if str_eq(low.as_str(), "yielding") {
        Ok(Bypass::Yielding)
    } else if str_eq(low.as_str(), "nonyielding") || str_eq(low.as_str(), "non_yielding") {
        Ok(Bypass::NonYielding)
    } else {
        Err(low)
    }
}

/// Lane assignment from a code in any letter case ("l_tr", "LT_TR", ...).
/// A refused code comes back lowercased.
pub fn parse_lane_assignment(s: &str) -> (r: Result<LaneAssignment, String>)
    ensures
        match r {
            Ok(a) => lane_assignment_named(lowered(s@)) == Some(a),
            Err(e) => lane_assignment_named(lowered(s@)) is None && e@
                == lowered(s@),
        },
{
    let low = lowercase(s);
    if str_eq(low.as_str(), "l_tr") {
        Ok(LaneAssignment::LeftAndThroughRight)
    } else if str_eq(low.as_str(), "lt_r") {
        Ok(LaneAssignment::LeftThroughAndRight)
    } else if str_eq(low.as_str(), "lt_tr") {
        Ok(LaneAssignment::LeftThroughAndThroughRight)
    } else if str_eq(low.as_str(), "l_ltr") {
        Ok(LaneAssignment::LeftAndAllMovements)
    } else if str_eq(low.as_str(), "ltr_r") {
        Ok(LaneAssignment::AllMovementsAndRight)
    } else {
        Err(low)
    }
}

/// Major-street right-turn configuration from a name in any letter case.
/// A refused name comes back lowercased.
pub fn parse_major_right_turn(s: &str) -> (r: Result<MajorRightTurn, String>)
    ensures
        match r {
            Ok(c) => major_right_turn_named(lowered(s@)) == Some(c),
            Err(e) => major_right_turn_named(lowered(s@)) is None && e@
                == lowered(s@),
        },
{
    let low = lowercase(s);
    if str_eq(low.as_str(), "shared") {
        Ok(MajorRightTurn::Shared)
    } else if str_eq(low.as_str(), "exclusive") {
        Ok(MajorRightTurn::Exclusive)
    } else if str_eq(low.as_str(), "channelized") {
        Ok(MajorRightTurn::Channelized)
    } else {
        Err(low)
    }
}

/// Minor-street lane configuration from a name in any letter case. A
/// refused name comes back lowercased.
pub fn parse_minor_lanes(s: &str) -> (r: Result<MinorLanes, String>)
    ensures
        match r {
            Ok(c) => minor_lanes_named(lowered(s@)) == Some(c),
            Err(e) => minor_lanes_named(lowered(s@)) is None && e@ == lowered(
                s@,
            ),
        },
{
    let low = lowercase(s);
    let t = low.as_str();
    if str_eq(t, "single_shared") || str_eq(t, "singleshared") {
        Ok(MinorLanes::SingleShared)
    } else if str_eq(t, "shared_lt_exclusive_r") || str_eq(t, "sharedleftthroughexclusiveright") {
        Ok(MinorLanes::SharedLeftThroughExclusiveRight)
    } else if str_eq(t, "exclusive_l_shared_tr") || str_eq(t, "exclusiveleftsharedthroughright") {
        Ok(MinorLanes::ExclusiveLeftSharedThroughRight)
    } else if str_eq(t, "separate") {
        Ok(MinorLanes::Separate)
    } else {
        Err(low)
    }
}

/// U-turn median width from a name in any letter case. A refused name
/// comes back lowercased.
pub fn parse_median_width(s: &str) -> (r: Result<MedianWidth, String>)
    ensures
        match r {
            Ok(w) => median_width_named(lowered(s@)) == Some(w),
            Err(e) => median_width_named(lowered(s@)) is None && e@
                == lowered(s@),
        },
{
    let low = lowercase(s);
    if str_eq(low.as_str(), "wide") {
        Ok(MedianWidth::Wide)
    } else if str_eq(low.as_str(), "narrow") {
        Ok(MedianWidth::Narrow)
    } else {
        Err(low)
    }
}

/// Check a conflicting-flow override before it is placed: the movement
/// label is read first, then the stage, and the first one not recognised
/// is reported. A placed override names its movement's index and stage.
pub fn check_conflicting_flow_override(movement: &str, stage: &str) -> (r: Result<
    (usize, ConflictStage),
    OverrideError,
>)
    ensures
        movement_index_of(movement@) is None ==> (r matches Err(e) && e
            == OverrideError::UnknownMovement),
        movement_index_of(movement@) is Some && conflict_stage_named(stage@) is None ==> (r matches Err(
            e,
        ) && e == OverrideError::UnknownStage),
        r matches Ok(p) ==> movement_index_of(movement@) == Some(p.0 as nat) && conflict_stage_named(
            stage@,
        ) == Some(p.1),
        r is Ok <==> (movement_index_of(movement@) is Some && conflict_stage_named(stage@) is Some),
{
    let i = match parse_movement(movement) {
        Some(i) => i,
        None => {
            return Err(OverrideError::UnknownMovement);
        },
    };
    if str_eq(stage, "total") {
        Ok((i, ConflictStage::Total))
    } else if str_eq(stage, "stage1") {
        Ok((i, ConflictStage::Stage1))
    } else if str_eq(stage, "stage2") {
        Ok((i, ConflictStage::Stage2))
    } else {
        Err(OverrideError::UnknownStage)
    }
}

/// The name the analysis engine reads a stage under.
pub fn conflict_stage_label(c: ConflictStage) -> (r: &'static str)
    ensures
        r@ == conflict_stage_label_spec(c),
{
    match c {
        ConflictStage::Total => "total",
        ConflictStage::Stage1 => "stage1",
        ConflictStage::Stage2 => "stage2",
    }
}

/// Movement index of a two-way STOP movement label ("1", "1U", ..., "12").
pub fn parse_movement(label: &str) -> (r: Option<usize>)
    ensures
        match r {
            Some(i) => movement_index_of(label@) == Some(i as nat),
            None => movement_index_of(label@) is None,
        },
{
    mv_index(label)
}

/// Label of the movement at index `i` of the computation order.
pub fn movement_label(i: usize) -> (r: &'static str)
    requires
        i < MOVEMENT_COUNT,
    ensures
        r@ == movement_label_spec(i as int),
{
    if i == 0 {
        "1"
    } else if i == 1 {
        "1U"
    } else if i == 2 {
        "2"
    } else if i == 3 {
        "3"
    } else if i == 4 {
        "4"
    } else if i == 5 {
        "4U"
    } else if i == 6 {
        "5"
    } else if i == 7 {
        "6"
    } else if i == 8 {
        "7"
    } else if i == 9 {
        "8"
    } else if i == 10 {
        "9"
    } else if i == 11 {
        "10"
    } else if i == 12 {
        "11"
    } else {
        "12"
    }
}

/// The lanes a flat [left, through, right, left, through, right, ...]
/// volume array describes, one triple per lane from left to right. The
/// length must be a multiple of three (checked first) and describe at most
/// three lanes; an empty array is a leg with no approach.
pub fn lane_triples<T: Copy>(volumes: &Vec<T>) -> (r: Result<Vec<(T, T, T)>, LaneLayoutError>)
    ensures
        volumes@.len() % 3 != 0 ==> (r matches Err(LaneLayoutError::NotTriples { got })
            && got == volumes@.len()),
        volumes@.len() % 3 == 0 && volumes@.len() > 9 ==> (r matches Err(
            LaneLayoutError::TooManyLanes { lanes },
        ) && lanes == volumes@.len() / 3),
        volumes@.len() % 3 == 0 && volumes@.len() <= 9 ==> (r matches Ok(lanes) && lanes@.len()
            * 3 == volumes@.len() && forall|i: int|
            0 <= i < lanes@.len() ==> #[trigger] lanes@[i] == (
                volumes@[3 * i],
                volumes@[3 * i + 1],
                volumes@[3 * i + 2],
            )),
{
    let n = volumes.len();
    if n % 3 != 0 {
        return Err(LaneLayoutError::NotTriples { got: n });
    }
    if n > 9 {
        return Err(LaneLayoutError::TooManyLanes { lanes: n / 3 });
    }
    let mut lanes: Vec<(T, T, T)> = Vec::new();
    let mut k: usize = 0;
    while k < n / 3
        invariant
            n == volumes@.len(),
            n % 3 == 0,
            n <= 9,
            k <= n / 3,
            lanes@.len() == k,
            forall|i: int|
                0 <= i < k ==> #[trigger] lanes@[i] == (
                    volumes@[3 * i],
                    volumes@[3 * i + 1],
                    volumes@[3 * i + 2],
                ),
        decreases n / 3 - k,
    {
        lanes.push((volumes[3 * k], volumes[3 * k + 1], volumes[3 * k + 2]));
        k = k + 1;
    }
    Ok(lanes)
}

/// The nine fields of a roundabout entry array [v_u, v_l, v_t, v_r,
/// heavy_vehicle_pct, entry_lanes, circulating_lanes, exiting_lanes,
/// n_ped], each present where the array reaches it; a shorter array leaves
/// its tail to the defaults. An array longer than nine is refused with its
/// length.
pub fn entry_slots<T: Copy>(vals: &Vec<T>) -> (r: Result<Vec<Option<T>>, usize>)
    ensures
        vals@.len() > ENTRY_FIELDS ==> (r matches Err(n) && n == vals@.len()),
        vals@.len() <= ENTRY_FIELDS ==> (r matches Ok(slots) && slots@.len() == ENTRY_FIELDS
            && forall|k: int|
            0 <= k < ENTRY_FIELDS ==> #[trigger] slots@[k] == (if k < vals@.len() {
                Some(vals@[k])
            } else {
                None
            })),
{
    if vals.len() > ENTRY_FIELDS {
        return Err(vals.len());
    }
    let mut slots: Vec<Option<T>> = Vec::new();
    let mut k: usize = 0;
    while k < ENTRY_FIELDS
        invariant
            vals@.len() <= ENTRY_FIELDS,
            k <= ENTRY_FIELDS,
            slots@.len() == k,
            forall|j: int|
                0 <= j < k ==> #[trigger] slots@[j] == (if j < vals@.len() {
                    Some(vals@[j])
                } else {
                    None
                }),
        decreases ENTRY_FIELDS - k,
    {
        if k < vals.len() {
            slots.push(Some(vals[k]));
        } else {
            slots.push(None);
        }
        k = k + 1;
    }
    Ok(slots)
}

/// The volumes of a list of lanes laid out flat again, triple by triple.
pub open spec fn flatten_triples<T>(lanes: Seq<(T, T, T)>) -> Seq<T>
    decreases lanes.len(),
{
    if lanes.len() == 0 {
        Seq::<T>::empty()
    } else {
        flatten_triples(lanes.drop_last()) + seq![
            lanes.last().0,
            lanes.last().1,
            lanes.last().2,
        ]
    }
}

/// Reading a flat lane-volume array as lanes loses nothing: laying the
/// lanes out flat again gives back the array.
pub proof fn lemma_lane_triples_round_trip<T>(volumes: Seq<T>, lanes: Seq<(T, T, T)>)
    requires
        lanes.len() * 3 == volumes.len(),
        forall|i: int|
            0 <= i < lanes.len() ==> #[trigger] lanes[i] == (
                volumes[3 * i],
                volumes[3 * i + 1],
                volumes[3 * i + 2],
            ),
    ensures
        flatten_triples(lanes) == volumes,
    decreases lanes.len(),
{
    if lanes.len() == 0 {
        assert(volumes =~= Seq::<T>::empty());
    } else {
        let k = lanes.len() - 1;
        let front = volumes.take(3 * k);
        assert forall|i: int| 0 <= i < lanes.drop_last().len() implies #[trigger] lanes.drop_last()[i] == (
            front[3 * i],
            front[3 * i + 1],
            front[3 * i + 2],
        ) by {
            assert(lanes.drop_last()[i] == lanes[i]);
        }
        lemma_lane_triples_round_trip(front, lanes.drop_last());
        assert(lanes[k] == (volumes[3 * k], volumes[3 * k + 1], volumes[3 * k + 2]));
        assert(volumes =~= front + seq![volumes[3 * k], volumes[3 * k + 1], volumes[3 * k + 2]]);
    }
}

/// Every approach key a result object is written under is read back as
/// that approach, by both the uppercasing and the lowercasing parsers.
pub proof fn lemma_bound_key_round_trip(b: Bound)
    ensures
        bound_named_upper(ascii_upper_seq(bound_key_spec(b))) == Some(b),
        bound_named_lower(ascii_lower_seq(bound_key_spec(b))) == Some(b),
{
    reveal_strlit("eb");
    reveal_strlit("wb");
    reveal_strlit("nb");
    reveal_strlit("sb");
    reveal_strlit("EB");
    reveal_strlit("WB");
    reveal_strlit("NB");
    reveal_strlit("SB");
    let k = bound_key_spec(b);
    assert(k.len() == 2);
    assert(ascii_lower_seq(k) =~= k);
    let up = ascii_upper_seq(k);
    assert(up[0] == ascii_upper_char(k[0]));
    assert(up[1] == ascii_upper_char(k[1]));
    match b {
        Bound::EB => {
            assert(up =~= "EB"@);
        },
        Bound::WB => {
            assert(up =~= "WB"@);
            assert("WB"@ != "EB"@);
        },
        Bound::NB => {
            assert(up =~= "NB"@);
            assert("NB"@ != "EB"@);
            assert("NB"@ != "WB"@);
            assert("nb"@ != "eb"@);
            assert("nb"@ != "wb"@);
        },
        Bound::SB => {
            assert(up =~= "SB"@);
            assert("SB"@ != "EB"@);
            assert("SB"@ != "WB"@);
            assert("SB"@ != "NB"@);
            assert("sb"@ != "eb"@);
            assert("sb"@ != "wb"@);
            assert("sb"@ != "nb"@);
        },
    }
}

/// A number that tells apart texts of one or two characters: the length,
/// then the first and second character codes.
spec fn short_code(s: Seq<char>) -> int {
    s.len() * 100_000_000_000_000 + (if s.len() > 0 {
        s[0] as int
    } else {
        0
    }) * 10_000_000 + (if s.len() > 1 {
        s[1] as int
    } else {
        0
    })
}

/// Every movement label the results carry is read back as its own
/// movement.
pub proof fn lemma_movement_label_round_trip(i: int)
    requires
        0 <= i < MOVEMENT_COUNT,
    ensures
        movement_index_of(movement_label_spec(i)) == Some(i as nat),
{
    reveal_strlit("1");
    reveal_strlit("1U");
    reveal_strlit("1u");
    reveal_strlit("2");
    reveal_strlit("3");
    reveal_strlit("4");
    reveal_strlit("4U");
    reveal_strlit("4u");
    reveal_strlit("5");
    reveal_strlit("6");
    reveal_strlit("7");
    reveal_strlit("8");
    reveal_strlit("9");
    reveal_strlit("10");
    reveal_strlit("11");
    reveal_strlit("12");
    // Distinct codes keep the literals apart: equal texts would have equal
    // codes.
    assert(short_code("1"@) == 1_0000049_0000000);
    assert(short_code("1U"@) == 2_0000049_0000085);
    assert(short_code("1u"@) == 2_0000049_0000117);
    assert(short_code("2"@) == 1_0000050_0000000);
    assert(short_code("3"@) == 1_0000051_0000000);
    assert(short_code("4"@) == 1_0000052_0000000);
    assert(short_code("4U"@) == 2_0000052_0000085);
    assert(short_code("4u"@) == 2_0000052_0000117);
    assert(short_code("5"@) == 1_0000053_0000000);
    assert(short_code("6"@) == 1_0000054_0000000);
    assert(short_code("7"@) == 1_0000055_0000000);
    assert(short_code("8"@) == 1_0000056_0000000);
    assert(short_code("9"@) == 1_0000057_0000000);
    assert(short_code("10"@) == 2_0000049_0000048);
    assert(short_code("11"@) == 2_0000049_0000049);
    assert(short_code("12"@) == 2_0000049_0000050);
}

/// The name an override stage is placed under reads back as that stage.
pub proof fn lemma_conflict_stage_round_trip(c: ConflictStage)
    ensures
        conflict_stage_named(conflict_stage_label_spec(c)) == Some(c),
{
    reveal_strlit("total");
    reveal_strlit("stage1");
    reveal_strlit("stage2");
    assert("stage1"@[5] != "stage2"@[5]);
    assert("stage1"@.len() != "total"@.len());
    assert("stage1"@ != "total"@);
    assert("stage2"@.len() != "total"@.len());
    assert("stage2"@ != "total"@);
    assert("stage2"@ != "stage1"@);
}

/// Each of "EB", "WB", "NB", "SB" reads as that approach, and no other text
/// names one.
pub proof fn lemma_bound_upper_reads(s: Seq<char>)
    ensures
        bound_named_upper(s) == Some(Bound::EB) <==> (s == "EB"@),
        bound_named_upper(s) == Some(Bound::WB) <==> (s == "WB"@),
        bound_named_upper(s) == Some(Bound::NB) <==> (s == "NB"@),
        bound_named_upper(s) == Some(Bound::SB) <==> (s == "SB"@),
        bound_named_upper(s) is None <==> !(s == "EB"@ || s == "WB"@ || s == "NB"@ || s == "SB"@),
{
    reveal_strlit("EB");
    reveal_strlit("WB");
    reveal_strlit("NB");
    reveal_strlit("SB");
    assert(text_code("EB"@) == 17222);
    assert(text_code("WB"@) == 17240);
    assert(text_code("NB"@) == 17231);
    assert(text_code("SB"@) == 17236);
}

/// Each of "eb", "wb", "nb", "sb" reads as that approach, and no other text
/// names one.
pub proof fn lemma_bound_lower_reads(s: Seq<char>)
    ensures
        bound_named_lower(s) == Some(Bound::EB) <==> (s == "eb"@),
        bound_named_lower(s) == Some(Bound::WB) <==> (s == "wb"@),
        bound_named_lower(s) == Some(Bound::NB) <==> (s == "nb"@),
        bound_named_lower(s) == Some(Bound::SB) <==> (s == "sb"@),
        bound_named_lower(s) is None <==> !(s == "eb"@ || s == "wb"@ || s == "nb"@ || s == "sb"@),
{
    reveal_strlit("eb");
    reveal_strlit("wb");
    reveal_strlit("nb");
    reveal_strlit("sb");
    assert(text_code("eb"@) == 25446);
    assert(text_code("wb"@) == 25464);
    assert(text_code("nb"@) == 25455);
    assert(text_code("sb"@) == 25460);
}

/// "NB" and "SB" read as those minor approaches, and no other text names one.
pub proof fn lemma_minor_bound_upper_reads(s: Seq<char>)
    ensures
        minor_bound_named_upper(s) == Some(Bound::NB) <==> (s == "NB"@),
        minor_bound_named_upper(s) == Some(Bound::SB) <==> (s == "SB"@),
        minor_bound_named_upper(s) is None <==> !(s == "NB"@ || s == "SB"@),
{
    reveal_strlit("NB");
    reveal_strlit("SB");
    assert(text_code("NB"@) == 17231);
    assert(text_code("SB"@) == 17236);
}

/// "none", "yielding" and "nonyielding"/"non_yielding" read as those bypass
/// types, and no other text names one.
pub proof fn lemma_bypass_reads(s: Seq<char>)
    ensures
        bypass_named(s) == Some(Bypass::NoBypass) <==> (s == "none"@),
        bypass_named(s) == Some(Bypass::Yielding) <==> (s == "yielding"@),
        bypass_named(s) == Some(Bypass::NonYielding) <==> (
            s == "nonyielding"@ || s == "non_yielding"@
        ),
        bypass_named(s) is None <==> !(
            s == "none"@ || s == "yielding"@ || s == "nonyielding"@ || s == "non_yielding"@
        ),
{
    reveal_strlit("none");
    reveal_strlit("yielding");
    reveal_strlit("nonyielding");
    reveal_strlit("non_yielding");
    assert(text_code("none"@) == 1718579311);
    assert(text_code("yielding"@) == 7525350486219057786);
    assert(text_code("nonyielding"@) == 126254430583002155799507055);
    assert(text_code("non_yielding"@) == 32321134229248551884422082671);
}

/// Each lane-assignment code reads as its assignment, and no other text
/// names one.
pub proof fn lemma_lane_assignment_reads(s: Seq<char>)
    ensures
        lane_assignment_named(s) == Some(LaneAssignment::LeftAndThroughRight) <==> (s == "l_tr"@),
        lane_assignment_named(s) == Some(LaneAssignment::LeftThroughAndRight) <==> (s == "lt_r"@),
        lane_assignment_named(s) == Some(LaneAssignment::LeftThroughAndThroughRight) <==> (
            s == "lt_tr"@
        ),
        lane_assignment_named(s) == Some(LaneAssignment::LeftAndAllMovements) <==> (s == "l_ltr"@),
        lane_assignment_named(s) == Some(LaneAssignment::AllMovementsAndRight) <==> (s == "ltr_r"@),
        lane_assignment_named(s) is None <==> !(
            s == "l_tr"@ || s == "lt_r"@ || s == "lt_tr"@ || s == "l_ltr"@ || s == "ltr_r"@
        ),
{
    reveal_strlit("l_tr");
    reveal_strlit("lt_r");
    reveal_strlit("lt_tr");
    reveal_strlit("l_ltr");
    reveal_strlit("ltr_r");
    assert(text_code("l_tr"@) == 1937072237);
    assert(text_code("lt_r"@) == 1935701357);
    assert(text_code("lt_tr"@) == 495890494829);
    assert(text_code("l_ltr"@) == 495891341421);
    assert(text_code("ltr_r"@) == 495539418477);
}

/// "shared", "exclusive" and "channelized" read as those right-turn
/// configurations, and no other text names one.
pub proof fn lemma_major_right_turn_reads(s: Seq<char>)
    ensures
        major_right_turn_named(s) == Some(MajorRightTurn::Shared) <==> (s == "shared"@),
        major_right_turn_named(s) == Some(MajorRightTurn::Exclusive) <==> (s == "exclusive"@),
        major_right_turn_named(s) == Some(MajorRightTurn::Channelized) <==> (s == "channelized"@),
        major_right_turn_named(s) is None <==> !(
            s == "shared"@ || s == "exclusive"@ || s == "channelized"@
        ),
{
    reveal_strlit("shared");
    reveal_strlit("exclusive");
    reveal_strlit("channelized");
    assert(text_code("shared"@) == 111490696898932);
    assert(text_code("exclusive"@) == 1890172713608409282918);
    assert(text_code("channelized"@) == 122585465780749686009915748);
}

/// Each minor-street lane configuration's short and long names read as that
/// configuration, and no other text names one.
pub proof fn lemma_minor_lanes_reads(s: Seq<char>)
    ensures
        minor_lanes_named(s) == Some(MinorLanes::SingleShared) <==> (
            s == "single_shared"@ || s == "singleshared"@
        ),
        minor_lanes_named(s) == Some(MinorLanes::SharedLeftThroughExclusiveRight) <==> (
            s == "shared_lt_exclusive_r"@ || s == "sharedleftthroughexclusiveright"@
        ),
        minor_lanes_named(s) == Some(MinorLanes::ExclusiveLeftSharedThroughRight) <==> (
            s == "exclusive_l_shared_tr"@ || s == "exclusiveleftsharedthroughright"@
        ),
        minor_lanes_named(s) == Some(MinorLanes::Separate) <==> (s == "separate"@),
        minor_lanes_named(s) is None <==> !(
            s == "single_shared"@ || s == "singleshared"@ || s == "shared_lt_exclusive_r"@ ||
            s == "sharedleftthroughexclusiveright"@ || s == "exclusive_l_shared_tr"@ ||
            s == "exclusiveleftsharedthroughright"@ || s == "separate"@
        ),
{
    reveal_strlit("single_shared");
    reveal_strlit("singleshared");
    reveal_strlit("shared_lt_exclusive_r");
    reveal_strlit("sharedleftthroughexclusiveright");
    reveal_strlit("exclusive_l_shared_tr");
    reveal_strlit("exclusiveleftsharedthroughright");
    reveal_strlit("separate");
    assert(text_code("single_shared"@) == 8033751376148940240403945187956);
    assert(text_code("singleshared"@) == 31381841313081804441129020020);
    assert(text_code("shared_lt_exclusive_r"@) == 168623036485649936441682794145777547170435276368244);
    assert(text_code("sharedleftthroughexclusiveright"@) == 207448604990513189581399832934982626681563016297104791268747623427238685044);
    assert(text_code("exclusive_l_shared_tr"@) == 168742789917982336494781975369973278606960133175654);
    assert(text_code("exclusiveleftsharedthroughright"@) == 207448604990517916532861470883974795758974422993401561457183400296796420454);
    assert(text_code("separate"@) == 7382915411856156276);
}

/// "wide" and "narrow" read as those median widths, and no other text names
/// one.
pub proof fn lemma_median_width_reads(s: Seq<char>)
    ensures
        median_width_named(s) == Some(MedianWidth::Wide) <==> (s == "wide"@),
        median_width_named(s) == Some(MedianWidth::Narrow) <==> (s == "narrow"@),
        median_width_named(s) is None <==> !(s == "wide"@ || s == "narrow"@),
{
    reveal_strlit("wide");
    reveal_strlit("narrow");
    assert(text_code("wide"@) == 1717922424);
    assert(text_code("narrow"@) == 132424368611951);
}

/// "total", "stage1" and "stage2" read as those stages, and no other text
/// names one.
pub proof fn lemma_conflict_stage_reads(s: Seq<char>)
    ensures
        conflict_stage_named(s) == Some(ConflictStage::Total) <==> (s == "total"@),
        conflict_stage_named(s) == Some(ConflictStage::Stage1) <==> (s == "stage1"@),
        conflict_stage_named(s) == Some(ConflictStage::Stage2) <==> (s == "stage2"@),
        conflict_stage_named(s) is None <==> !(s == "total"@ || s == "stage1"@ || s == "stage2"@),
{
    reveal_strlit("total");
    reveal_strlit("stage1");
    reveal_strlit("stage2");
    assert(text_code("total"@) == 469803298933);
    assert(text_code("stage1"@) == 55415419336052);
    assert(text_code("stage2"@) == 56514930963828);
}

/// Each movement label reads as its position in computation order (the
/// U-turns in either case of "u"), and no other text names a movement.
pub proof fn lemma_movement_index_reads(s: Seq<char>)
    ensures
        movement_index_of(s) == Some(0nat) <==> (s == "1"@),
        movement_index_of(s) == Some(1nat) <==> (s == "1U"@ || s == "1u"@),
        movement_index_of(s) == Some(2nat) <==> (s == "2"@),
        movement_index_of(s) == Some(3nat) <==> (s == "3"@),
        movement_index_of(s) == Some(4nat) <==> (s == "4"@),
        movement_index_of(s) == Some(5nat) <==> (s == "4U"@ || s == "4u"@),
        movement_index_of(s) == Some(6nat) <==> (s == "5"@),
        movement_index_of(s) == Some(7nat) <==> (s == "6"@),
        movement_index_of(s) == Some(8nat) <==> (s == "7"@),
        movement_index_of(s) == Some(9nat) <==> (s == "8"@),
        movement_index_of(s) == Some(10nat) <==> (s == "9"@),
        movement_index_of(s) == Some(11nat) <==> (s == "10"@),
        movement_index_of(s) == Some(12nat) <==> (s == "11"@),
        movement_index_of(s) == Some(13nat) <==> (s == "12"@),
        movement_index_of(s) is None <==> !(
            s == "1"@ || s == "1U"@ || s == "1u"@ || s == "2"@ || s == "3"@ || s == "4"@ ||
            s == "4U"@ || s == "4u"@ || s == "5"@ || s == "6"@ || s == "7"@ || s == "8"@ ||
            s == "9"@ || s == "10"@ || s == "11"@ || s == "12"@
        ),
{
    reveal_strlit("1");
    reveal_strlit("1U");
    reveal_strlit("1u");
    reveal_strlit("2");
    reveal_strlit("3");
    reveal_strlit("4");
    reveal_strlit("4U");
    reveal_strlit("4u");
    reveal_strlit("5");
    reveal_strlit("6");
    reveal_strlit("7");
    reveal_strlit("8");
    reveal_strlit("9");
    reveal_strlit("10");
    reveal_strlit("11");
    reveal_strlit("12");
    assert(text_code("1"@) == 50);
    assert(text_code("1U"@) == 22066);
    assert(text_code("1u"@) == 30258);
    assert(text_code("2"@) == 51);
    assert(text_code("3"@) == 52);
    assert(text_code("4"@) == 53);
    assert(text_code("4U"@) == 22069);
    assert(text_code("4u"@) == 30261);
    assert(text_code("5"@) == 54);
    assert(text_code("6"@) == 55);
    assert(text_code("7"@) == 56);
    assert(text_code("8"@) == 57);
    assert(text_code("9"@) == 58);
    assert(text_code("10"@) == 12594);
    assert(text_code("11"@) == 12850);
    assert(text_code("12"@) == 13106);
}

} // verus!
