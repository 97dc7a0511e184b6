//! Option strings of the Chapter 14 ramp segment and the HCM edition a ramp
//! segment analyzes under.
use vstd::prelude::*;
use crate::text::{ascii_lower_seq, lowercase, str_eq, lowered, text_code, unicode_trim};
use transportations_library::hcm::common::HcmVersion;

verus! {

/// Ramp type of a merge or diverge segment.
#[derive(Clone, Copy, Debug, PartialEq, Eq, Structural)]
pub enum RampKind {
    OnRamp,
    OffRamp,
    MajorMerge,
    MajorDiverge,
}

/// Side of the freeway the ramp joins.
#[derive(Clone, Copy, Debug, PartialEq, Eq, Structural)]
pub enum RampSide {
    Right,
    Left,
}

/// Number of ramp lanes.
#[derive(Clone, Copy, Debug, PartialEq, Eq, Structural)]
pub enum RampLanes {
    OneLane,
    TwoLane,
}

/// Kind of ramp adjacent upstream or downstream of the subject ramp.
#[derive(Clone, Copy, Debug, PartialEq, Eq, Structural)]
pub enum AdjacentRamp {
    NoRamp,
    OnRamp,
    OffRamp,
}

/// HCM edition: the 7th Edition or Edition 7.1.
#[derive(Clone, Copy, Debug, PartialEq, Eq, Structural)]
pub enum Edition {
    V7,
    V7_1,
}

/// Ramp type a lowercased name selects; an unknown name is an on-ramp.
pub open spec fn ramp_kind_named(s: Seq<char>) -> RampKind {
    if s == "off_ramp"@ || s == "offramp"@ || s == "off-ramp"@ || s == "diverge"@ {
        RampKind::OffRamp
    } else if s == "major_merge"@ {
        RampKind::MajorMerge
    } else if s == "major_diverge"@ {
        RampKind::MajorDiverge
    } else {
        RampKind::OnRamp
    }
}

/// Ramp side a lowercased name selects: "left", else right.
pub open spec fn ramp_side_named(s: Seq<char>) -> RampSide {
    if s == "left"@ {
        RampSide::Left
    } else {
        RampSide::Right
    }
}

/// Adjacent ramp a lowercased name selects; an unknown name means none.
pub open spec fn adjacent_named(s: Seq<char>) -> AdjacentRamp {
    if s == "on_ramp"@ || s == "onramp"@ || s == "on-ramp"@ || s == "on"@ {
        AdjacentRamp::OnRamp
    } else if s == "off_ramp"@ || s == "offramp"@ || s == "off-ramp"@ || s == "off"@ {
        AdjacentRamp::OffRamp
    } else {
        AdjacentRamp::NoRamp
    }
}

/// `s` with every "hcm" removed, scanning from the left without overlaps.
pub open spec fn without_hcm(s: Seq<char>) -> Seq<char>
    decreases s.len(),
{
    if s.len() == 0 {
        s
    } else if s.len() >= 3 && s.subrange(0, 3) == "hcm"@ {
        without_hcm(s.subrange(3, s.len() as int))
    } else {
        seq![s[0]] + without_hcm(s.subrange(1, s.len() as int))
    }
}

/// `s` without its spaces and underscores.
pub open spec fn without_blanks(s: Seq<char>) -> Seq<char> {
    s.filter(|c: char| c != ' ' && c != '_')
}

/// `s` without the run of 'v' it starts with.
pub open spec fn without_leading_v(s: Seq<char>) -> Seq<char>
    decreases s.len(),
{
    if s.len() > 0 && s[0] == 'v' {
        without_leading_v(s.subrange(1, s.len() as int))
    } else {
        s
    }
}

/// The part of an edition text the engine's edition parser reads: the text
/// trimmed, ASCII-lowercased, with "hcm", spaces, underscores and a leading
/// run of 'v' taken out, in that order.
pub open spec fn edition_key(s: Seq<char>) -> Seq<char> {
    without_leading_v(without_blanks(without_hcm(ascii_lower_seq(unicode_trim(s)))))
}

/// The edition a key names: "7" or "7.0" the 7th Edition, "7.1" Edition
/// 7.1, anything else none.
pub open spec fn edition_named(k: Seq<char>) -> Option<Edition> {
    if k == "7"@ || k == "7.0"@ {
        Some(Edition::V7)
    } else if k == "7.1"@ {
        Some(Edition::V7_1)
    } else {
        None
    }
}

/// Whether a parse result is the given edition.
pub open spec fn gives_edition(r: Result<Edition, String>, e: Edition) -> bool {
    r matches Ok(v) && v == e
}

/// The label the manual prints for an edition.
pub open spec fn edition_label_spec(e: Edition) -> Seq<char> {
    match e {
        Edition::V7 => "7"@,
        Edition::V7_1 => "7.1"@,
    }
}

/// The message the engine's edition parser refuses a text with: "unknown
/// HCM version ", the text in Rust debug quoting, then the two labels it
/// expects.
pub uninterp spec fn hcm_version_error(s: Seq<char>) -> Seq<char>;

/// Calls the `FromStr` impl of `HcmVersion`: it reads the edition that
/// `edition_key` leaves of the text, as `edition_named` says, and refuses
/// any other text with the message named `hcm_version_error`, which begins
/// "unknown HCM version ". The rest of that message (the debug quoting of
/// the text) is only named.
#[verifier::external_body]
fn parse_hcm_version(s: &str) -> (r: Result<Edition, String>)
    ensures
        (match r {
            Ok(v) => edition_named(edition_key(s@)) == Some(v),
            Err(e) => edition_named(edition_key(s@)) is None && e@ == hcm_version_error(s@)
                && e@.len() >= 20 && e@.subrange(0, 20) == "unknown HCM version "@,
        }),
{
    match s.parse::<HcmVersion>() {
        Ok(HcmVersion::V7) => Ok(Edition::V7),
        Ok(HcmVersion::V7_1) => Ok(Edition::V7_1),
        Err(e) => Err(e),
    }
}

/// Ramp type from an already lowercased name.
pub fn ramp_kind_from_lowercase(s: &str) -> (r: RampKind)
    ensures
        r == ramp_kind_named(s@),
{
    if str_eq(s, "off_ramp") || str_eq(s, "offramp") || str_eq(s, "off-ramp") || str_eq(
        s,
        "diverge",
    ) {
        RampKind::OffRamp
    } else if str_eq(s, "major_merge") {
        RampKind::MajorMerge
    } else if str_eq(s, "major_diverge") {
        RampKind::MajorDiverge
    } else {
        RampKind::OnRamp
    }
}

/// Ramp type from a name in any letter case.
pub fn parse_ramp_type(s: &str) -> (r: RampKind)
    ensures
        r == ramp_kind_named(lowered(s@)),
{
    let low = lowercase(s);
    ramp_kind_from_lowercase(low.as_str())
}

/// Ramp side from an already lowercased name.
pub fn ramp_side_from_lowercase(s: &str) -> (r: RampSide)
    ensures
        r == ramp_side_named(s@),
{
    if str_eq(s, "left") {
        RampSide::Left
    } else {
        RampSide::Right
    }
}

/// Ramp side from a name in any letter case.
pub fn parse_ramp_side(s: &str) -> (r: RampSide)
    ensures
        r == ramp_side_named(lowered(s@)),
{
    let low = lowercase(s);
    ramp_side_from_lowercase(low.as_str())
}

/// Ramp lane count: 2 means a two-lane ramp, any other count one lane.
pub fn ramp_lanes(count: u32) -> (r: RampLanes)
    ensures
        r == (if count == 2 { RampLanes::TwoLane } else { RampLanes::OneLane }),
{
    if count == 2 {
        RampLanes::TwoLane
    } else {
        RampLanes::OneLane
    }
}

/// Adjacent ramp from an already lowercased name.
pub fn adjacent_from_lowercase(s: &str) -> (r: AdjacentRamp)
    ensures
        r == adjacent_named(s@),
{
    if str_eq(s, "on_ramp") || str_eq(s, "onramp") || str_eq(s, "on-ramp") || str_eq(s, "on") {
        AdjacentRamp::OnRamp
    } else if str_eq(s, "off_ramp") || str_eq(s, "offramp") || str_eq(s, "off-ramp") || str_eq(
        s,
        "off",
    ) {
        AdjacentRamp::OffRamp
    } else {
        AdjacentRamp::NoRamp
    }
}

/// Adjacent ramp from a name in any letter case.
pub fn parse_adjacent(s: &str) -> (r: AdjacentRamp)
    ensures
        r == adjacent_named(lowered(s@)),
{
    let low = lowercase(s);
    adjacent_from_lowercase(low.as_str())
}

/// The label of an edition, "7" or "7.1".
pub fn edition_label(e: Edition) -> (r: &'static str)
    ensures
        r@ == edition_label_spec(e),
{
    match e {
        Edition::V7 => "7",
        Edition::V7_1 => "7.1",
    }
}

/// The edition the edition setter assigns: exactly "7" or "7.1", any other
/// text refused. A text the engine's parser refuses keeps that parser's
/// message (`hcm_version_error`); one it would read but that is not an
/// exact label ("v7",
/// "HCM 7.1", ...) is refused naming the two labels.
pub fn parse_edition(s: &str) -> (r: Result<Edition, String>)
    ensures
        r is Ok <==> (s@ == "7"@ || s@ == "7.1"@),
        r matches Ok(v) ==> edition_label_spec(v) == s@,
        forall|e: Edition| s@ == edition_label_spec(e) ==> gives_edition(r, e),
        r is Err && edition_named(edition_key(s@)) is Some ==> (r matches Err(m) && m@
            == "HCM version must be exactly \"7\" or \"7.1\", got "@ + s@),
        r is Err && edition_named(edition_key(s@)) is None ==> (r matches Err(m) && m@
            == hcm_version_error(s@)),
{
    proof {
        reveal_strlit("7");
        reveal_strlit("7.1");
        assert("7"@.len() != "7.1"@.len());
    }
    if str_eq(s, "7") {
        Ok(Edition::V7)
    } else if str_eq(s, "7.1") {
        Ok(Edition::V7_1)
    } else {
        match parse_hcm_version(s) {
            Err(e) => Err(e),
            Ok(_) => {
                let mut msg = String::from_str("HCM version must be exactly \"7\" or \"7.1\", got ");
                msg.append(s);
                Err(msg)
            },
        }
    }
}

/// The edition a constructor argument asks for: `None` when the argument
/// is absent or is not a text the engine's edition parser reads, in which
/// case the segment keeps its default edition rather than failing.
pub fn requested_edition(version: Option<&str>) -> (r: Option<Edition>)
    ensures
        r == (match version {
            Some(s) => edition_named(edition_key(s@)),
            None => None,
        }),
{
    match version {
        Some(s) => match parse_hcm_version(s) {
            Ok(e) => Some(e),
            Err(_) => None,
        },
        None => None,
    }
}

/// The stepwise 7th Edition methods (lane distribution, v_12, Exhibit
/// 14-13 speeds) have no counterpart in Edition 7.1: they run on a 7th
/// Edition segment and are refused on a 7.1 one, the refusal carrying the
/// segment's edition.
pub fn require_v7(edition: Edition) -> (r: Result<(), Edition>)
    ensures
        r == (if edition == Edition::V7 {
            Ok(())
        } else {
            Err(edition)
        }),
{
    match edition {
        Edition::V7 => Ok(()),
        Edition::V7_1 => Err(edition),
    }
}

/// "off_ramp", "offramp", "off-ramp" and "diverge" read as an off-ramp,
/// "major_merge" and "major_diverge" as those, and every other text as an
/// on-ramp.
pub proof fn lemma_ramp_kind_reads(s: Seq<char>)
    ensures
        ramp_kind_named(s) == RampKind::OffRamp <==> (
            s == "off_ramp"@ || s == "offramp"@ || s == "off-ramp"@ || s == "diverge"@
        ),
        ramp_kind_named(s) == RampKind::MajorMerge <==> (s == "major_merge"@),
        ramp_kind_named(s) == RampKind::MajorDiverge <==> (s == "major_diverge"@),
        ramp_kind_named(s) == RampKind::OnRamp <==> !(
            s == "off_ramp"@ || s == "offramp"@ || s == "off-ramp"@ || s == "diverge"@ ||
            s == "major_merge"@ || s == "major_diverge"@
        ),
{
    reveal_strlit("off_ramp");
    reveal_strlit("offramp");
    reveal_strlit("off-ramp");
    reveal_strlit("diverge");
    reveal_strlit("major_merge");
    reveal_strlit("major_diverge");
    assert(text_code("off_ramp"@) == 8173578621402179440);
    assert(text_code("offramp"@) == 31928041490311024);
    assert(text_code("off-ramp"@) == 8173578620563318640);
    assert(text_code("diverge"@) == 28825292474116709);
    assert(text_code("major_merge"@) == 123803688471421983751103086);
    assert(text_code("major_diverge"@) == 8113598527829848441508791542382);
}

/// "left" reads as the left side and every other text as the right.
pub proof fn lemma_ramp_side_reads(s: Seq<char>)
    ensures
        ramp_side_named(s) == RampSide::Left <==> (s == "left"@),
        ramp_side_named(s) == RampSide::Right <==> !(s == "left"@),
{
    reveal_strlit("left");
    assert(text_code("left"@) == 1969710701);
}

/// The on-ramp names ("on_ramp", "onramp", "on-ramp", "on") read as an
/// adjacent on-ramp, the off-ramp names as an adjacent off-ramp, and every
/// other text as no adjacent ramp.
pub proof fn lemma_adjacent_reads(s: Seq<char>)
    ensures
        adjacent_named(s) == AdjacentRamp::OnRamp <==> (
            s == "on_ramp"@ || s == "onramp"@ || s == "on-ramp"@ || s == "on"@
        ),
        adjacent_named(s) == AdjacentRamp::OffRamp <==> (
            s == "off_ramp"@ || s == "offramp"@ || s == "off-ramp"@ || s == "off"@
        ),
        adjacent_named(s) == AdjacentRamp::NoRamp <==> !(
            s == "on_ramp"@ || s == "onramp"@ || s == "on-ramp"@ || s == "on"@ ||
            s == "off_ramp"@ || s == "offramp"@ || s == "off-ramp"@ || s == "off"@
        ),
{
    reveal_strlit("on_ramp");
    reveal_strlit("onramp");
    reveal_strlit("on-ramp");
    reveal_strlit("on");
    reveal_strlit("off_ramp");
    reveal_strlit("offramp");
    reveal_strlit("off-ramp");
    reveal_strlit("off");
    assert(text_code("on_ramp"@) == 31928041489854320);
    assert(text_code("onramp"@) == 124718912073584);
    assert(text_code("on-ramp"@) == 31928041486577520);
    assert(text_code("on"@) == 28528);
    assert(text_code("off_ramp"@) == 8173578621402179440);
    assert(text_code("offramp"@) == 31928041490311024);
    assert(text_code("off-ramp"@) == 8173578620563318640);
    assert(text_code("off"@) == 6776688);
}

/// An edition key "7" or "7.0" reads as the 7th Edition, "7.1" as Edition
/// 7.1, and no other key names an edition.
pub proof fn lemma_edition_reads(s: Seq<char>)
    ensures
        edition_named(s) == Some(Edition::V7) <==> (s == "7"@ || s == "7.0"@),
        edition_named(s) == Some(Edition::V7_1) <==> (s == "7.1"@),
        edition_named(s) is None <==> !(s == "7"@ || s == "7.0"@ || s == "7.1"@),
{
    reveal_strlit("7");
    reveal_strlit("7.0");
    reveal_strlit("7.1");
    assert(text_code("7"@) == 56);
    assert(text_code("7.0"@) == 3223352);
    assert(text_code("7.1"@) == 3288888);
}

} // verus!
