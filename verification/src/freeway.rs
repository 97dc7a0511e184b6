//! Option strings of the freeway chapters (10, 12 and 25): terrain, city
//! type, Chapter 10 segment type and the planning-method section list.
use vstd::prelude::*;
use crate::grid::get_or;
use crate::text::{
    chars_eq, comma_fields, lowercase, split_commas, str_eq, strip_separators, trim,
    lowered, text_code, unicode_trim, without_separators,
};

verus! {

/// Terrain class of a freeway facility or segment.
#[derive(Clone, Copy, Debug, PartialEq, Eq, Structural)]
pub enum Terrain {
    Level,
    Rolling,
    Mountainous,
}

/// Urban or rural setting (selects the Chapter 12 capacity rules).
#[derive(Clone, Copy, Debug, PartialEq, Eq, Structural)]
pub enum CityType {
    Urban,
    Rural,
}

/// Chapter 10 analysis segment type.
#[derive(Clone, Copy, Debug, PartialEq, Eq, Structural)]
pub enum SegmentKind {
    Basic,
    Merge,
    Diverge,
    Weaving,
    OverlappingRamp,
}

/// Chapter 25 planning-method section type.
#[derive(Clone, Copy, Debug, PartialEq, Eq, Structural)]
pub enum SectionKind {
    Basic,
    Weave,
    Ramp,
}

/// The terrain a lowercased name selects: "rolling" and "mountainous" are
/// recognised, every other text means level terrain.
pub open spec fn terrain_named(s: Seq<char>) -> Terrain {
    if s == "rolling"@ {
        Terrain::Rolling
    } else if s == "mountainous"@ {
        Terrain::Mountainous
    } else {
        Terrain::Level
    }
}

/// The city type a lowercased name selects: "rural", else urban.
pub open spec fn city_type_named(s: Seq<char>) -> CityType {
    if s == "rural"@ {
        CityType::Rural
    } else {
        CityType::Urban
    }
}

/// The segment type a lowercased name with its separators removed selects;
/// an unknown name is a basic segment.
pub open spec fn segment_kind_named(s: Seq<char>) -> SegmentKind {
    if s == "merge"@ || s == "onramp"@ {
        SegmentKind::Merge
    } else if s == "diverge"@ || s == "offramp"@ {
        SegmentKind::Diverge
    } else if s == "weaving"@ || s == "weave"@ {
        SegmentKind::Weaving
    } else if s == "overlappingramp"@ || s == "overlapping"@ || s == "rampoverlap"@ {
        SegmentKind::OverlappingRamp
    } else {
        SegmentKind::Basic
    }
}

/// The planning section type a trimmed, lowercased name selects; an unknown
/// name is a basic section.
pub open spec fn section_kind_named(s: Seq<char>) -> SectionKind {
    if s == "ramp"@ {
        SectionKind::Ramp
    } else if s == "weave"@ || s == "weaving"@ {
        SectionKind::Weave
    } else {
        SectionKind::Basic
    }
}

/// The section type of one field of the comma-separated type list.
pub open spec fn section_field_kind(field: Seq<char>) -> SectionKind {
    section_kind_named(lowered(unicode_trim(field)))
}

/// Terrain from an already lowercased name.
pub fn terrain_from_lowercase(s: &str) -> (r: Terrain)
    ensures
        r == terrain_named(s@),
{
    if str_eq(s, "rolling") {
        Terrain::Rolling
    } else if str_eq(s, "mountainous") {
        Terrain::Mountainous
    } else {
        Terrain::Level
    }
}

/// Terrain from a name in any letter case ("Rolling", "MOUNTAINOUS", ...).
pub fn parse_terrain(s: &str) -> (r: Terrain)
    ensures
        r == terrain_named(lowered(s@)),
{
    let low = lowercase(s);
    terrain_from_lowercase(low.as_str())
}

/// City type from an already lowercased name.
pub fn city_type_from_lowercase(s: &str) -> (r: CityType)
    ensures
        r == city_type_named(s@),
{
    if str_eq(s, "rural") {
        CityType::Rural
    } else {
        CityType::Urban
    }
}

/// City type from a name in any letter case.
pub fn parse_city_type(s: &str) -> (r: CityType)
    ensures
        r == city_type_named(lowered(s@)),
{
    let low = lowercase(s);
    city_type_from_lowercase(low.as_str())
}

/// Segment type from an already lowercased name; spaces, underscores and
/// hyphens in it are ignored, so "on-ramp" and "on_ramp" read as "onramp".
pub fn segment_kind_from_lowercase(s: &str) -> (r: SegmentKind)
    ensures
        r == segment_kind_named(without_separators(s@)),
{
    let k = strip_separators(s);
    if chars_eq(&k, "merge") || chars_eq(&k, "onramp") {
        SegmentKind::Merge
    } else if chars_eq(&k, "diverge") || chars_eq(&k, "offramp") {
        SegmentKind::Diverge
    } else if chars_eq(&k, "weaving") || chars_eq(&k, "weave") {
        SegmentKind::Weaving
    } else if chars_eq(&k, "overlappingramp") || chars_eq(&k, "overlapping") || chars_eq(
        &k,
        "rampoverlap",
    ) {
        SegmentKind::OverlappingRamp
    } else {
        SegmentKind::Basic
    }
}

/// Segment type from a name in any letter case, separators ignored.
pub fn parse_seg_type(s: &str) -> (r: SegmentKind)
    ensures
        r == segment_kind_named(without_separators(lowered(s@))),
{
    let low = lowercase(s);
    segment_kind_from_lowercase(low.as_str())
}

/// Section type from an already trimmed and lowercased name.
pub fn section_kind_from_lowercase(s: &str) -> (r: SectionKind)
    ensures
        r == section_kind_named(s@),
{
    if str_eq(s, "ramp") {
        SectionKind::Ramp
    } else if str_eq(s, "weave") || str_eq(s, "weaving") {
        SectionKind::Weave
    } else {
        SectionKind::Basic
    }
}

/// The section types of a comma-separated list such as "basic, ramp,weave":
/// one entry per field, each field trimmed and lowercased before it is
/// read, an unknown or empty field meaning a basic section.
pub fn parse_section_types(list: &str) -> (r: Vec<SectionKind>)
    ensures
        r@.len() == comma_fields(list@).len(),
        forall|i: int|
            0 <= i < r@.len() ==> r@[i] == section_field_kind(#[trigger] comma_fields(list@)[i]),
{
    let fields = split_commas(list);
    let ghost views = fields@.map_values(|p: &str| p@);
    let mut out: Vec<SectionKind> = Vec::new();
    let mut i: usize = 0;
    while i < fields.len()
        invariant
            views == fields@.map_values(|p: &str| p@),
            views == comma_fields(list@),
            i <= fields@.len(),
            out@.len() == i,
            forall|j: int| 0 <= j < i ==> out@[j] == section_field_kind(#[trigger] views[j]),
        decreases fields@.len() - i,
    {
        let field: &str = fields[i];
        assert(views[i as int] == field@);
        let low = lowercase(trim(field));
        out.push(section_kind_from_lowercase(low.as_str()));
        i = i + 1;
    }
    out
}

/// The type and lane count of each planning section: one entry per section
/// length given, each taking the type and lane count at its own position,
/// or a basic section of 3 lanes where those lists run short.
pub fn planning_sections(kinds: &Vec<SectionKind>, lanes: &Vec<u32>, num_sections: usize) -> (r:
    Vec<(SectionKind, u32)>)
    ensures
        r@.len() == num_sections,
        forall|i: int|
            0 <= i < num_sections ==> #[trigger] r@[i] == (
                if i < kinds@.len() { kinds@[i] } else { SectionKind::Basic },
                if i < lanes@.len() { lanes@[i] } else { 3u32 },
            ),
{
    let mut out: Vec<(SectionKind, u32)> = Vec::new();
    let mut i: usize = 0;
    while i < num_sections
        invariant
            i <= num_sections,
            out@.len() == i,
            forall|j: int|
                0 <= j < i ==> #[trigger] out@[j] == (
                    if j < kinds@.len() { kinds@[j] } else { SectionKind::Basic },
                    if j < lanes@.len() { lanes@[j] } else { 3u32 },
                ),
        decreases num_sections - i,
    {
        let kind = get_or(kinds, i, SectionKind::Basic);
        let n = get_or(lanes, i, 3u32);
        out.push((kind, n));
        i = i + 1;
    }
    out
}

/// "rolling" reads as rolling terrain, "mountainous" as mountainous, and
/// every other text as level.
pub proof fn lemma_terrain_reads(s: Seq<char>)
    ensures
        terrain_named(s) == Terrain::Rolling <==> (s == "rolling"@),
        terrain_named(s) == Terrain::Mountainous <==> (s == "mountainous"@),
        terrain_named(s) == Terrain::Level <==> !(s == "rolling"@ || s == "mountainous"@),
{
    reveal_strlit("rolling");
    reveal_strlit("mountainous");
    assert(text_code("rolling"@) == 29395900471013491);
    assert(text_code("mountainous"@) == 140794708383949400132972654);
}

/// "rural" reads as a rural area and every other text as urban.
pub proof fn lemma_city_type_reads(s: Seq<char>)
    ensures
        city_type_named(s) == CityType::Rural <==> (s == "rural"@),
        city_type_named(s) == CityType::Urban <==> !(s == "rural"@),
{
    reveal_strlit("rural");
    assert(text_code("rural"@) == 469803169395);
}

/// Each segment type's names ("merge"/"onramp", "diverge"/"offramp",
/// "weaving"/"weave", "overlappingramp"/"overlapping"/"rampoverlap") read
/// as that type, and every other text as a basic segment.
pub proof fn lemma_segment_kind_reads(s: Seq<char>)
    ensures
        segment_kind_named(s) == SegmentKind::Merge <==> (s == "merge"@ || s == "onramp"@),
        segment_kind_named(s) == SegmentKind::Diverge <==> (s == "diverge"@ || s == "offramp"@),
        segment_kind_named(s) == SegmentKind::Weaving <==> (s == "weaving"@ || s == "weave"@),
        segment_kind_named(s) == SegmentKind::OverlappingRamp <==> (
            s == "overlappingramp"@ || s == "overlapping"@ || s == "rampoverlap"@
        ),
        segment_kind_named(s) == SegmentKind::Basic <==> !(
            s == "merge"@ || s == "onramp"@ || s == "diverge"@ || s == "offramp"@ ||
            s == "weaving"@ || s == "weave"@ || s == "overlappingramp"@ ||
            s == "overlapping"@ || s == "rampoverlap"@
        ),
{
    reveal_strlit("merge");
    reveal_strlit("onramp");
    reveal_strlit("diverge");
    reveal_strlit("offramp");
    reveal_strlit("weaving");
    reveal_strlit("weave");
    reveal_strlit("overlappingramp");
    reveal_strlit("overlapping");
    reveal_strlit("rampoverlap");
    assert(text_code("merge"@) == 439839057518);
    assert(text_code("onramp"@) == 124718912073584);
    assert(text_code("diverge"@) == 28825292474116709);
    assert(text_code("offramp"@) == 31928041490311024);
    assert(text_code("weaving"@) == 29395900638062200);
    assert(text_code("weave"@) == 440089601656);
    assert(text_code("overlappingramp"@) == 588968410147794164579162152382134128);
    assert(text_code("overlapping"@) == 126254431448814798881847152);
    assert(text_code("rampoverlap"@) == 137073428542343443123167859);
}

/// "ramp" reads as a ramp section, "weave" or "weaving" as a weave section,
/// and every other text as basic.
pub proof fn lemma_section_kind_reads(s: Seq<char>)
    ensures
        section_kind_named(s) == SectionKind::Ramp <==> (s == "ramp"@),
        section_kind_named(s) == SectionKind::Weave <==> (s == "weave"@ || s == "weaving"@),
        section_kind_named(s) == SectionKind::Basic <==> !(
            s == "ramp"@ || s == "weave"@ || s == "weaving"@
        ),
{
    reveal_strlit("ramp");
    reveal_strlit("weave");
    reveal_strlit("weaving");
    assert(text_code("ramp"@) == 1903059571);
    assert(text_code("weave"@) == 440089601656);
    assert(text_code("weaving"@) == 29395900638062200);
}

} // verus!
