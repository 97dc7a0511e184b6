//! Option strings of the Chapter 13 weaving segment.
use vstd::prelude::*;
use crate::text::{lowercase, str_eq, lowered, text_code};

verus! {

/// Weaving configuration.
#[derive(Clone, Copy, Debug, PartialEq, Eq, Structural)]
pub enum WeavingKind {
    OneSided,
    TwoSided,
}

/// Facility the weaving segment sits on.
#[derive(Clone, Copy, Debug, PartialEq, Eq, Structural)]
pub enum WeavingFacility {
    Freeway,
    MultilaneOrCD,
}

/// Weaving configuration a lowercased name selects: the two-sided
/// spellings, else one-sided.
pub open spec fn weaving_kind_named(s: Seq<char>) -> WeavingKind {
    if s == "two_sided"@ || s == "twosided"@ || s == "two-sided"@ {
        WeavingKind::TwoSided
    } else {
        WeavingKind::OneSided
    }
}

/// Facility a lowercased name selects: a multilane highway or C-D road for
/// "multilane", "cd" or "multilane_or_cd", else a freeway.
pub open spec fn weaving_facility_named(s: Seq<char>) -> WeavingFacility {
    if s == "multilane"@ || s == "cd"@ || s == "multilane_or_cd"@ {
        WeavingFacility::MultilaneOrCD
    } else {
        WeavingFacility::Freeway
    }
}

/// Weaving configuration from an already lowercased name.
pub fn weaving_kind_from_lowercase(s: &str) -> (r: WeavingKind)
    ensures
        r == weaving_kind_named(s@),
{
    if str_eq(s, "two_sided") || str_eq(s, "twosided") || str_eq(s, "two-sided") {
        WeavingKind::TwoSided
    } else {
        WeavingKind::OneSided
    }
}

/// Weaving configuration from a name in any letter case.
pub fn parse_weaving_type(s: &str) -> (r: WeavingKind)
    ensures
        r == weaving_kind_named(lowered(s@)),
{
    let low = lowercase(s);
    weaving_kind_from_lowercase(low.as_str())
}

/// Weaving facility from an already lowercased name.
pub fn weaving_facility_from_lowercase(s: &str) -> (r: WeavingFacility)
    ensures
        r == weaving_facility_named(s@),
{
    if str_eq(s, "multilane") || str_eq(s, "cd") || str_eq(s, "multilane_or_cd") {
        WeavingFacility::MultilaneOrCD
    } else {
        WeavingFacility::Freeway
    }
}

/// Weaving facility from a name in any letter case.
pub fn parse_weaving_facility(s: &str) -> (r: WeavingFacility)
    ensures
        r == weaving_facility_named(lowered(s@)),
{
    let low = lowercase(s);
    weaving_facility_from_lowercase(low.as_str())
}

/// The two-sided names read as a two-sided weave and every other text as
/// one-sided.
pub proof fn lemma_weaving_kind_reads(s: Seq<char>)
    ensures
        weaving_kind_named(s) == WeavingKind::TwoSided <==> (
            s == "two_sided"@ || s == "twosided"@ || s == "two-sided"@
        ),
        weaving_kind_named(s) == WeavingKind::OneSided <==> !(
            s == "two_sided"@ || s == "twosided"@ || s == "two-sided"@
        ),
{
    reveal_strlit("two_sided");
    reveal_strlit("twosided");
    reveal_strlit("two-sided");
    assert(text_code("two_sided"@) == 1870499572057247873141);
    assert(text_code("twosided"@) == 7306638953349675125);
    assert(text_code("two-sided"@) == 1870499572056409012341);
}

/// The multilane and collector-distributor names read as such a facility
/// and every other text as a freeway.
pub proof fn lemma_weaving_facility_reads(s: Seq<char>)
    ensures
        weaving_facility_named(s) == WeavingFacility::MultilaneOrCD <==> (
            s == "multilane"@ || s == "cd"@ || s == "multilane_or_cd"@
        ),
        weaving_facility_named(s) == WeavingFacility::Freeway <==> !(
            s == "multilane"@ || s == "cd"@ || s == "multilane_or_cd"@
        ),
{
    reveal_strlit("multilane");
    reveal_strlit("cd");
    reveal_strlit("multilane_or_cd");
    assert(text_code("multilane"@) == 1889593993308305978990);
    assert(text_code("cd"@) == 25956);
    assert(text_code("multilane_or_cd"@) == 526457865302615184928253999762470510);
}

} // verus!
