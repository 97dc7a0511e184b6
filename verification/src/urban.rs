//! Urban street chapters (16, 17 and 18): boundary control, LOS letters,
//! functional class, the record of which facility segments carry published
//! measures instead of inputs, and the monthly weather series.
use vstd::prelude::*;
use crate::text::{
    ascii_upper, ascii_upper_seq, chars_eq, lowercase, str_eq, trim, lowered,
    text_code, unicode_trim,
};

verus! {

/// Control at a segment's downstream boundary intersection.
#[derive(Clone, Copy, Debug, PartialEq, Eq, Structural)]
pub enum BoundaryControl {
    Signalized,
    AllWayStop,
    YieldControlled,
    Roundabout,
    Uncontrolled,
}

/// Level of service letter.
#[derive(Clone, Copy, Debug, PartialEq, Eq, Structural)]
pub enum Los {
    A,
    B,
    C,
    D,
    E,
    F,
}

/// Functional class of an urban street (Chapter 17 demand ratios).
#[derive(Clone, Copy, Debug, PartialEq, Eq, Structural)]
pub enum FunctionalClass {
    Expressway,
    UrbanPrincipalArterial,
    UrbanMinorArterial,
}

/// Number of the last day of the week (0 Sunday to 6 Saturday).
pub const SATURDAY: u32 = 6;

/// Last hour of the day a study period may start at.
pub const LAST_START_HOUR: u32 = 23;

/// Boundary control a lowercased name selects; an unknown name is
/// uncontrolled.
pub open spec fn boundary_control_named(s: Seq<char>) -> BoundaryControl {
    if s == "signalized"@ || s == "signal"@ {
        BoundaryControl::Signalized
    } else if s == "allwaystop"@ || s == "all_way_stop"@ || s == "awsc"@ || s == "stop"@ {
        BoundaryControl::AllWayStop
    } else if s == "yield"@ || s == "yieldcontrolled"@ || s == "yield_controlled"@ {
        BoundaryControl::YieldControlled
    } else if s == "roundabout"@ {
        BoundaryControl::Roundabout
    } else {
        BoundaryControl::Uncontrolled
    }
}

/// The LOS an uppercased letter names, if any.
pub open spec fn los_named(s: Seq<char>) -> Option<Los> {
    if s == "A"@ {
        Some(Los::A)
    } else if s == "B"@ {
        Some(Los::B)
    } else if s == "C"@ {
        Some(Los::C)
    } else if s == "D"@ {
        Some(Los::D)
    } else if s == "E"@ {
        Some(Los::E)
    } else if s == "F"@ {
        Some(Los::F)
    } else {
        None
    }
}

/// The text a LOS letter is read from: trimmed, then ASCII-uppercased.
pub open spec fn los_key(s: Seq<char>) -> Seq<char> {
    ascii_upper_seq(unicode_trim(s))
}

/// The functional class a lowercased name selects; an unknown name is a
/// principal arterial.
pub open spec fn functional_class_named(s: Seq<char>) -> FunctionalClass {
    if s == "expressway"@ {
        FunctionalClass::Expressway
    } else if s == "minor"@ || s == "urbanminorarterial"@ || s == "minor_arterial"@ {
        FunctionalClass::UrbanMinorArterial
    } else {
        FunctionalClass::UrbanPrincipalArterial
    }
}

/// The value of a monthly statistic for month `i` (0 = January): the
/// fallback when no values are given, the last value given for a month past
/// the end of the list (so a single value applies to every month), and the
/// month's own value otherwise.
pub open spec fn month_value_spec<T>(values: Seq<T>, i: int, none: T) -> T {
    if values.len() == 0 {
        none
    } else if i < values.len() {
        values[i]
    } else {
        values[values.len() - 1]
    }
}

/// Boundary control from an already lowercased name.
pub fn boundary_control_from_lowercase(s: &str) -> (r: BoundaryControl)
    ensures
        r == boundary_control_named(s@),
{
    if str_eq(s, "signalized") || str_eq(s, "signal") {
        BoundaryControl::Signalized
    } else if str_eq(s, "allwaystop") || str_eq(s, "all_way_stop") || str_eq(s, "awsc") || str_eq(
        s,
        "stop",
    ) {
        BoundaryControl::AllWayStop
    } else if str_eq(s, "yield") || str_eq(s, "yieldcontrolled") || str_eq(s, "yield_controlled") {
        BoundaryControl::YieldControlled
    } else if str_eq(s, "roundabout") {
        BoundaryControl::Roundabout
    } else {
        BoundaryControl::Uncontrolled
    }
}

/// Boundary control from a name in any letter case.
pub fn parse_boundary_control(s: &str) -> (r: BoundaryControl)
    ensures
        r == boundary_control_named(lowered(s@)),
{
    let low = lowercase(s);
    boundary_control_from_lowercase(low.as_str())
}

/// LOS from a letter, surrounding whitespace and ASCII case ignored.
/// Anything but A through F is refused, not defaulted, and comes back
/// trimmed and uppercased.
pub fn parse_los(s: &str) -> (r: Result<Los, Vec<char>>)
    ensures
        match r {
            Ok(l) => los_named(los_key(s@)) == Some(l),
            Err(e) => los_named(los_key(s@)) is None && e@ == los_key(s@),
        },
{
    let up = ascii_upper(trim(s));
    if chars_eq(&up, "A") {
        Ok(Los::A)
    } else if chars_eq(&up, "B") {
        Ok(Los::B)
    } else if chars_eq(&up, "C") {
        Ok(Los::C)
    } else if chars_eq(&up, "D") {
        Ok(Los::D)
    } else if chars_eq(&up, "E") {
        Ok(Los::E)
    } else if chars_eq(&up, "F") {
        Ok(Los::F)
    } else {
        Err(up)
    }
}

/// Functional class from an already lowercased name.
pub fn functional_class_from_lowercase(s: &str) -> (r: FunctionalClass)
    ensures
        r == functional_class_named(s@),
{
    if str_eq(s, "expressway") {
        FunctionalClass::Expressway
    } else if str_eq(s, "minor") || str_eq(s, "urbanminorarterial") || str_eq(
        s,
        "minor_arterial",
    ) {
        FunctionalClass::UrbanMinorArterial
    } else {
        FunctionalClass::UrbanPrincipalArterial
    }
}

/// Functional class from a name in any letter case.
pub fn parse_functional_class(s: &str) -> (r: FunctionalClass)
    ensures
        r == functional_class_named(lowered(s@)),
{
    let low = lowercase(s);
    functional_class_from_lowercase(low.as_str())
}

/// Study period start hour, capped at the last hour of the day.
pub fn study_start_hour(hour: u32) -> (r: u32)
    ensures
        r == (if hour <= LAST_START_HOUR { hour } else { LAST_START_HOUR }),
{
    if hour <= LAST_START_HOUR {
        hour
    } else {
        LAST_START_HOUR
    }
}

/// The value of a monthly statistic for month `i`; see `month_value_spec`.
pub fn month_value<T: Copy>(values: &Vec<T>, i: usize, none: T) -> (r: T)
    ensures
        r == month_value_spec(values@, i as int, none),
{
    if values.len() == 0 {
        none
    } else if i < values.len() {
        values[i]
    } else {
        values[values.len() - 1]
    }
}

/// The day of the week January 1 falls on (0 Sunday to 6 Saturday); a
/// number above 6 is refused with that number rather than clamped, since
/// it anchors the whole reporting calendar.
pub fn check_jan1_day(day: u32) -> (r: Result<u32, u32>)
    ensures
        day <= SATURDAY ==> (r matches Ok(d) && d == day),
        day > SATURDAY ==> (r matches Err(d) && d == day),
{
    if day <= SATURDAY {
        Ok(day)
    } else {
        Err(day)
    }
}

/// Whether a segment configuration carries any published performance
/// measure (base free-flow speed, travel speed, spatial stop rate, v/c
/// ratio, LOS), which makes it a summary segment.
pub fn carries_measures(
    base_ffs: bool,
    travel_speed: bool,
    stop_rate: bool,
    vc_ratio: bool,
    los: bool,
) -> (r: bool)
    ensures
        r == (base_ffs || travel_speed || stop_rate || vc_ratio || los),
{
    base_ffs || travel_speed || stop_rate || vc_ratio || los
}

/// A year of a monthly statistic, January first, from a list of 0, 1 or
/// 12 values: none given means `none` every month, one value applies to
/// every month, twelve are used as given.
pub fn monthly_series<T: Copy>(values: &Vec<T>, none: T) -> (r: Vec<T>)
    ensures
        r@.len() == 12,
        forall|i: int| 0 <= i < 12 ==> #[trigger] r@[i] == month_value_spec(values@, i, none),
        values@.len() == 0 ==> forall|i: int| 0 <= i < 12 ==> #[trigger] r@[i] == none,
        values@.len() == 1 ==> forall|i: int| 0 <= i < 12 ==> #[trigger] r@[i] == values@[0],
        values@.len() >= 12 ==> r@ == values@.take(12),
{
    let mut out: Vec<T> = Vec::new();
    let mut i: usize = 0;
    while i < 12
        invariant
            i <= 12,
            out@.len() == i,
            forall|j: int| 0 <= j < i ==> #[trigger] out@[j] == month_value_spec(values@, j, none),
        decreases 12 - i,
    {
        out.push(month_value(values, i, none));
        i = i + 1;
    }
    proof {
        if values@.len() >= 12 {
            assert(out@ =~= values@.take(12));
        }
    }
    out
}

/// The segments of an urban facility as counted for the choice between
/// running the Chapter 18 engine and aggregating measures already held: how
/// many segments there are, and how many of them arrived with published
/// performance measures in place of inputs.
#[derive(Clone, Copy, Debug)]
pub struct SegmentLedger {
    total: usize,
    summaries: usize,
}

impl View for SegmentLedger {
    /// (segments, segments carrying published measures)
    type V = (nat, nat);

    closed spec fn view(&self) -> (nat, nat) {
        (self.total as nat, self.summaries as nat)
    }
}

impl SegmentLedger {
    #[verifier::type_invariant]
    spec fn inv(self) -> bool {
        self.summaries <= self.total
    }

    /// A facility with no segments.
    pub fn new() -> (r: Self)
        ensures
            r@ == (0nat, 0nat),
    {
        SegmentLedger { total: 0, summaries: 0 }
    }

    /// Count a segment given by its Chapter 18 inputs.
    pub fn record_input(&mut self)
        requires
            old(self)@.0 < usize::MAX,
        ensures
            final(self)@ == (old(self)@.0 + 1, old(self)@.1),
    {
        proof {
            use_type_invariant(&*self);
        }
        self.total = self.total + 1;
    }

    /// Count a segment given by its published measures (length, base
    /// free-flow speed, travel speed, stop rate, v/c ratio, LOS).
    pub fn record_summary(&mut self)
        requires
            old(self)@.0 < usize::MAX,
        ensures
            final(self)@ == (old(self)@.0 + 1, old(self)@.1 + 1),
    {
        proof {
            use_type_invariant(&*self);
        }
        self.total = self.total + 1;
        self.summaries = self.summaries + 1;
    }

    /// Count a segment given by its published measures, reading its LOS
    /// letter first: a letter outside A through F refuses the segment,
    /// leaving the count as it was and handing back the trimmed, uppercased
    /// text; otherwise the segment is counted as a summary and its LOS (if
    /// any) returned.
    pub fn admit_summary(&mut self, los: Option<&str>) -> (r: Result<Option<Los>, Vec<char>>)
        requires
            old(self)@.0 < usize::MAX,
        ensures
            match los {
                None => r matches Ok(x) && x is None,
                Some(s) => match los_named(los_key(s@)) {
                    Some(l) => r matches Ok(x) && x == Some(l),
                    None => r matches Err(e) && e@ == los_key(s@),
                },
            },
            r is Ok ==> final(self)@ == (old(self)@.0 + 1, old(self)@.1 + 1),
            r is Err ==> final(self)@ == old(self)@,
    {
        let letter = match los {
            Some(s) => match parse_los(s) {
                Ok(l) => Some(l),
                Err(e) => {
                    return Err(e);
                },
            },
            None => None,
        };
        self.record_summary();
        Ok(letter)
    }

    /// Count a segment given as a configuration object: it is a summary
    /// segment exactly when it carries any performance measure.
    pub fn record_config(&mut self, carries_measures: bool)
        requires
            old(self)@.0 < usize::MAX,
        ensures
            final(self)@ == (old(self)@.0 + 1, if carries_measures {
                old(self)@.1 + 1
            } else {
                old(self)@.1
            }),
    {
        if carries_measures {
            self.record_summary();
        } else {
            self.record_input();
        }
    }

    /// Number of segments.
    pub fn total(&self) -> (r: usize)
        ensures
            r == self@.0,
    {
        self.total
    }

    /// Number of segments carrying published measures.
    pub fn summaries(&self) -> (r: usize)
        ensures
            r == self@.1,
            r <= self@.0,
    {
        proof {
            use_type_invariant(&*self);
        }
        self.summaries
    }

    /// Whether the Chapter 18 engine may be run over every segment: refused,
    /// with (summary segments, segments), as soon as one segment carries
    /// published measures, because there are no inputs behind it to
    /// recompute from.
    pub fn check_analyze(&self) -> (r: Result<(), (usize, usize)>)
        ensures
            r is Ok <==> self@.1 == 0,
            r matches Err(counts) ==> counts.0 == self@.1 && counts.1 == self@.0 && 0 < counts.0
                <= counts.1,
    {
        proof {
            use_type_invariant(&*self);
        }
        if self.summaries > 0 {
            Err((self.summaries, self.total))
        } else {
            Ok(())
        }
    }
}

/// Each boundary control's names ("signalized"/"signal", the all-way STOP
/// names, the yield names, "roundabout") read as that control, and every
/// other text as uncontrolled.
pub proof fn lemma_boundary_control_reads(s: Seq<char>)
    ensures
        boundary_control_named(s) == BoundaryControl::Signalized <==> (
            s == "signalized"@ || s == "signal"@
        ),
        boundary_control_named(s) == BoundaryControl::AllWayStop <==> (
            s == "allwaystop"@ || s == "all_way_stop"@ || s == "awsc"@ || s == "stop"@
        ),
        boundary_control_named(s) == BoundaryControl::YieldControlled <==> (
            s == "yield"@ || s == "yieldcontrolled"@ || s == "yield_controlled"@
        ),
        boundary_control_named(s) == BoundaryControl::Roundabout <==> (s == "roundabout"@),
        boundary_control_named(s) == BoundaryControl::Uncontrolled <==> !(
            s == "signalized"@ || s == "signal"@ || s == "allwaystop"@ ||
            s == "all_way_stop"@ || s == "awsc"@ || s == "stop"@ || s == "yield"@ ||
            s == "yieldcontrolled"@ || s == "yield_controlled"@ || s == "roundabout"@
        ),
{
    reveal_strlit("signalized");
    reveal_strlit("signal");
    reveal_strlit("allwaystop");
    reveal_strlit("all_way_stop");
    reveal_strlit("awsc");
    reveal_strlit("stop");
    reveal_strlit("yield");
    reveal_strlit("yieldcontrolled");
    reveal_strlit("yield_controlled");
    reveal_strlit("roundabout");
    assert(text_code("signalized"@) == 478849475706036280650356);
    assert(text_code("signal"@) == 120269543336564);
    assert(text_code("allwaystop"@) == 535701911424688460754274);
    assert(text_code("all_way_stop"@) == 35107760465261616776218504546);
    assert(text_code("awsc"@) == 1685354594);
    assert(text_code("stop"@) == 1903195508);
    assert(text_code("yield"@) == 435627125370);
    assert(text_code("yieldcontrolled"@) == 526499458231115116445686559349828218);
    assert(text_code("yield_controlled"@) == 134783861307165469810095753661755320954);
    assert(text_code("roundabout"@) == 554701692721188960628851);
}

/// Each of "A" to "F" reads as that level of service, and no other text
/// names one.
pub proof fn lemma_los_reads(s: Seq<char>)
    ensures
        los_named(s) == Some(Los::A) <==> (s == "A"@),
        los_named(s) == Some(Los::B) <==> (s == "B"@),
        los_named(s) == Some(Los::C) <==> (s == "C"@),
        los_named(s) == Some(Los::D) <==> (s == "D"@),
        los_named(s) == Some(Los::E) <==> (s == "E"@),
        los_named(s) == Some(Los::F) <==> (s == "F"@),
        los_named(s) is None <==> !(
            s == "A"@ || s == "B"@ || s == "C"@ || s == "D"@ || s == "E"@ || s == "F"@
        ),
{
    reveal_strlit("A");
    reveal_strlit("B");
    reveal_strlit("C");
    reveal_strlit("D");
    reveal_strlit("E");
    reveal_strlit("F");
    assert(text_code("A"@) == 66);
    assert(text_code("B"@) == 67);
    assert(text_code("C"@) == 68);
    assert(text_code("D"@) == 69);
    assert(text_code("E"@) == 70);
    assert(text_code("F"@) == 71);
}

/// "expressway" reads as an expressway, the minor-arterial names as a minor
/// arterial, and every other text as a principal arterial.
pub proof fn lemma_functional_class_reads(s: Seq<char>)
    ensures
        functional_class_named(s) == FunctionalClass::Expressway <==> (s == "expressway"@),
        functional_class_named(s) == FunctionalClass::UrbanMinorArterial <==> (
            s == "minor"@ || s == "urbanminorarterial"@ || s == "minor_arterial"@
        ),
        functional_class_named(s) == FunctionalClass::UrbanPrincipalArterial <==> !(
            s == "expressway"@ || s == "minor"@ || s == "urbanminorarterial"@ ||
            s == "minor_arterial"@
        ),
{
    reveal_strlit("expressway");
    reveal_strlit("minor");
    reveal_strlit("urbanminorarterial");
    reveal_strlit("minor_arterial");
    assert(text_code("expressway"@) == 577945171519685474220390);
    assert(text_code("minor"@) == 495807588974);
    assert(text_code("urbanminorarterial"@) == 9528728335879921970871766138734442860213110);
    assert(text_code("minor_arterial"@) == 2218579951645788264177296447859310);
}


/// A month reads the given value at its own position, a month past the end
/// of a non-empty list repeats the last value given, and with no values
/// every month reads `none`.
pub proof fn lemma_month_value_reads_the_list<T>(values: Seq<T>, none: T)
    ensures
        forall|i: int| 0 <= i < values.len() ==> #[trigger] month_value_spec(values, i, none) == values[i],
        values.len() > 0 ==> forall|i: int|
            i >= values.len() ==> #[trigger] month_value_spec(values, i, none) == values.last(),
        values.len() == 0 ==> forall|i: int| #[trigger] month_value_spec(values, i, none) == none,
{
}

} // verus!
