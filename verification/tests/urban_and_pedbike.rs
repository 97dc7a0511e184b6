use crosstraffic_wasm::mixed_flow::analysis_error;
use crosstraffic_wasm::pedbike::{parse_facility_type, parse_flow_type, PedFacilityKind, PedFlowKind};
use crosstraffic_wasm::urban::{
    carries_measures, check_jan1_day, parse_boundary_control, parse_functional_class, parse_los, BoundaryControl,
    FunctionalClass, Los, SegmentLedger,
};
use transportations_library::basicfreeways::composite_grade::{CompositeGrade, GradeSegment};
use transportations_library::basicfreeways::mixed_flow::MixedFlowSegment;

#[test]
fn boundary_control_names() {
    assert_eq!(parse_boundary_control("Signal"), BoundaryControl::Signalized);
    assert_eq!(parse_boundary_control("AWSC"), BoundaryControl::AllWayStop);
    assert_eq!(parse_boundary_control("Yield_Controlled"), BoundaryControl::YieldControlled);
    assert_eq!(parse_boundary_control("roundabout"), BoundaryControl::Roundabout);
    assert_eq!(parse_boundary_control("twsc"), BoundaryControl::Uncontrolled);
}

#[test]
fn los_letters_are_trimmed_and_case_free() {
    assert_eq!(parse_los(" b "), Ok(Los::B));
    assert_eq!(parse_los("f"), Ok(Los::F));
    assert_eq!(parse_los("A"), Ok(Los::A));
    let e: String = parse_los(" g\t").unwrap_err().into_iter().collect();
    assert_eq!(e, "G");
    assert!(parse_los("").is_err());
    assert!(parse_los("AB").is_err());
}

#[test]
fn functional_classes() {
    assert_eq!(parse_functional_class("Expressway"), FunctionalClass::Expressway);
    assert_eq!(parse_functional_class("MINOR_ARTERIAL"), FunctionalClass::UrbanMinorArterial);
    assert_eq!(parse_functional_class("minor"), FunctionalClass::UrbanMinorArterial);
    assert_eq!(parse_functional_class("collector"), FunctionalClass::UrbanPrincipalArterial);
}

#[test]
fn analyze_is_refused_once_a_summary_segment_is_held() {
    let mut l = SegmentLedger::new();
    assert_eq!(l.check_analyze(), Ok(()));
    l.record_input();
    l.record_config(false);
    assert_eq!(l.check_analyze(), Ok(()));
    l.record_summary();
    assert_eq!(l.check_analyze(), Err((1, 3)));
    l.record_input();
    l.record_config(true);
    assert_eq!(l.check_analyze(), Err((2, 5)));
    assert_eq!(l.total(), 5);
    assert_eq!(l.summaries(), 2);
}

#[test]
fn pedestrian_facility_and_flow_types() {
    assert_eq!(parse_facility_type(Some("Cross_Flow")), PedFacilityKind::CrossFlow);
    assert_eq!(parse_facility_type(Some("cross flow")), PedFacilityKind::CrossFlow);
    assert_eq!(parse_facility_type(Some("STAIRWAY")), PedFacilityKind::Stairway);
    assert_eq!(parse_facility_type(Some("plaza")), PedFacilityKind::Walkway);
    assert_eq!(parse_facility_type(None), PedFacilityKind::Walkway);
    assert_eq!(parse_flow_type(Some("Platoon")), PedFlowKind::Platooned);
    assert_eq!(parse_flow_type(Some("random")), PedFlowKind::Random);
    assert_eq!(parse_flow_type(None), PedFlowKind::Random);
}

#[test]
fn analysis_error_keeps_the_detail() {
    assert_eq!(analysis_error("what", "why"), "what: why");
}

fn ep11() -> CompositeGrade {
    CompositeGrade {
        ffs: 65.0,
        v_mix: 1500.0,
        p_sut: 0.05,
        p_tt: 0.10,
        caf_ao: 1.0,
        segments: vec![
            GradeSegment { length: 1.5, grade: 3.0 },
            GradeSegment { length: 2.0, grade: 2.0 },
            GradeSegment { length: 1.0, grade: 5.0 },
        ],
    }
}

#[test]
fn single_grade_refusal_names_the_missing_exhibit() {
    let seg = MixedFlowSegment {
        ffs: 70.0,
        length: 2.0,
        grade: 5.0,
        v_mix: 1500.0,
        p_sut: 0.05,
        p_tt: 0.10,
        caf_ao: 1.0,
    };
    let e = seg.analyze().expect_err("FFS 70 is outside Stage 1");
    let msg = analysis_error("mixed-flow analysis failed", &e);
    assert!(
        msg.contains("Chapter 26 Appendix A"),
        "the exhibit that would have to be digitised must survive the wrapper: {msg}"
    );
    assert!(msg.contains("70 mi/h FFS"), "{msg}");
    assert!(msg.starts_with("mixed-flow analysis failed: "), "{msg}");
}

#[test]
fn composite_refusal_names_the_missing_exhibit() {
    let mut c = ep11();
    c.segments[1].grade = 7.0;
    let e = c.analyze().expect_err("7% is outside Stage 1");
    let msg = analysis_error("composite-grade analysis failed", &e);
    assert!(
        msg.contains("Exhibit 25-20/25-21"),
        "the exhibit that would have to be digitised must survive the wrapper: {msg}"
    );
    assert!(msg.contains("digitised"), "{msg}");
}

#[test]
fn a_summary_with_a_bad_letter_is_refused_and_not_counted() {
    let mut l = SegmentLedger::new();
    l.record_input();
    assert_eq!(l.admit_summary(Some(" g ")), Err(vec!['G']));
    assert_eq!((l.total(), l.summaries()), (1, 0));
    assert_eq!(l.check_analyze(), Ok(()));
    assert_eq!(l.admit_summary(Some(" c")), Ok(Some(Los::C)));
    assert_eq!((l.total(), l.summaries()), (2, 1));
    assert_eq!(l.admit_summary(None), Ok(None));
    assert_eq!(l.check_analyze(), Err((2, 3)));
}

#[test]
fn any_measure_makes_a_summary_segment() {
    assert!(!carries_measures(false, false, false, false, false));
    assert!(carries_measures(false, false, false, false, true));
    assert!(carries_measures(true, false, false, false, false));
    assert!(carries_measures(false, false, true, true, false));
}

#[test]
fn january_first_is_a_day_from_sunday_to_saturday() {
    assert_eq!(check_jan1_day(0), Ok(0));
    assert_eq!(check_jan1_day(6), Ok(6));
    assert_eq!(check_jan1_day(7), Err(7));
}
