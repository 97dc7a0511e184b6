use crosstraffic_wasm::freeway::{
    parse_city_type, parse_section_types, parse_seg_type, parse_terrain, planning_sections,
    section_kind_from_lowercase, segment_kind_from_lowercase, terrain_from_lowercase, CityType,
    SectionKind, SegmentKind, Terrain,
};
use crosstraffic_wasm::managed_lanes::{parse_managed_lane_type, ManagedLaneKind};
use crosstraffic_wasm::merge_diverge::{
    edition_label, parse_adjacent, parse_edition, parse_ramp_side, parse_ramp_type, ramp_lanes,
    requested_edition, require_v7, AdjacentRamp, Edition, RampKind, RampLanes, RampSide,
};
use crosstraffic_wasm::weaving::{parse_weaving_facility, parse_weaving_type, WeavingFacility, WeavingKind};

#[test]
fn terrain_names_in_any_case() {
    assert_eq!(parse_terrain("ROLLING"), Terrain::Rolling);
    assert_eq!(parse_terrain("Mountainous"), Terrain::Mountainous);
    assert_eq!(parse_terrain("flat"), Terrain::Level);
    assert_eq!(terrain_from_lowercase("Rolling"), Terrain::Level);
}

#[test]
fn city_type_defaults_to_urban() {
    assert_eq!(parse_city_type("Rural"), CityType::Rural);
    assert_eq!(parse_city_type("suburban"), CityType::Urban);
}

#[test]
fn segment_type_ignores_case_and_separators() {
    assert_eq!(parse_seg_type("On-Ramp"), SegmentKind::Merge);
    assert_eq!(parse_seg_type("off_ramp"), SegmentKind::Diverge);
    assert_eq!(parse_seg_type("WEAVE"), SegmentKind::Weaving);
    assert_eq!(parse_seg_type("ramp overlap"), SegmentKind::OverlappingRamp);
    assert_eq!(parse_seg_type("Overlapping Ramp"), SegmentKind::OverlappingRamp);
    assert_eq!(parse_seg_type("basic"), SegmentKind::Basic);
    assert_eq!(parse_seg_type("mystery"), SegmentKind::Basic);
    assert_eq!(segment_kind_from_lowercase("MERGE"), SegmentKind::Basic);
}

#[test]
fn section_type_list_is_read_field_by_field() {
    assert_eq!(
        parse_section_types("basic, Ramp ,WEAVING,,weave"),
        vec![SectionKind::Basic, SectionKind::Ramp, SectionKind::Weave, SectionKind::Basic, SectionKind::Weave]
    );
    assert_eq!(section_kind_from_lowercase(" ramp"), SectionKind::Basic);
}

#[test]
fn planning_sections_follow_the_lengths() {
    let kinds = vec![SectionKind::Ramp];
    let lanes = vec![4u32, 2];
    assert_eq!(
        planning_sections(&kinds, &lanes, 3),
        vec![(SectionKind::Ramp, 4), (SectionKind::Basic, 2), (SectionKind::Basic, 3)]
    );
    assert!(planning_sections(&kinds, &lanes, 0).is_empty());
}

#[test]
fn ramp_options() {
    assert_eq!(parse_ramp_type("Off-Ramp"), RampKind::OffRamp);
    assert_eq!(parse_ramp_type("diverge"), RampKind::OffRamp);
    assert_eq!(parse_ramp_type("MAJOR_MERGE"), RampKind::MajorMerge);
    assert_eq!(parse_ramp_type("major_diverge"), RampKind::MajorDiverge);
    assert_eq!(parse_ramp_type("merge"), RampKind::OnRamp);
    assert_eq!(parse_ramp_side("LEFT"), RampSide::Left);
    assert_eq!(parse_ramp_side("centre"), RampSide::Right);
    assert_eq!(ramp_lanes(2), RampLanes::TwoLane);
    assert_eq!(ramp_lanes(3), RampLanes::OneLane);
    assert_eq!(parse_adjacent("On"), AdjacentRamp::OnRamp);
    assert_eq!(parse_adjacent("off-ramp"), AdjacentRamp::OffRamp);
    assert_eq!(parse_adjacent("none"), AdjacentRamp::NoRamp);
}

#[test]
fn edition_labels_parse_back() {
    for e in [Edition::V7, Edition::V7_1] {
        assert_eq!(parse_edition(edition_label(e)), Ok(e));
    }
    assert_eq!(
        parse_edition("v7.1"),
        Err("HCM version must be exactly \"7\" or \"7.1\", got v7.1".to_string())
    );
    assert!(parse_edition(" HCM 7 ").is_err());
    assert!(parse_edition("7.0").is_err());
    let refused = parse_edition("7.2").unwrap_err();
    assert!(refused.starts_with("unknown HCM version "), "{refused}");
}

#[test]
fn constructor_edition_keeps_the_default_on_unknown_text() {
    assert_eq!(requested_edition(Some("7.1")), Some(Edition::V7_1));
    assert_eq!(requested_edition(Some("eight")), None);
    assert_eq!(requested_edition(Some("v7.1")), Some(Edition::V7_1));
    assert_eq!(requested_edition(Some(" HCM_7.0 ")), Some(Edition::V7));
    assert_eq!(requested_edition(Some("VV7")), Some(Edition::V7));
    assert_eq!(requested_edition(Some("8")), None);
    assert_eq!(requested_edition(Some("hhcmcm7")), None);
    assert_eq!(requested_edition(None), None);
}

#[test]
fn stepwise_methods_need_the_seventh_edition() {
    assert_eq!(require_v7(Edition::V7), Ok(()));
    assert_eq!(require_v7(Edition::V7_1), Err(Edition::V7_1));
}

#[test]
fn weaving_options() {
    assert_eq!(parse_weaving_type("Two-Sided"), WeavingKind::TwoSided);
    assert_eq!(parse_weaving_type("one_sided"), WeavingKind::OneSided);
    assert_eq!(parse_weaving_facility("CD"), WeavingFacility::MultilaneOrCD);
    assert_eq!(parse_weaving_facility("freeway"), WeavingFacility::Freeway);
}

#[test]
fn managed_lane_types() {
    assert_eq!(parse_managed_lane_type(Some("Buffer2")), ManagedLaneKind::Buffer2);
    assert_eq!(parse_managed_lane_type(Some("BARRIER1")), ManagedLaneKind::Barrier1);
    assert_eq!(parse_managed_lane_type(Some("other")), ManagedLaneKind::ContinuousAccess);
    assert_eq!(parse_managed_lane_type(None), ManagedLaneKind::ContinuousAccess);
}
