use crosstraffic_wasm::intersections::{
    bound_key, check_conflicting_flow_override, conflict_stage_label, entry_slots, ConflictStage,
    OverrideError, lane_triples, movement_label, parse_approach, parse_bypass, parse_dir,
    parse_lane_assignment, parse_major_right_turn, parse_median_width, parse_minor_approach,
    parse_minor_lanes, parse_movement, Bound, Bypass, LaneAssignment, LaneLayoutError,
    MajorRightTurn, MedianWidth, MinorLanes, MOVEMENT_COUNT,
};

fn text(v: Vec<char>) -> String {
    v.into_iter().collect()
}

#[test]
fn approach_names_ignore_ascii_case() {
    assert_eq!(parse_dir("eb"), Ok(Bound::EB));
    assert_eq!(parse_dir("Wb"), Ok(Bound::WB));
    assert_eq!(parse_dir("NB"), Ok(Bound::NB));
    assert_eq!(parse_dir("sB"), Ok(Bound::SB));
    assert_eq!(parse_dir("north").map_err(text), Err("NORTH".to_string()));
    assert_eq!(parse_approach("EB"), Ok(Bound::EB));
    assert_eq!(parse_approach("Xb").map_err(text), Err("xb".to_string()));
}

#[test]
fn approach_keys_read_back() {
    for b in [Bound::EB, Bound::WB, Bound::NB, Bound::SB] {
        assert_eq!(parse_dir(bound_key(b)), Ok(b));
        assert_eq!(parse_approach(bound_key(b)), Ok(b));
    }
}

#[test]
fn minor_approach_is_nb_or_sb() {
    assert_eq!(parse_minor_approach("nb"), Ok(Bound::NB));
    assert_eq!(parse_minor_approach("SB"), Ok(Bound::SB));
    assert_eq!(parse_minor_approach("eb").map_err(text), Err("EB".to_string()));
}

#[test]
fn roundabout_options_are_refused_not_defaulted() {
    assert_eq!(parse_bypass("None"), Ok(Bypass::NoBypass));
    assert_eq!(parse_bypass("YIELDING"), Ok(Bypass::Yielding));
    assert_eq!(parse_bypass("non_yielding"), Ok(Bypass::NonYielding));
    assert_eq!(parse_bypass("Slip"), Err("slip".to_string()));
    assert_eq!(parse_lane_assignment("LT_TR"), Ok(LaneAssignment::LeftThroughAndThroughRight));
    assert_eq!(parse_lane_assignment("l_ltr"), Ok(LaneAssignment::LeftAndAllMovements));
    assert_eq!(parse_lane_assignment("ltr_r"), Ok(LaneAssignment::AllMovementsAndRight));
    assert_eq!(parse_lane_assignment("L_TR"), Ok(LaneAssignment::LeftAndThroughRight));
    assert_eq!(parse_lane_assignment("lt_r"), Ok(LaneAssignment::LeftThroughAndRight));
    assert_eq!(parse_lane_assignment("x"), Err("x".to_string()));
}

#[test]
fn twsc_options() {
    assert_eq!(parse_major_right_turn("Channelized"), Ok(MajorRightTurn::Channelized));
    assert_eq!(parse_major_right_turn("shared"), Ok(MajorRightTurn::Shared));
    assert_eq!(parse_major_right_turn("EXCLUSIVE"), Ok(MajorRightTurn::Exclusive));
    assert_eq!(parse_major_right_turn("yield"), Err("yield".to_string()));
    assert_eq!(parse_minor_lanes("Separate"), Ok(MinorLanes::Separate));
    assert_eq!(parse_minor_lanes("singleshared"), Ok(MinorLanes::SingleShared));
    assert_eq!(
        parse_minor_lanes("shared_lt_exclusive_r"),
        Ok(MinorLanes::SharedLeftThroughExclusiveRight)
    );
    assert_eq!(
        parse_minor_lanes("ExclusiveLeftSharedThroughRight"),
        Ok(MinorLanes::ExclusiveLeftSharedThroughRight)
    );
    assert_eq!(parse_minor_lanes("two"), Err("two".to_string()));
    assert_eq!(parse_median_width("Wide"), Ok(MedianWidth::Wide));
    assert_eq!(parse_median_width("NARROW"), Ok(MedianWidth::Narrow));
    assert_eq!(parse_median_width("medium"), Err("medium".to_string()));
}

#[test]
fn movement_labels_read_back_as_their_index() {
    for i in 0..MOVEMENT_COUNT {
        assert_eq!(parse_movement(movement_label(i)), Some(i));
    }
    assert_eq!(parse_movement("4u"), Some(5));
    assert_eq!(parse_movement("1u"), Some(1));
    assert_eq!(movement_label(11), "10");
    assert_eq!(parse_movement("13"), None);
    assert_eq!(parse_movement("U"), None);
}

#[test]
fn lane_volumes_come_in_triples() {
    let lanes = lane_triples(&vec![10.0, 200.0, 30.0, 0.0, 150.0, 60.0]).unwrap();
    assert_eq!(lanes, vec![(10.0, 200.0, 30.0), (0.0, 150.0, 60.0)]);
    let flat: Vec<f64> = lanes.iter().flat_map(|&(l, t, r)| [l, t, r]).collect();
    assert_eq!(flat, vec![10.0, 200.0, 30.0, 0.0, 150.0, 60.0]);
    assert_eq!(lane_triples::<f64>(&vec![]).unwrap().len(), 0);
    assert_eq!(lane_triples(&vec![1.0, 2.0]), Err(LaneLayoutError::NotTriples { got: 2 }));
    assert_eq!(lane_triples(&vec![1.0; 12]), Err(LaneLayoutError::TooManyLanes { lanes: 4 }));
    assert_eq!(lane_triples(&vec![1.0; 10]), Err(LaneLayoutError::NotTriples { got: 10 }));
}

#[test]
fn roundabout_entry_fields_fill_from_the_front() {
    let slots = entry_slots(&vec![100.0, 20.0, 300.0]).unwrap();
    assert_eq!(slots.len(), 9);
    assert_eq!(slots[0], Some(100.0));
    assert_eq!(slots[2], Some(300.0));
    assert_eq!(slots[3], None);
    assert_eq!(slots[8], None);
    assert_eq!(entry_slots(&vec![0.0; 10]), Err(10));
    assert!(entry_slots(&vec![0.0; 9]).unwrap().iter().all(|s| s.is_some()));
}

#[test]
fn conflicting_flow_overrides_name_a_movement_and_a_stage() {
    assert_eq!(check_conflicting_flow_override("7", "stage1"), Ok((8, ConflictStage::Stage1)));
    assert_eq!(check_conflicting_flow_override("4u", "total"), Ok((5, ConflictStage::Total)));
    assert_eq!(check_conflicting_flow_override("12", "stage2"), Ok((13, ConflictStage::Stage2)));
    assert_eq!(check_conflicting_flow_override("13", "stage1"), Err(OverrideError::UnknownMovement));
    assert_eq!(check_conflicting_flow_override("13", "nonsense"), Err(OverrideError::UnknownMovement));
    assert_eq!(check_conflicting_flow_override("10", "Stage1"), Err(OverrideError::UnknownStage));
    for st in [ConflictStage::Total, ConflictStage::Stage1, ConflictStage::Stage2] {
        assert_eq!(check_conflicting_flow_override("1", conflict_stage_label(st)), Ok((0, st)));
    }
}
