use crosstraffic_wasm::signalized::{approach_plan, first_direction_match, LeftTurnMode, LeftTurnSequence};

fn lanes() -> Vec<u32> {
    // NB: excl left 1, through 2, excl right 0; SB: 0, 0, 1; EB: 0, 1, 0; WB: 1, 3, 1
    vec![1, 2, 0, 0, 0, 1, 0, 1, 0, 1, 3, 1]
}

#[test]
fn protected_left_needs_an_exclusive_lane_and_a_left_phase() {
    let p = approach_plan(&lanes(), 0, true, false, true, true);
    assert_eq!(p.mode, LeftTurnMode::Protected);
    assert_eq!(p.sequence, LeftTurnSequence::LeadLead);
    assert_eq!(p.left_phase_no, Some(3));
    assert_eq!(p.through_phase_no, 8);
    assert!(!p.shared_left);
    assert!(p.shared_right);
    assert_eq!(p.receiving, 3);
    let q = approach_plan(&lanes(), 0, true, false, false, false);
    assert_eq!(q.mode, LeftTurnMode::Permitted);
    assert_eq!(q.left_phase_no, None);
    assert_eq!(q.receiving, 2);
}

#[test]
fn no_left_demand_and_no_left_lane_means_no_left_turn() {
    let p = approach_plan(&lanes(), 1, false, true, false, true);
    assert_eq!(p.mode, LeftTurnMode::NotPresent);
    assert_eq!(p.sequence, LeftTurnSequence::PermPerm);
    assert_eq!(p.through, 1);
    assert_eq!(p.receiving, 1);
    assert_eq!(p.through_phase_no, 4);
}

#[test]
fn left_demand_without_a_lane_shares_the_through_lane() {
    let p = approach_plan(&lanes(), 2, true, false, true, true);
    assert_eq!(p.mode, LeftTurnMode::Permitted);
    assert!(p.shared_left);
    assert!(p.shared_right);
    assert_eq!(p.receiving, 2);
    assert_eq!(p.through_phase_no, 2);
}

#[test]
fn a_left_volume_that_is_not_a_number_is_present_but_not_demand() {
    // v_l = NaN: neither positive nor nonpositive.
    let p = approach_plan(&lanes(), 2, false, false, false, true);
    assert_eq!(p.mode, LeftTurnMode::Permitted);
    assert!(!p.shared_left);
}

#[test]
fn west_approach_phase_numbers() {
    let p = approach_plan(&lanes(), 3, true, false, true, true);
    assert_eq!(p.left_phase_no, Some(1));
    assert_eq!(p.through_phase_no, 6);
    assert!(!p.shared_right);
    assert_eq!(p.receiving, 3);
}

#[test]
fn direction_lookup_uppercases_the_query_and_takes_the_first_match() {
    let names: Vec<String> = ["NB", "SB", "EB", "SB"].iter().map(|s| s.to_string()).collect();
    assert_eq!(first_direction_match(&names, "sb"), Some(1));
    assert_eq!(first_direction_match(&names, "Eb"), Some(2));
    assert_eq!(first_direction_match(&names, "WB"), None);
    assert_eq!(first_direction_match(&vec![], "NB"), None);
}
