use crosstraffic_wasm::grid::{get_or, grid_get, overlay, paired, resized};
use crosstraffic_wasm::options::{given_group, given_or, given_or_keep};
use crosstraffic_wasm::text::{ascii_lower, ascii_upper, chars_eq, split_commas, str_eq, strip_separators};

#[test]
fn str_eq_compares_characters() {
    assert!(str_eq("weave", "weave"));
    assert!(!str_eq("weave", "weaving"));
    assert!(!str_eq("Weave", "weave"));
    assert!(str_eq("", ""));
}

#[test]
fn chars_eq_compares_a_buffer_with_a_literal() {
    let v: Vec<char> = "merge".chars().collect();
    assert!(chars_eq(&v, "merge"));
    assert!(!chars_eq(&v, "merg"));
}

#[test]
fn ascii_case_maps_only_ascii_letters() {
    let up: String = ascii_upper("eB-ä1").into_iter().collect();
    assert_eq!(up, "EB-ä1");
    let low: String = ascii_lower("NB_Ä").into_iter().collect();
    assert_eq!(low, "nb_Ä");
}

#[test]
fn separators_are_removed() {
    let s: String = strip_separators("on - ramp_x").into_iter().collect();
    assert_eq!(s, "onrampx");
}

#[test]
fn split_commas_keeps_empty_fields() {
    assert_eq!(split_commas("basic, ramp,,weave"), vec!["basic", " ramp", "", "weave"]);
    assert_eq!(split_commas(""), vec![""]);
    assert_eq!(split_commas(","), vec!["", ""]);
}

#[test]
fn grid_get_reads_inside_and_reports_absent_outside() {
    let t = vec![vec![1.5, 2.5], vec![3.5]];
    assert_eq!(grid_get(&t, 0, 1), Some(2.5));
    assert_eq!(grid_get(&t, 1, 1), None);
    assert_eq!(grid_get(&t, 2, 0), None);
    assert_eq!(grid_get(&t, 1, 0).unwrap_or(0.0), 3.5);
}

#[test]
fn get_or_and_resized_pad_with_the_fallback() {
    let v = vec![4u32, 5];
    assert_eq!(get_or(&v, 1, 3), 5);
    assert_eq!(get_or(&v, 7, 3), 3);
    assert_eq!(resized(&v, 4, 0), vec![4, 5, 0, 0]);
    assert_eq!(resized(&vec![1.0, 2.0, 3.0], 2, 0.0), vec![1.0, 2.0]);
}

#[test]
fn options_replace_only_when_given() {
    assert_eq!(given_or(Some(2.0), 1.0), 2.0);
    assert_eq!(given_or(None, 1.0), 1.0);
    assert_eq!(given_or_keep(None, Some(7u32)), Some(7));
    assert_eq!(given_or_keep(Some(3u32), Some(7)), Some(3));
    assert_eq!(given_or_keep::<u32>(None, None), None);
}

#[test]
fn overlay_replaces_the_front_as_far_as_given_and_limit_reach() {
    let current = vec![1, 2, 3, 4, 5];
    assert_eq!(overlay(&current, &vec![9, 8], 5), vec![9, 8, 3, 4, 5]);
    assert_eq!(overlay(&current, &vec![9, 8, 7, 6, 5, 4, 3], 3), vec![9, 8, 7, 4, 5]);
    assert_eq!(overlay(&current, &Vec::new(), 5), current);
    assert_eq!(overlay(&vec![0.5f64, 0.5], &vec![1.0, 0.0, 0.0], 5), vec![1.0, 0.0]);
}

#[test]
fn paired_stops_at_the_shorter_list() {
    assert_eq!(paired(&vec![1, 2, 3], &vec!['a', 'b']), vec![(1, 'a'), (2, 'b')]);
    assert_eq!(paired(&vec![10.0f64], &vec![20.0f64, 30.0]), vec![(10.0, 20.0)]);
    assert!(paired(&Vec::<u8>::new(), &vec![1u8]).is_empty());
}

#[test]
fn a_detail_counts_only_with_its_lead() {
    assert_eq!(given_group(Some(0.8f64), Some(4.0f64)), Some((0.8, Some(4.0))));
    assert_eq!(given_group(Some(0.8f64), None::<f64>), Some((0.8, None)));
    assert_eq!(given_group(None::<f64>, Some(4.0f64)), None);
}
