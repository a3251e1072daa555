use level_frontend::chips::{pick_offered, remove_chip};
use level_frontend::keys::{chips_key, KEY_BACKSPACE, KEY_ENTER};
use level_frontend::matching::{get_possible_options, limit_options, option_match};

#[test]
fn option_match_scores() {
    assert_eq!(option_match("Rust", "rust"), Some(0));
    assert_eq!(option_match("JavaScript", "js"), Some(5));
    assert_eq!(option_match("JavaScript", "jv"), Some(3));
    assert_eq!(option_match("javascript", "JS"), Some(5));
    assert_eq!(option_match("Go", "rust"), None);
    assert_eq!(option_match("Go", ""), None);
    assert_eq!(option_match("", ""), Some(0));
}

#[test]
fn limit_options_prefix() {
    let v = [1, 2, 3, 4];
    assert_eq!(limit_options(&v, Some(2)), &[1, 2]);
    assert_eq!(limit_options(&v, Some(9)), &[1, 2, 3, 4]);
    assert_eq!(limit_options(&v, None), &[1, 2, 3, 4]);
}

#[test]
fn possible_options_ranked() {
    let all: Vec<String> = ["C", "C++", "C#", "Java", "JavaScript/TypeScript", "Python", "Go", "Rust"]
        .iter()
        .map(|s| s.to_string())
        .collect();
    assert_eq!(get_possible_options(&all, &[3, 6, 7], "", None, None), vec![0, 1, 2, 4, 5]);
    assert_eq!(get_possible_options(&all, &[3, 6, 7], "", Some(2), None), vec![0, 1]);
    assert_eq!(get_possible_options(&all, &[], "c", None, None), vec![0, 1, 2, 4]);
    assert_eq!(get_possible_options(&all, &[], "t", None, None), vec![5, 7, 4]);
    assert_eq!(get_possible_options(&all, &[0, 1], "c", None, Some(2)), Vec::<usize>::new());
}

#[test]
fn chips_stay_valid_through_actions() {
    let all: Vec<String> = ["C", "C++", "C#", "Java"].iter().map(|s| s.to_string()).collect();
    let max = Some(3);
    let mut chips: Vec<usize> = vec![1];
    let offered = get_possible_options(&all, &chips, "", None, max);
    assert_eq!(offered, vec![0, 2, 3]);
    let (picked, typed) = pick_offered(chips, &offered, 1);
    chips = picked;
    assert_eq!(chips, vec![1, 2]);
    assert_eq!(typed, "");
    let offered = get_possible_options(&all, &chips, "", None, max);
    chips = chips_key(true, chips, true, &offered, None, KEY_ENTER).chips;
    assert_eq!(chips, vec![1, 2, 0]);
    let offered = get_possible_options(&all, &chips, "", None, max);
    assert!(offered.is_empty());
    assert_eq!(chips_key(true, chips.clone(), true, &offered, None, KEY_ENTER).chips, vec![1, 2, 0]);
    chips = remove_chip(chips, 0);
    assert_eq!(chips, vec![2, 0]);
    chips = chips_key(true, chips, true, &offered, None, KEY_BACKSPACE).chips;
    assert_eq!(chips, vec![2]);
}
