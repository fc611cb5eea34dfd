use niri_zones::layout::{find_zone, ZoneId};
use niri_zones::text::text_eq_ignore_ascii_case;

fn labels() -> Vec<(ZoneId, String)> {
    vec![
        (ZoneId::from("1"), "Left".to_string()),
        (ZoneId::from("2"), "Right".to_string()),
        (ZoneId::from("main"), "2".to_string()),
    ]
}

#[test]
fn zones_are_found_by_id_or_name_ignoring_case() {
    let zones = labels();
    assert_eq!(find_zone(&zones, "2"), Some(1));
    assert_eq!(find_zone(&zones, "left"), Some(0));
    assert_eq!(find_zone(&zones, "RIGHT"), Some(1));
    assert_eq!(find_zone(&zones, "main"), Some(2));
    assert_eq!(find_zone(&zones, "MAIN"), None);
    assert_eq!(find_zone(&zones, "center"), None);
}

#[test]
fn ascii_case_folding_leaves_other_characters() {
    assert!(text_eq_ignore_ascii_case("Stack", "sTACK"));
    assert!(!text_eq_ignore_ascii_case("Ärger", "ärger"));
    assert!(!text_eq_ignore_ascii_case("ab", "abc"));
    assert!(text_eq_ignore_ascii_case("", ""));
}
