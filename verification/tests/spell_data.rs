use revenant::spell_data::{circle_data_key, circle_name, is_known, spell_circle};

#[test]
fn test_spell_circle() {
    assert_eq!(spell_circle(101), 1);
    assert_eq!(spell_circle(199), 1);
    assert_eq!(spell_circle(901), 9);
    assert_eq!(spell_circle(1700), 17);
    assert_eq!(spell_circle(1005), 10);
}

#[test]
fn test_circle_name() {
    assert_eq!(circle_name(1), "Minor Spirit");
    assert_eq!(circle_name(9), "Wizard");
    assert_eq!(circle_name(17), "Arcane");
}

#[test]
fn test_is_known() {
    let ranks = vec![("minor_spiritual".to_string(), 20i64)];
    assert!(is_known(101, &ranks, 100));
    assert!(!is_known(101, &ranks, 0));
    let empty: Vec<(String, i64)> = vec![];
    assert!(!is_known(101, &empty, 100));
}

#[test]
fn circle_keys_and_unknown_circles() {
    assert_eq!(circle_data_key(1), Some("minor_spiritual"));
    assert_eq!(circle_data_key(16), Some("paladin"));
    assert_eq!(circle_data_key(17), None);
    assert_eq!(circle_name(8), "Unknown");
    let ranks = vec![("arcane".to_string(), 50i64)];
    assert!(!is_known(1701, &ranks, 100));
}

#[test]
fn known_uses_smaller_of_ranks_and_level() {
    let ranks = vec![("wizard".to_string(), 10i64)];
    assert!(is_known(910, &ranks, 50));
    assert!(!is_known(911, &ranks, 50));
    assert!(!is_known(910, &ranks, 9));
}
