use workspace_server::patterns::{
    decimal_string, make_search_pattern_id, Pattern, PatternCounter, PatternId, PatternStore,
};

fn pattern(source: &str) -> Pattern {
    Pattern { source: source.to_string() }
}

#[test]
fn decimal_string_writes_numbers() {
    assert_eq!(decimal_string(0), "0");
    assert_eq!(decimal_string(7), "7");
    assert_eq!(decimal_string(9), "9");
    assert_eq!(decimal_string(10), "10");
    assert_eq!(decimal_string(42), "42");
    assert_eq!(decimal_string(100), "100");
    assert_eq!(decimal_string(1234567890), "1234567890");
    assert_eq!(decimal_string(u64::MAX), "18446744073709551615");
}

#[test]
fn decimal_string_agrees_with_the_standard_library() {
    for n in (0u64..3000).chain([u64::MAX - 1, 1 << 32, 999_999, 1_000_000]) {
        assert_eq!(decimal_string(n), n.to_string());
    }
}

#[test]
fn pattern_ids_count_up_from_the_counter() {
    let mut counter = PatternCounter::new();
    assert_eq!(make_search_pattern_id(&mut counter), PatternId("p1".to_string()));
    assert_eq!(counter.text(), "2");
    assert_eq!(make_search_pattern_id(&mut counter), PatternId("p2".to_string()));
    assert_eq!(counter.text(), "3");
    let mut counter = PatternCounter::starting_at(99);
    assert_eq!(make_search_pattern_id(&mut counter).0, "p99");
    assert_eq!(make_search_pattern_id(&mut counter).0, "p100");
    assert_eq!(make_search_pattern_id(&mut counter).0, "p101");
}

#[test]
fn pattern_ids_carry_over_nines() {
    let mut counter = PatternCounter::starting_at(8);
    assert_eq!(make_search_pattern_id(&mut counter).0, "p8");
    assert_eq!(make_search_pattern_id(&mut counter).0, "p9");
    assert_eq!(make_search_pattern_id(&mut counter).0, "p10");
    assert_eq!(make_search_pattern_id(&mut counter).0, "p11");
    let mut counter = PatternCounter::starting_at(1998);
    assert_eq!(make_search_pattern_id(&mut counter).0, "p1998");
    assert_eq!(make_search_pattern_id(&mut counter).0, "p1999");
    assert_eq!(make_search_pattern_id(&mut counter).0, "p2000");
    let mut counter = PatternCounter::starting_at(0);
    assert_eq!(counter.text(), "0");
    counter.advance();
    assert_eq!(counter.text(), "1");
}

#[test]
fn pattern_ids_do_not_run_out() {
    let mut counter = PatternCounter::starting_at(u64::MAX - 1);
    assert_eq!(make_search_pattern_id(&mut counter).0, "p18446744073709551614");
    assert_eq!(make_search_pattern_id(&mut counter).0, "p18446744073709551615");
    assert_eq!(make_search_pattern_id(&mut counter).0, "p18446744073709551616");
    assert_eq!(make_search_pattern_id(&mut counter).0, "p18446744073709551617");
    assert_eq!(counter.text(), "18446744073709551618");
}

#[test]
fn counter_agrees_with_the_standard_library() {
    let mut counter = PatternCounter::starting_at(0);
    for n in 0u64..2500 {
        assert_eq!(counter.text(), n.to_string());
        counter.advance();
    }
    for n in [9u64, 10, 99, 100, 12345, 999_999, 1 << 40, u64::MAX] {
        assert_eq!(PatternCounter::starting_at(n).text(), n.to_string());
    }
}

#[test]
fn pattern_ids_are_distinct_and_well_formed() {
    let mut counter = PatternCounter::new();
    let mut seen = std::collections::HashSet::new();
    for _ in 0..500 {
        let id = make_search_pattern_id(&mut counter).0;
        assert!(id.len() >= 2);
        assert!(id.starts_with('p'));
        assert!(id[1..].chars().all(|c| c.is_ascii_digit()));
        assert!(!id[1..].starts_with('0'));
        assert!(seen.insert(id));
    }
}

#[test]
fn store_hands_out_fresh_ids() {
    let mut store = PatternStore::new();
    let first = store.parse_pattern(pattern("foo"));
    let second = store.parse_pattern(pattern("bar"));
    assert_eq!(first.0, "p1");
    assert_eq!(second.0, "p2");
    assert_eq!(store.get(&first).unwrap().source, "foo");
    assert_eq!(store.get(&second).unwrap().source, "bar");
}

#[test]
fn store_does_not_reuse_dropped_ids() {
    let mut store = PatternStore::new();
    let first = store.parse_pattern(pattern("foo"));
    store.drop_pattern(&first);
    assert!(store.get(&first).is_none());
    let second = store.parse_pattern(pattern("bar"));
    assert_eq!(second.0, "p2");
    assert!(store.get(&first).is_none());
}

#[test]
fn store_drop_of_unknown_id_changes_nothing() {
    let mut store = PatternStore::new();
    let first = store.parse_pattern(pattern("foo"));
    store.drop_pattern(&PatternId("p7".to_string()));
    store.drop_pattern(&PatternId("nonsense".to_string()));
    assert_eq!(store.get(&first).unwrap().source, "foo");
    assert!(store.get(&PatternId("p7".to_string())).is_none());
}
