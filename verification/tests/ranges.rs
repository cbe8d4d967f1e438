use toxic_order_monitor::keyed::Keyed;
use toxic_order_monitor::ranges::{coalesce_lifecycle_flow_ranges, coalesce_ranges};

#[test]
fn lifecycle_flow_ranges_keep_separated_events_disjoint() {
    let mut ranges = Keyed::new();
    ranges.insert(
        "BTC".to_string(),
        vec![(1_000, 5_000), (4_000, 7_000), (60_000, 65_000)],
    );

    let merged = coalesce_lifecycle_flow_ranges(ranges);

    assert_eq!(
        merged.get("BTC"),
        Some(&vec![(1_000, 7_000), (60_000, 65_000)])
    );
}

#[test]
fn ranges_within_a_second_join_and_reversed_ends_are_ordered() {
    let merged = coalesce_ranges(&vec![(9_000, 8_000), (1_000, 2_000), (3_000, 4_000)]);
    assert_eq!(merged, vec![(1_000, 4_000), (8_000, 9_000)]);
    let gap = coalesce_ranges(&vec![(0, 1_000), (2_001, 3_000)]);
    assert_eq!(gap, vec![(0, 1_000), (2_001, 3_000)]);
    let touching = coalesce_ranges(&vec![(0, 1_000), (2_000, 3_000)]);
    assert_eq!(touching, vec![(0, 3_000)]);
    assert_eq!(coalesce_ranges(&Vec::new()), Vec::<(i64, i64)>::new());
}

#[test]
fn merged_ranges_are_ordered_and_separated() {
    let input = vec![
        (50, 10),
        (i64::MAX - 10, i64::MAX),
        (i64::MIN, i64::MIN + 5),
        (400, 900),
        (3_000, 3_500),
    ];
    let merged = coalesce_ranges(&input);
    for window in merged.windows(2) {
        assert!(window[0].0 <= window[0].1);
        assert!(window[1].0 > window[0].1.saturating_add(1_000));
    }
    assert_eq!(merged.len(), 4);
    assert_eq!(merged[1], (10, 900));
}
