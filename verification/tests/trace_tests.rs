use wnav_core::trace::{trace_depth, group_by_case, hash32_or_zero, nonconformance_lot_ids, summarize_case_trace, tally_chain_verification};

#[test]
fn case_trace_summaries() {
    assert_eq!(summarize_case_trace(&[]), (true, vec![]));
    assert_eq!(summarize_case_trace(&[(1, true), (2, true)]), (true, vec![]));
    assert_eq!(summarize_case_trace(&[(1, true), (2, false), (3, true), (4, false)]), (false, vec![2, 4]));
}

#[test]
fn lot_nonconformances() {
    let lots = vec![("L".to_string(), 0), ("U1".to_string(), 2), ("U2".to_string(), 0), ("U3".to_string(), 1)];
    assert_eq!(nonconformance_lot_ids(lots), vec!["U1".to_string(), "U3".to_string()]);
    assert_eq!(nonconformance_lot_ids(vec![("L".to_string(), 3)]), vec!["L".to_string()]);
    assert!(nonconformance_lot_ids(vec![("L".to_string(), -3)]).is_empty());
    assert!(nonconformance_lot_ids(vec![]).is_empty());
}

#[test]
fn lot_trace_depths() {
    assert_eq!(trace_depth(&[]), 0);
    assert_eq!(trace_depth(&[0]), 0);
    assert_eq!(trace_depth(&[0, 1, 1, 3, 2]), 3);
}

#[test]
fn hash_columns() {
    let h: Vec<u8> = (0..32).collect();
    assert_eq!(hash32_or_zero(&h).to_vec(), h);
    assert_eq!(hash32_or_zero(&[1, 2, 3]), [0u8; 32]);
    assert_eq!(hash32_or_zero(&[]), [0u8; 32]);
    assert_eq!(hash32_or_zero(&[9u8; 33]), [0u8; 32]);
}

#[test]
fn groups_by_case_in_first_appearance_order() {
    let rows = vec![(5u128, 'a'), (3, 'b'), (5, 'c'), (7, 'd'), (3, 'e')];
    let g = group_by_case(rows);
    assert_eq!(g, vec![(5, vec!['a', 'c']), (3, vec!['b', 'e']), (7, vec!['d'])]);
    let empty: Vec<(u128, u8)> = vec![];
    assert!(group_by_case(empty).is_empty());
}

#[test]
fn chain_tallies() {
    let t = tally_chain_verification(12, &[(1, true), (2, false), (3, false)]);
    assert_eq!(t.verified_count, 12);
    assert_eq!(t.broken_count, 2);
    assert_eq!(t.broken_case_ids, vec![2, 3]);
    let t = tally_chain_verification(0, &[]);
    assert_eq!((t.verified_count, t.broken_count), (0, 0));
}

