use std::collections::HashSet;

use xibt::id::{fold_into_id, gen};

#[test]
fn id_folding() {
    assert_eq!(
        fold_into_id("abcdefghi".chars().collect()),
        "xibt_gen-abc-def-ghi"
    )
}

#[test]
fn folding_nothing_leaves_the_bare_prefix() {
    assert_eq!(fold_into_id(Vec::new()), "xibt_gen");
}

#[test]
fn folding_a_short_tail_keeps_the_remainder_as_a_last_group() {
    assert_eq!(fold_into_id("abcd".chars().collect()), "xibt_gen-abc-d");
    assert_eq!(fold_into_id("ab".chars().collect()), "xibt_gen-ab");
}

fn is_grouped_triple_format(id: &str) -> bool {
    let bytes = id.as_bytes();
    if bytes.len() != 20 || !id.starts_with("xibt_gen-") {
        return false;
    }
    if bytes[8] != b'-' || bytes[12] != b'-' || bytes[16] != b'-' {
        return false;
    }
    let payload: Vec<u8> = [&bytes[9..12], &bytes[13..16], &bytes[17..20]].concat();
    let distinct: HashSet<u8> = payload.iter().copied().collect();
    distinct.len() == 9 && payload.iter().all(|b| b.is_ascii_alphanumeric())
}

#[test]
fn id_uniqueness_statistical() {
    let mut seen: HashSet<String> = HashSet::new();
    for _ in 0..10_000 {
        let id = gen();
        assert!(is_grouped_triple_format(&id), "bad id format: {}", id);
        assert!(seen.insert(id));
    }
    assert_eq!(seen.len(), 10_000);
}
