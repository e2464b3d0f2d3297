use skill_stake::meets_difficulty;

fn hash_with(prefix: &[u8], rest: u8) -> [u8; 32] {
    let mut h = [rest; 32];
    h[..prefix.len()].copy_from_slice(prefix);
    h
}

#[test]
fn difficulty_zero_is_always_met() {
    assert!(meets_difficulty(&[0xff; 32], 0));
    assert!(meets_difficulty(&[0x00; 32], 0));
    assert!(meets_difficulty(&hash_with(&[0x80], 0x55), 0));
}

#[test]
fn difficulty_eight_looks_at_the_first_byte() {
    assert!(meets_difficulty(&hash_with(&[0x00], 0xff), 8));
    assert!(!meets_difficulty(&hash_with(&[0x01], 0x00), 8));
    assert!(meets_difficulty(&hash_with(&[0x01], 0x00), 7));
    assert!(!meets_difficulty(&hash_with(&[0x80], 0x00), 1));
    assert!(meets_difficulty(&hash_with(&[0x7f], 0xff), 1));
    assert!(!meets_difficulty(&hash_with(&[0x7f], 0xff), 2));
}

#[test]
fn difficulty_counts_every_width_of_the_first_byte() {
    let firsts: [u8; 9] = [0x80, 0x40, 0x20, 0x10, 0x08, 0x04, 0x02, 0x01, 0x00];
    for (zeros, first) in firsts.iter().enumerate() {
        let h = hash_with(&[*first], 0xff);
        for difficulty in 0..=8u8 {
            assert_eq!(meets_difficulty(&h, difficulty), (difficulty as usize) <= zeros);
        }
    }
}

#[test]
fn difficulty_runs_over_byte_boundaries() {
    let h = hash_with(&[0x00, 0x00, 0x1f], 0xff);
    assert!(meets_difficulty(&h, 16));
    assert!(meets_difficulty(&h, 19));
    assert!(!meets_difficulty(&h, 20));
    assert!(!meets_difficulty(&h, 24));

    let g = hash_with(&[0x00, 0xff, 0x00], 0x00);
    assert!(meets_difficulty(&g, 8));
    assert!(!meets_difficulty(&g, 9));
}

#[test]
fn difficulty_at_the_ceiling() {
    let mut h = [0u8; 32];
    h[31] = 0xff;
    assert!(meets_difficulty(&h, 248));
    assert!(!meets_difficulty(&h, 249));
    h[30] = 0x01;
    assert!(meets_difficulty(&h, 247));
    assert!(!meets_difficulty(&h, 248));
}

#[test]
fn difficulty_of_the_zero_hash_is_always_met() {
    assert!(meets_difficulty(&[0u8; 32], 248));
    assert!(meets_difficulty(&[0u8; 32], 255));
}
