use neural_galaga::effects::{
    advance_burst, advance_explosion, age_trail, hash_noise_bits, lcg32_sequence, BurstStep,
};

#[test]
fn explosion_plays_four_frames_of_six_ticks() {
    let mut state = Some((0u8, 6u8));
    let mut ticks = 0;
    let mut frames_seen = vec![];
    while let Some((frame, timer)) = state {
        frames_seen.push(frame);
        state = advance_explosion(frame, timer);
        ticks += 1;
    }
    // Created at (0, 6): 7 ticks on frame 0 (one to spend the creation tick),
    // then 6 on each of frames 1 to 3.
    assert_eq!(ticks, 25);
    assert_eq!(frames_seen.iter().filter(|&&f| f == 3).count(), 6);
    assert_eq!(advance_explosion(3, 0), None);
    assert_eq!(advance_explosion(1, 0), Some((2, 5)));
    assert_eq!(advance_explosion(2, 4), Some((2, 3)));
}

#[test]
fn burst_fires_two_more_bullets_four_ticks_apart() {
    let mut remaining = 2u8;
    let mut ticks = 4u8;
    let mut fired_at = vec![];
    for t in 0..20 {
        let s = advance_burst(remaining, ticks);
        if s.fires {
            fired_at.push(t);
        }
        if !s.keep {
            assert_eq!(t, 9);
            break;
        }
        remaining = s.remaining;
        ticks = s.ticks_until_next;
    }
    assert_eq!(fired_at, vec![4, 9]);
    assert_eq!(
        advance_burst(1, 0),
        BurstStep { fires: true, remaining: 0, ticks_until_next: 4, keep: false }
    );
}

#[test]
fn trails_fade() {
    assert_eq!(age_trail(5), Some(4));
    assert_eq!(age_trail(1), None);
}

#[test]
fn lcg32_states() {
    let v = lcg32_sequence(12345, 3);
    let mut s: u32 = 12345;
    let mut want = vec![];
    for _ in 0..3 {
        s = s.wrapping_mul(1103515245).wrapping_add(12345);
        want.push(s);
    }
    assert_eq!(v, want);
    assert!(lcg32_sequence(1, 0).is_empty());
}

#[test]
fn hash_noise_values() {
    fn mix(x: i32, y: i32, seed: u32) -> u32 {
        let mut h = (x as u32)
            .wrapping_mul(374761393)
            .wrapping_add((y as u32).wrapping_mul(668265263))
            .wrapping_add(seed.wrapping_mul(1274126177));
        h = (h ^ (h >> 13)).wrapping_mul(1103515245);
        h = h ^ (h >> 16);
        h & 0xFFFF
    }
    for (x, y, seed) in [(0, 0, 0), (5, 9, 7919), (-3, 1000, 79190), (223, 287, 1)] {
        assert_eq!(hash_noise_bits(x, y, seed), mix(x, y, seed));
    }
    assert_eq!(hash_noise_bits(0, 0, 0), 0);
}
