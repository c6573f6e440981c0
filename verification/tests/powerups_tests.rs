use neural_galaga::powerups::{random_powerup, reset_seed, PowerupKind, LCG_MULTIPLIER};

fn step(s: u64) -> u64 {
    s.wrapping_mul(6364136223846793005).wrapping_add(1)
}

#[test]
fn kinds_by_index() {
    let kinds: Vec<PowerupKind> = (0..8).map(PowerupKind::from_index).collect();
    assert_eq!(
        kinds,
        vec![
            PowerupKind::Life,
            PowerupKind::Rate,
            PowerupKind::Speed,
            PowerupKind::Double,
            PowerupKind::Triple,
            PowerupKind::Shield,
            PowerupKind::Shield,
            PowerupKind::Shield
        ]
    );
    assert_eq!(PowerupKind::Triple.index(), 4);
}

#[test]
fn reset_seed_is_one_generator_step() {
    assert_eq!(LCG_MULTIPLIER, 6364136223846793005);
    assert_eq!(reset_seed(0), 1);
    assert_eq!(reset_seed(1), 6364136223846793006);
    assert_eq!(reset_seed(u64::MAX), step(u64::MAX));
}

#[test]
fn random_powerup_follows_three_draws() {
    for seed in [0u64, 1, 7, 12345, u64::MAX, 0xdead_beef_cafe] {
        let s1 = step(seed);
        let s2 = step(s1);
        let s3 = step(s2);
        let kind = PowerupKind::from_index(((s1 >> 33) as u32 % 6) as u64);
        let x = (s2 >> 33) as u32 % 208;
        let y = (s3 >> 33) as u32 % 272;
        assert_eq!(random_powerup(seed), (kind, x, y));
        assert!(x + 16 <= 224 && y + 16 <= 288);
    }
}

#[test]
fn random_powerup_seed_zero() {
    // s1 = 1, s2 = M + 1, s3 = (M + 1) * M + 1 (wrapping).
    let (kind, x, y) = random_powerup(0);
    assert_eq!(kind, PowerupKind::Life);
    assert_eq!(x, ((6364136223846793006u64 >> 33) as u32) % 208);
    assert_eq!(y, ((step(6364136223846793006) >> 33) as u32) % 272);
}
