use neural_galaga::enemies::{
    choose_diver, choose_shooter, enemy_dive_interval_ms, formation_slots, powerup_drop,
    shot_kind, EnemyClass, EntryPattern, ShooterInfo, ShotKind, WaveConfig, FORMATION_SIZE,
};
use neural_galaga::powerups::PowerupKind;
use neural_galaga::shield::ShieldLevel;

#[test]
fn wave_configs() {
    let w1 = WaveConfig::for_wave(1);
    assert_eq!(w1.wave, 1);
    assert_eq!(
        w1.row_classes,
        [EnemyClass::White, EnemyClass::Red, EnemyClass::Yellow, EnemyClass::Green]
    );
    assert_eq!(w1.shielded_rows, 1);
    assert_eq!(w1.pattern, EntryPattern::DualArc);
    assert_eq!(
        WaveConfig::for_wave(2).row_classes,
        [EnemyClass::White, EnemyClass::Red, EnemyClass::Yellow, EnemyClass::Yellow]
    );
    assert_eq!(
        WaveConfig::for_wave(3).row_classes,
        [EnemyClass::White, EnemyClass::Red, EnemyClass::Red, EnemyClass::Yellow]
    );
    let w4 = WaveConfig::for_wave(4);
    let w9 = WaveConfig::for_wave(9);
    assert_eq!(w4.row_classes, w9.row_classes);
    assert_eq!(w4.row_classes, [EnemyClass::White, EnemyClass::White, EnemyClass::Red, EnemyClass::Red]);
    assert_eq!(WaveConfig::for_wave(3).shielded_rows, 3);
    assert_eq!(w9.shielded_rows, 4);
    assert_eq!(WaveConfig::for_wave(0).shielded_rows, 0);
}

#[test]
fn classes_by_row_and_sprite_rows() {
    assert_eq!(EnemyClass::from_row(0), EnemyClass::White);
    assert_eq!(EnemyClass::from_row(1), EnemyClass::Red);
    assert_eq!(EnemyClass::from_row(2), EnemyClass::Yellow);
    assert_eq!(EnemyClass::from_row(3), EnemyClass::Green);
    assert_eq!(EnemyClass::from_row(100), EnemyClass::Green);
    assert_eq!(EnemyClass::Yellow.sprite_row(), 1);
    assert_eq!(EnemyClass::Red.sprite_row(), 0);
    assert_eq!(EnemyClass::Green.sprite_row(), 2);
    assert_eq!(EnemyClass::White.sprite_row(), 3);
    assert_eq!(EnemyClass::White.class_index(), 3);
}

#[test]
fn class_stats() {
    assert_eq!(EnemyClass::Green.stats().score, 50);
    assert_eq!(EnemyClass::Yellow.stats().score, 100);
    assert_eq!(EnemyClass::Red.stats().score, 200);
    let white = EnemyClass::White.stats();
    assert_eq!(white.score, 400);
    assert_eq!(white.fire_weight, 5);
    assert_eq!(white.dive_speed_pct, 150);
    assert_eq!(white.bullet_speed_pct, 140);
    assert!(white.has_shield);
    assert!(!EnemyClass::Green.stats().has_shield);
}

#[test]
fn dive_intervals() {
    let got: Vec<u32> = (0..8).map(enemy_dive_interval_ms).collect();
    assert_eq!(got, vec![300, 2500, 2000, 1500, 1000, 500, 300, 300]);
}

#[test]
fn formation_layout_of_wave_one() {
    let slots = formation_slots(&WaveConfig::for_wave(1));
    assert_eq!(slots.len(), FORMATION_SIZE);
    // Row 0: 10 slots from x = 23, y = 40.
    assert_eq!((slots[0].row, slots[0].col, slots[0].home_x, slots[0].home_y), (0, 0, 23, 40));
    assert_eq!(slots[9].home_x, 23 + 9 * 18);
    // Row 1: 8 slots from x = 41, y = 58.
    assert_eq!((slots[10].row, slots[10].col, slots[10].home_x, slots[10].home_y), (1, 0, 41, 58));
    assert_eq!(slots[17].home_x, 41 + 7 * 18);
    // Rows 2 and 3.
    assert_eq!((slots[18].row, slots[18].home_x, slots[18].home_y), (2, 23, 76));
    assert_eq!((slots[28].row, slots[28].home_x, slots[28].home_y), (3, 41, 94));
    // Streams and their order.
    assert_eq!((slots[0].stream, slots[0].spawn_index), (0, 0));
    assert_eq!((slots[17].stream, slots[17].spawn_index), (0, 17));
    assert_eq!((slots[18].stream, slots[18].spawn_index), (1, 0));
    assert_eq!((slots[35].stream, slots[35].spawn_index), (1, 17));
    // Classes.
    assert_eq!(slots[0].class, EnemyClass::White);
    assert_eq!(slots[35].class, EnemyClass::Green);
    // Only the bottom row is shielded in wave 1, with phase 7 * index.
    assert!(slots[..28].iter().all(|s| s.shield.is_none()));
    for (i, s) in slots.iter().enumerate().skip(28) {
        let sh = s.shield.expect("bottom row shielded");
        assert_eq!(sh.level, ShieldLevel::Full);
        assert_eq!(sh.phase, i as u64 * 7);
    }
}

#[test]
fn formation_rows_are_centred() {
    let slots = formation_slots(&WaveConfig::for_wave(4));
    for (first, last) in [(0usize, 9usize), (10, 17), (18, 27), (28, 35)] {
        assert_eq!(slots[first].home_x, 224 - (slots[last].home_x + 16));
    }
    assert_eq!(slots.iter().filter(|s| s.shield.is_some()).count(), 36);
}

#[test]
fn diver_is_picked_among_eligible_by_frame() {
    let eligible = [false, true, false, true, true];
    assert_eq!(choose_diver(&eligible, 0), Some(1));
    assert_eq!(choose_diver(&eligible, 1), Some(3));
    assert_eq!(choose_diver(&eligible, 2), Some(4));
    assert_eq!(choose_diver(&eligible, 3), Some(1));
    assert_eq!(choose_diver(&[false, false], 7), None);
    assert_eq!(choose_diver(&[], 7), None);
}

#[test]
fn shooters_are_weighted() {
    let idle = ShooterInfo { eligible: true, moving: false, white: false };
    let moving = ShooterInfo { eligible: true, moving: true, white: false };
    let white_moving = ShooterInfo { eligible: true, moving: true, white: true };
    let gone = ShooterInfo { eligible: false, moving: true, white: false };
    let s = [idle, gone, moving, white_moving];
    // Draw list: [0] + [2; 100] + [3; 20] = 121 entries.
    assert_eq!(choose_shooter(&s, 0), Some(0));
    assert_eq!(choose_shooter(&s, 1), Some(2));
    assert_eq!(choose_shooter(&s, 100), Some(2));
    assert_eq!(choose_shooter(&s, 101), Some(3));
    assert_eq!(choose_shooter(&s, 120), Some(3));
    assert_eq!(choose_shooter(&s, 121), Some(0));
    assert_eq!(choose_shooter(&[gone], 5), None);
}

#[test]
fn shot_kinds() {
    assert_eq!(shot_kind(EnemyClass::White, 12), ShotKind::Shotgun);
    assert_eq!(shot_kind(EnemyClass::White, 13), ShotKind::Single);
    assert_eq!(shot_kind(EnemyClass::Red, 12), ShotKind::Burst);
    assert_eq!(shot_kind(EnemyClass::Yellow, 0), ShotKind::Single);
    assert_eq!(shot_kind(EnemyClass::Green, 0), ShotKind::Single);
}

#[test]
fn powerup_drops() {
    assert_eq!(powerup_drop(EnemyClass::Red, 0), Some(PowerupKind::Life));
    assert_eq!(powerup_drop(EnemyClass::White, 10), Some(PowerupKind::Double)); // 10/3 = 3
    assert_eq!(powerup_drop(EnemyClass::Red, 30), Some(PowerupKind::Triple)); // 10 % 6 = 4
    assert_eq!(powerup_drop(EnemyClass::White, 40), Some(PowerupKind::Rate)); // 13 % 6 = 1
    assert_eq!(powerup_drop(EnemyClass::Red, 60), Some(PowerupKind::Speed)); // 20 % 6 = 2
    assert_eq!(powerup_drop(EnemyClass::White, 70), Some(PowerupKind::Shield)); // 23 % 6 = 5
    assert_eq!(powerup_drop(EnemyClass::Red, 11), None);
    assert_eq!(powerup_drop(EnemyClass::Yellow, 10), None);
    assert_eq!(powerup_drop(EnemyClass::Green, 0), None);
}
