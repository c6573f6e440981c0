use neural_galaga::shield::{absorb_hit, Shield, ShieldLevel};

#[test]
fn new_shield_is_full() {
    let s = Shield::new(42);
    assert_eq!(s.level, ShieldLevel::Full);
    assert_eq!(s.phase, 42);
}

#[test]
fn hit_goes_full_damaged_critical_then_breaks() {
    let mut s = Shield::new(0);
    assert!(s.hit());
    assert_eq!(s.level, ShieldLevel::Damaged);
    assert!(s.hit());
    assert_eq!(s.level, ShieldLevel::Critical);
    assert!(!s.hit());
    assert_eq!(s.level, ShieldLevel::Critical);
    assert_eq!(s.phase, 0);
}

#[test]
fn only_critical_shields_blink_every_ten_frames() {
    let full = Shield::new(3);
    assert!(full.blink_on(7));
    let crit = Shield { level: ShieldLevel::Critical, phase: 3 };
    assert!(crit.blink_on(6)); // (6 + 3) / 10 = 0
    assert!(!crit.blink_on(7)); // (7 + 3) / 10 = 1
    assert!(crit.blink_on(17)); // 20 / 10 = 2
}

#[test]
fn radius_pulses_over_thirty_frames() {
    let s = Shield::new(0);
    let radii: Vec<u32> = (0..5).map(|k| s.radius(k * 6)).collect();
    assert_eq!(radii, vec![9, 10, 11, 10, 9]);
    assert_eq!(s.radius(30), 9);
    let shifted = Shield::new(6);
    assert_eq!(shifted.radius(0), 10);
}

#[test]
fn absorb_hit_removes_a_broken_shield() {
    let mut none: Option<Shield> = None;
    assert!(!absorb_hit(&mut none));
    assert!(none.is_none());
    let mut s = Some(Shield { level: ShieldLevel::Damaged, phase: 5 });
    assert!(absorb_hit(&mut s));
    assert_eq!(s, Some(Shield { level: ShieldLevel::Critical, phase: 5 }));
    assert!(absorb_hit(&mut s));
    assert!(s.is_none());
}
