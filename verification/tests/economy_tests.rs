use neural_galaga::actions::Action;
use neural_galaga::economy::{
    apply_powerup, volley_offsets, Ledger, MultiplierChange, PlayerUpgrades, PowerupInventory, Strike,
    PLAYER_LIVES,
};
use neural_galaga::enemies::EnemyClass;
use neural_galaga::powerups::PowerupKind;
use neural_galaga::shield::{Shield, ShieldLevel};

fn ledger() -> Ledger {
    Ledger::new(1)
}

#[test]
fn new_ledger() {
    let l = ledger();
    assert_eq!(l.score, 0);
    assert_eq!(l.lives, PLAYER_LIVES);
    assert_eq!(l.currency, 0);
    assert_eq!(l.upgrades, PlayerUpgrades { fire_rate_stacks: 0, speed_stacks: 0, bullet_count: 2 });
    assert_eq!(l.inventory, PowerupInventory::empty());
    assert_eq!(l.shield, Some(Shield::new(0)));
    assert_eq!(l.wave, 1);
    assert!(!l.lost);
}

#[test]
fn powerups_apply_or_go_to_inventory() {
    let mut u = PlayerUpgrades { fire_rate_stacks: 1, speed_stacks: 2, bullet_count: 2 };
    let mut inv = PowerupInventory::empty();
    let mut lives = 3u32;
    let mut shield: Option<Shield> = None;
    assert_eq!(
        apply_powerup(PowerupKind::Rate, &mut u, &mut inv, &mut lives, &mut shield, 5),
        MultiplierChange::FireRateUp
    );
    assert_eq!(u.fire_rate_stacks, 2);
    assert_eq!(
        apply_powerup(PowerupKind::Rate, &mut u, &mut inv, &mut lives, &mut shield, 5),
        MultiplierChange::Unchanged
    );
    assert_eq!((u.fire_rate_stacks, inv.rate), (2, 1));
    apply_powerup(PowerupKind::Speed, &mut u, &mut inv, &mut lives, &mut shield, 5);
    assert_eq!((u.speed_stacks, inv.speed), (2, 1));
    apply_powerup(PowerupKind::Double, &mut u, &mut inv, &mut lives, &mut shield, 5);
    assert_eq!((u.bullet_count, inv.double), (2, 1));
    apply_powerup(PowerupKind::Triple, &mut u, &mut inv, &mut lives, &mut shield, 5);
    assert_eq!((u.bullet_count, inv.triple), (3, 0));
    apply_powerup(PowerupKind::Double, &mut u, &mut inv, &mut lives, &mut shield, 5);
    assert_eq!((u.bullet_count, inv.double), (3, 2));
    apply_powerup(PowerupKind::Shield, &mut u, &mut inv, &mut lives, &mut shield, 5);
    assert_eq!(shield, Some(Shield { level: ShieldLevel::Full, phase: 5 }));
    apply_powerup(PowerupKind::Shield, &mut u, &mut inv, &mut lives, &mut shield, 9);
    assert_eq!(inv.shield, 1);
    assert_eq!(shield.unwrap().phase, 5);
    apply_powerup(PowerupKind::Life, &mut u, &mut inv, &mut lives, &mut shield, 9);
    assert_eq!(lives, 4);
}

#[test]
fn inventory_saturates() {
    let mut u = PlayerUpgrades { fire_rate_stacks: 2, speed_stacks: 2, bullet_count: 3 };
    let mut inv = PowerupInventory { rate: 255, speed: 0, double: 0, triple: 0, shield: 0 };
    let mut lives = 1u32;
    let mut shield: Option<Shield> = None;
    apply_powerup(PowerupKind::Rate, &mut u, &mut inv, &mut lives, &mut shield, 0);
    assert_eq!(inv.rate, 255);
}

#[test]
fn buying_costs_currency() {
    let mut l = ledger();
    l.currency = 5;
    let o = l.trade(&[Action::BuyRate], 7);
    assert!(o.bought && !o.sold);
    assert_eq!(o.buy_change, MultiplierChange::FireRateUp);
    assert_eq!((l.currency, l.upgrades.fire_rate_stacks), (4, 1));
    let o = l.trade(&[Action::BuyTriple], 7);
    assert!(o.bought);
    assert_eq!((l.currency, l.upgrades.bullet_count), (2, 3));
    let o = l.trade(&[Action::BuyLife], 7);
    assert!(o.bought);
    assert_eq!((l.currency, l.lives), (0, 4));
    let o = l.trade(&[Action::BuyLife], 7);
    assert!(!o.bought);
    assert_eq!(l.lives, 4);
}

#[test]
fn buying_what_is_maxed_does_nothing() {
    let mut l = ledger();
    l.currency = 9;
    l.upgrades.fire_rate_stacks = 2;
    let o = l.trade(&[Action::BuyRate], 0);
    assert!(!o.bought);
    assert_eq!(l.currency, 9);
    let o = l.trade(&[Action::BuyShield], 0); // already has a shield
    assert!(!o.bought);
    assert_eq!(l.currency, 9);
}

#[test]
fn buy_shield_gives_a_fresh_shield() {
    let mut l = ledger();
    l.shield = None;
    l.currency = 2;
    let o = l.trade(&[Action::BuyShield], 33);
    assert!(o.bought);
    assert_eq!(l.shield, Some(Shield { level: ShieldLevel::Full, phase: 33 }));
    assert_eq!(l.currency, 0);
}

#[test]
fn a_maxed_buy_gives_way_to_the_next_possible_one() {
    // A maxed rate buy alongside a life buy: the life is paid for and delivered.
    let mut l = ledger();
    l.currency = 2;
    l.upgrades.fire_rate_stacks = 2;
    let o = l.trade(&[Action::BuyRate, Action::BuyLife], 0);
    assert!(o.bought);
    assert_eq!(o.buy_change, MultiplierChange::Unchanged);
    assert_eq!((l.currency, l.upgrades.fire_rate_stacks, l.lives), (0, 2, 4));

    // A maxed rate buy alongside a speed buy: the speed stack is bought.
    let mut l = ledger();
    l.currency = 1;
    l.upgrades.fire_rate_stacks = 2;
    let o = l.trade(&[Action::BuyRate, Action::BuySpeed], 0);
    assert!(o.bought);
    assert_eq!(o.buy_change, MultiplierChange::SpeedUp);
    assert_eq!((l.currency, l.upgrades.fire_rate_stacks, l.upgrades.speed_stacks), (0, 2, 1));
}

#[test]
fn selling_inventory_first_then_active() {
    let mut l = ledger();
    l.inventory.rate = 1;
    l.upgrades.fire_rate_stacks = 1;
    let o = l.trade(&[Action::SellRate], 0);
    assert!(o.sold);
    assert_eq!(o.sell_change, MultiplierChange::Unchanged);
    assert_eq!((l.inventory.rate, l.upgrades.fire_rate_stacks, l.currency), (0, 1, 1));
    let o = l.trade(&[Action::SellRate], 0);
    assert_eq!(o.sell_change, MultiplierChange::FireRateDown);
    assert_eq!((l.upgrades.fire_rate_stacks, l.currency), (0, 2));
    let o = l.trade(&[Action::SellRate], 0);
    assert!(!o.sold);
    assert_eq!(l.currency, 2);
}

#[test]
fn selling_bullets_downgrades() {
    let mut l = ledger();
    l.upgrades.bullet_count = 3;
    assert!(!l.trade(&[Action::SellDouble], 0).sold);
    assert!(l.trade(&[Action::SellTriple], 0).sold);
    assert_eq!(l.upgrades.bullet_count, 2);
    assert!(l.trade(&[Action::SellDouble], 0).sold);
    assert_eq!(l.upgrades.bullet_count, 1);
    assert_eq!(l.currency, 2);
}

#[test]
fn selling_shields() {
    let mut l = ledger();
    assert!(l.trade(&[Action::SellShield], 0).sold);
    assert_eq!(l.shield, None);
    let mut l = ledger();
    l.shield = Some(Shield { level: ShieldLevel::Damaged, phase: 0 });
    assert!(!l.trade(&[Action::SellShield], 0).sold);
    assert!(l.shield.is_some());
    assert_eq!(l.currency, 0);
}

#[test]
fn selling_lives_keeps_the_last_one() {
    let mut l = ledger();
    assert!(l.trade(&[Action::SellLife], 0).sold);
    assert!(l.trade(&[Action::SellLife], 0).sold);
    assert_eq!(l.lives, 1);
    assert!(!l.trade(&[Action::SellLife], 0).sold);
    assert_eq!((l.lives, l.currency), (1, 2));
}

#[test]
fn buy_and_sell_in_one_step() {
    let mut l = ledger();
    l.currency = 1;
    let o = l.trade(&[Action::BuySpeed, Action::SellLife], 0);
    assert!(o.bought && o.sold);
    assert_eq!(o.buy_change, MultiplierChange::SpeedUp);
    assert_eq!((l.upgrades.speed_stacks, l.lives, l.currency), (1, 2, 1));
}

#[test]
fn buy_then_sell_round_trip() {
    let mut l = ledger();
    l.currency = 3;
    let before = l;
    l.trade(&[Action::BuySpeed], 4);
    l.trade(&[Action::SellSpeed], 4);
    assert_eq!(l, before);
}

#[test]
fn fresh_shield_takes_three_hits() {
    let mut l = ledger();
    assert_eq!(l.player_struck(), Strike::Absorbed);
    assert_eq!(l.shield.unwrap().level, ShieldLevel::Damaged);
    assert_eq!(l.player_struck(), Strike::Absorbed);
    assert_eq!(l.player_struck(), Strike::Absorbed);
    assert_eq!(l.shield, None);
    assert_eq!((l.score, l.lives), (-600, 3));
    assert_eq!(l.player_struck(), Strike::Killed);
    assert_eq!((l.score, l.lives), (-1100, 2));
}

#[test]
fn death_resets_the_player() {
    let mut l = ledger();
    l.currency = 7;
    l.upgrades = PlayerUpgrades { fire_rate_stacks: 2, speed_stacks: 1, bullet_count: 3 };
    l.inventory.triple = 2;
    l.kill_player();
    assert_eq!(l.upgrades, PlayerUpgrades { fire_rate_stacks: 0, speed_stacks: 0, bullet_count: 1 });
    assert_eq!(l.inventory, PowerupInventory::empty());
    assert_eq!((l.currency, l.lives, l.score), (0, 2, -500));
    assert!(l.shield.is_none());
    assert!(!l.lost);
}

#[test]
fn last_death_loses_the_game() {
    let mut l = ledger();
    l.lives = 1;
    l.kill_player();
    assert_eq!(l.lives, 0);
    assert!(l.lost);
    // The shield is left as it was when the game is over.
    assert!(l.shield.is_some());
}

#[test]
fn hitting_enemies() {
    let mut l = ledger();
    let mut shield = Some(Shield { level: ShieldLevel::Critical, phase: 0 });
    assert!(!l.enemy_struck(&mut shield, EnemyClass::White));
    assert_eq!((l.score, shield), (50, None));
    assert!(l.enemy_struck(&mut shield, EnemyClass::White));
    assert_eq!(l.score, 50 + 50 + 400);
    let mut none = None;
    assert!(l.enemy_struck(&mut none, EnemyClass::Green));
    assert_eq!(l.score, 500 + 100);
}

#[test]
fn collecting_and_scoring() {
    let mut l = ledger();
    l.start_tick();
    assert_eq!(l.score, -1);
    assert_eq!(l.collect_powerup(PowerupKind::Speed, 3), MultiplierChange::SpeedUp);
    assert_eq!((l.score, l.upgrades.speed_stacks), (499, 1));
    assert_eq!(l.clear_wave(&[], 4), vec![]);
    assert_eq!((l.score, l.wave), (5499, 2));
}

#[test]
fn clearing_a_wave_collects_what_is_falling() {
    let mut l = ledger();
    l.shield = None;
    let kinds = [
        PowerupKind::Rate,
        PowerupKind::Rate,
        PowerupKind::Rate,
        PowerupKind::Life,
        PowerupKind::Shield,
        PowerupKind::Shield,
    ];
    let changes = l.clear_wave(&kinds, 12);
    assert_eq!(
        changes,
        vec![
            MultiplierChange::FireRateUp,
            MultiplierChange::FireRateUp,
            MultiplierChange::Unchanged,
            MultiplierChange::Unchanged,
            MultiplierChange::Unchanged,
            MultiplierChange::Unchanged,
        ]
    );
    assert_eq!(l.score, 5000 + 6 * 500);
    assert_eq!(l.wave, 2);
    assert_eq!(l.lives, PLAYER_LIVES + 1);
    assert_eq!(l.upgrades.fire_rate_stacks, 2);
    assert_eq!(l.inventory.rate, 1);
    assert_eq!(l.shield, Some(Shield { level: ShieldLevel::Full, phase: 12 }));
    assert_eq!(l.inventory.shield, 1);
    assert_eq!(l.currency, 0);
}

#[test]
fn volleys_follow_the_bullet_count() {
    assert_eq!(volley_offsets(1), vec![0]);
    assert_eq!(volley_offsets(2), vec![-4, 4]);
    assert_eq!(volley_offsets(3), vec![-5, 0, 5]);
    for count in 1u8..=3 {
        let v = volley_offsets(count);
        assert_eq!(v.len(), count as usize);
        for i in 0..v.len() {
            assert_eq!(v[i], -v[v.len() - 1 - i]);
        }
    }
}

#[test]
fn life_trades() {
    let mut l = ledger();
    l.currency = 1;
    let o = l.trade(&[Action::BuyLife], 0);
    assert!(!o.bought);
    assert_eq!((l.currency, l.lives), (1, 3));
    l.currency = 2;
    let o = l.trade(&[Action::BuyLife], 0);
    assert!(o.bought && !o.sold);
    assert_eq!((l.currency, l.lives), (0, 4));
    let o = l.trade(&[Action::SellLife], 0);
    assert!(o.sold && !o.bought);
    assert_eq!((l.currency, l.lives), (1, 3));
    l.lives = 1;
    let o = l.trade(&[Action::SellLife], 0);
    assert!(!o.sold);
    assert_eq!((l.currency, l.lives), (1, 1));
}

#[test]
fn a_shielded_enemy_hit_near_the_top_score() {
    let mut l = ledger();
    l.score = i32::MAX - 50;
    let mut shield = Some(Shield { level: ShieldLevel::Full, phase: 0 });
    assert!(!l.enemy_struck(&mut shield, EnemyClass::White));
    assert_eq!(l.score, i32::MAX);
    assert_eq!(shield, Some(Shield { level: ShieldLevel::Damaged, phase: 0 }));
}
