use neural_galaga::actions::{
    action_to_list, has_action, kills_delta, shield_level_code, step_status, Action, GameStatus,
    SoundEvents, NUM_ACTIONS,
};
use neural_galaga::shield::ShieldLevel;

#[test]
fn agent_action_indices() {
    assert_eq!(action_to_list(0), vec![]);
    assert_eq!(action_to_list(1), vec![Action::Left]);
    assert_eq!(action_to_list(2), vec![Action::Right]);
    assert_eq!(action_to_list(3), vec![Action::Fire]);
    assert_eq!(action_to_list(4), vec![Action::Left, Action::Fire]);
    assert_eq!(action_to_list(5), vec![Action::Right, Action::Fire]);
    assert_eq!(action_to_list(6), vec![Action::BuyRate]);
    assert_eq!(action_to_list(11), vec![Action::BuyLife]);
    assert_eq!(action_to_list(12), vec![Action::SellRate]);
    assert_eq!(action_to_list(17), vec![Action::SellLife]);
    assert_eq!(action_to_list(18), vec![]);
    assert_eq!(action_to_list(usize::MAX), vec![]);
}

#[test]
fn agent_actions_are_all_distinct() {
    let lists: Vec<Vec<Action>> = (0..NUM_ACTIONS).map(action_to_list).collect();
    for a in 0..NUM_ACTIONS {
        for b in 0..NUM_ACTIONS {
            if a != b {
                assert_ne!(lists[a], lists[b], "{a} {b}");
            }
        }
    }
}

#[test]
fn has_action_finds_members() {
    let acts = [Action::Left, Action::Fire];
    assert!(has_action(&acts, Action::Fire));
    assert!(!has_action(&acts, Action::Right));
    assert!(!has_action(&[], Action::Left));
}

#[test]
fn status_priorities() {
    assert_eq!(step_status(true, true, false), GameStatus::WaveComplete);
    assert_eq!(step_status(false, true, false), GameStatus::Lost);
    assert_eq!(step_status(false, false, false), GameStatus::Intro);
    assert_eq!(step_status(false, false, true), GameStatus::Playing);
}

#[test]
fn shield_codes() {
    assert_eq!(shield_level_code(None), 0);
    assert_eq!(shield_level_code(Some(ShieldLevel::Critical)), 1);
    assert_eq!(shield_level_code(Some(ShieldLevel::Damaged)), 2);
    assert_eq!(shield_level_code(Some(ShieldLevel::Full)), 3);
}

#[test]
fn kills_delta_handles_new_waves() {
    assert_eq!(kills_delta(5, 3), 2);
    assert_eq!(kills_delta(3, 3), 0);
    assert_eq!(kills_delta(1, 36), 1);
}

#[test]
fn quiet_sound_events() {
    let s = SoundEvents::none();
    assert!(!s.player_fired && !s.enemy_fired && !s.player_hit && !s.enemy_hit);
    assert!(!s.shield_hit && !s.enemy_shield_hit && !s.player_shield_hit);
    assert!(!s.powerup_picked && !s.powerup_bought && !s.powerup_sold);
}
