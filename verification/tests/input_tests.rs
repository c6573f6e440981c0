use neural_galaga::actions::Action;
use neural_galaga::input::{
    key_char, key_down, key_enter, key_escape, key_left, key_right, key_space, key_up,
    InputState, Key,
};

#[test]
fn key_constructors() {
    assert_eq!(key_up(), Key::ArrowUp);
    assert_eq!(key_down(), Key::ArrowDown);
    assert_eq!(key_left(), Key::ArrowLeft);
    assert_eq!(key_right(), Key::ArrowRight);
    assert_eq!(key_enter(), Key::Enter);
    assert_eq!(key_escape(), Key::Escape);
    assert_eq!(key_space(), Key::Space);
    assert_eq!(key_char('w'), Key::Character('w'));
}

#[test]
fn press_hold_and_release() {
    let mut s = InputState::new();
    assert!(!s.is_held(key_space()));
    s.key_down(key_space());
    assert!(s.is_held(key_space()));
    assert!(s.just_pressed(key_space()));
    s.end_frame();
    assert!(s.is_held(key_space()));
    assert!(!s.just_pressed(key_space()));
    // Key repeat of a held key is not a new press.
    s.key_down(key_space());
    assert!(!s.just_pressed(key_space()));
    s.key_up(key_space());
    assert!(!s.is_held(key_space()));
    s.key_down(key_space());
    assert!(s.just_pressed(key_space()));
}

#[test]
fn press_and_release_in_one_frame_still_counts() {
    let mut s = InputState::new();
    s.key_down(key_enter());
    s.key_up(key_enter());
    assert!(!s.is_held(key_enter()));
    assert!(s.just_pressed(key_enter()));
}

#[test]
fn clear_forgets_everything() {
    let mut s = InputState::new();
    s.key_down(key_left());
    s.key_down(key_char('d'));
    s.clear();
    assert!(!s.is_held(key_left()));
    assert!(!s.just_pressed(key_char('d')));
    assert!(s.to_actions().is_empty());
}

#[test]
fn held_keys_become_actions() {
    let mut s = InputState::new();
    s.key_down(key_char('a'));
    assert_eq!(s.to_actions(), vec![Action::Left]);
    s.key_down(key_right());
    s.key_down(key_space());
    assert_eq!(s.to_actions(), vec![Action::Left, Action::Right, Action::Fire]);
    s.key_up(key_char('a'));
    s.key_down(Key::Other);
    assert_eq!(s.to_actions(), vec![Action::Right, Action::Fire]);
    s.key_up(key_right());
    s.key_down(key_char('d'));
    assert_eq!(s.to_actions(), vec![Action::Right, Action::Fire]);
}
