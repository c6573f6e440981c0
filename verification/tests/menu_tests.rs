use neural_galaga::framebuffer::Framebuffer;
use neural_galaga::menu::{
    fork_detail_choice, main_menu_choice, menu_cursor, pause_menu_action, pause_menu_labels,
    recent_forks, render_dim_overlay, ForkDetailChoice, MainMenuChoice, MusicTrack, PauseAction,
};
use neural_galaga::session::ForkInfo;

fn f(fork_id: u32, step: u64) -> ForkInfo {
    ForkInfo { fork_id, step }
}

#[test]
fn recent_forks_are_the_three_newest() {
    let forks = vec![f(1, 10), f(4, 40), f(2, 20), f(5, 50), f(3, 30)];
    assert_eq!(recent_forks(&forks), vec![f(5, 50), f(4, 40), f(3, 30)]);
    assert_eq!(recent_forks(&forks[..2]), vec![f(4, 40), f(1, 10)]);
    assert!(recent_forks(&[]).is_empty());
}

#[test]
fn recent_forks_keep_the_order_of_equal_ids() {
    let forks = vec![f(2, 1), f(7, 1), f(2, 2), f(7, 2), f(2, 3)];
    assert_eq!(recent_forks(&forks), vec![f(7, 1), f(7, 2), f(2, 1)]);
}

#[test]
fn pause_menu_labels_text() {
    let forks = vec![f(1, 120), f(2, 4567)];
    assert_eq!(
        pause_menu_labels(&forks),
        vec!["RESUME", "SAVE", "FORK #2 @4567", "FORK #1 @120", "EXIT"]
    );
    assert_eq!(pause_menu_labels(&[]), vec!["RESUME", "SAVE", "EXIT"]);
    assert_eq!(
        pause_menu_labels(&[f(u32::MAX, u64::MAX), f(0, 0)]),
        vec![
            "RESUME".to_string(),
            "SAVE".to_string(),
            format!("FORK #{} @{}", u32::MAX, u64::MAX),
            "FORK #0 @0".to_string(),
            "EXIT".to_string()
        ]
    );
}

#[test]
fn pause_menu_actions() {
    let forks = vec![f(1, 10), f(2, 20), f(3, 30), f(4, 40)];
    assert_eq!(pause_menu_action(0, &forks), PauseAction::Resume);
    assert_eq!(pause_menu_action(1, &forks), PauseAction::CreateFork);
    assert_eq!(pause_menu_action(2, &forks), PauseAction::OpenForkDetail(4, 40));
    assert_eq!(pause_menu_action(3, &forks), PauseAction::OpenForkDetail(3, 30));
    assert_eq!(pause_menu_action(4, &forks), PauseAction::OpenForkDetail(2, 20));
    assert_eq!(pause_menu_action(5, &forks), PauseAction::Exit);
    assert_eq!(pause_menu_action(9, &forks), PauseAction::Exit);
    assert_eq!(pause_menu_action(2, &[]), PauseAction::Exit);
    assert_eq!(pause_menu_action(3, &[]), PauseAction::Exit);
}

#[test]
fn cursor_moves_within_bounds() {
    assert_eq!(menu_cursor(0, 2, true, false), 0);
    assert_eq!(menu_cursor(0, 2, false, true), 1);
    assert_eq!(menu_cursor(1, 2, false, true), 1);
    assert_eq!(menu_cursor(1, 3, true, true), 1);
    assert_eq!(menu_cursor(0, 0, false, true), 0);
}

#[test]
fn menu_choices() {
    assert_eq!(main_menu_choice(0), Some(MainMenuChoice::StartGame));
    assert_eq!(main_menu_choice(1), Some(MainMenuChoice::Credits));
    assert_eq!(main_menu_choice(2), None);
    assert_eq!(fork_detail_choice(0), ForkDetailChoice::Enter);
    assert_eq!(fork_detail_choice(1), ForkDetailChoice::Delete);
    assert_eq!(fork_detail_choice(2), ForkDetailChoice::Back);
}

#[test]
fn dim_overlay_covers_the_screen() {
    let mut fb = Framebuffer::new(224, 288);
    fb.clear(200, 100, 5, 7);
    render_dim_overlay(&mut fb);
    for px in fb.pixels.chunks(4) {
        assert_eq!(px, &[79, 39, 1, 255]);
    }
}

#[test]
fn music_tracks() {
    assert!(MusicTrack::Menu.keeps_playing(&MusicTrack::Menu));
    assert!(MusicTrack::Game.keeps_playing(&MusicTrack::Game));
    assert!(!MusicTrack::Menu.keeps_playing(&MusicTrack::Game));
    assert!(!MusicTrack::Silent.keeps_playing(&MusicTrack::Silent));
}
