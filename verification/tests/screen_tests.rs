use neural_galaga::screen::{fork_failed, next_screen, FrameEvents, FrameKeys, Screen, ScreenEffect};
use neural_galaga::session::ForkInfo;

fn keys(up: bool, down: bool, confirm: bool, escape: bool) -> FrameKeys {
    FrameKeys { up, down, confirm, escape }
}

fn no_keys() -> FrameKeys {
    keys(false, false, false, false)
}

fn quiet() -> FrameEvents {
    FrameEvents { wave_cleared: false, game_over: false, timer_done: false }
}

#[test]
fn main_menu_starts_a_game_or_opens_credits() {
    let s = Screen::Menu { selected: 0 };
    assert_eq!(next_screen(s, keys(false, true, false, false), quiet(), &[]), (Screen::Menu { selected: 1 }, ScreenEffect::Nothing));
    assert_eq!(next_screen(Screen::Menu { selected: 1 }, keys(false, true, false, false), quiet(), &[]), (Screen::Menu { selected: 1 }, ScreenEffect::Nothing));
    assert_eq!(next_screen(s, keys(false, false, true, false), quiet(), &[]), (Screen::Playing, ScreenEffect::StartGame));
    assert_eq!(next_screen(Screen::Menu { selected: 1 }, keys(false, false, true, false), quiet(), &[]), (Screen::Credits, ScreenEffect::Nothing));
}

#[test]
fn play_pauses_clears_waves_and_ends() {
    let cleared = FrameEvents { wave_cleared: true, game_over: false, timer_done: false };
    let over = FrameEvents { wave_cleared: false, game_over: true, timer_done: false };
    assert_eq!(next_screen(Screen::Playing, no_keys(), quiet(), &[]), (Screen::Playing, ScreenEffect::Nothing));
    assert_eq!(next_screen(Screen::Playing, keys(false, false, false, true), cleared, &[]), (Screen::WaveClear, ScreenEffect::Nothing));
    assert_eq!(next_screen(Screen::Playing, keys(false, false, false, true), over, &[]), (Screen::Paused { selected: 0 }, ScreenEffect::RefreshForks));
    assert_eq!(next_screen(Screen::Playing, no_keys(), over, &[]), (Screen::GameOver, ScreenEffect::Nothing));
}

#[test]
fn timed_screens_end_when_their_time_runs_out() {
    let done = FrameEvents { wave_cleared: false, game_over: false, timer_done: true };
    assert_eq!(next_screen(Screen::WaveClear, no_keys(), quiet(), &[]), (Screen::WaveClear, ScreenEffect::Nothing));
    assert_eq!(next_screen(Screen::WaveClear, no_keys(), done, &[]), (Screen::Playing, ScreenEffect::Nothing));
    assert_eq!(next_screen(Screen::GameOver, no_keys(), done, &[]), (Screen::Menu { selected: 0 }, ScreenEffect::MenuMusic));
}

#[test]
fn pause_menu_entries() {
    let forks = [ForkInfo { fork_id: 1, step: 10 }, ForkInfo { fork_id: 2, step: 20 }];
    // RESUME, SAVE, FORK #2, FORK #1, EXIT
    let confirm = keys(false, false, true, false);
    assert_eq!(next_screen(Screen::Paused { selected: 3 }, keys(false, false, false, true), quiet(), &forks), (Screen::Playing, ScreenEffect::Nothing));
    assert_eq!(next_screen(Screen::Paused { selected: 0 }, confirm, quiet(), &forks), (Screen::Playing, ScreenEffect::Nothing));
    assert_eq!(next_screen(Screen::Paused { selected: 1 }, confirm, quiet(), &forks), (Screen::Paused { selected: 1 }, ScreenEffect::CreateFork));
    assert_eq!(
        next_screen(Screen::Paused { selected: 2 }, confirm, quiet(), &forks),
        (Screen::ForkDetail { fork_id: 2, fork_step: 20, selected: 0 }, ScreenEffect::Nothing)
    );
    assert_eq!(next_screen(Screen::Paused { selected: 4 }, confirm, quiet(), &forks), (Screen::Menu { selected: 0 }, ScreenEffect::MenuMusic));
    assert_eq!(next_screen(Screen::Paused { selected: 4 }, keys(false, true, false, false), quiet(), &forks), (Screen::Paused { selected: 4 }, ScreenEffect::Nothing));
}

#[test]
fn fork_detail_entries() {
    let s = Screen::ForkDetail { fork_id: 7, fork_step: 70, selected: 0 };
    let confirm = keys(false, false, true, false);
    assert_eq!(next_screen(s, confirm, quiet(), &[]), (Screen::Playing, ScreenEffect::RestoreFork(7)));
    let del = Screen::ForkDetail { fork_id: 7, fork_step: 70, selected: 1 };
    assert_eq!(next_screen(del, confirm, quiet(), &[]), (Screen::Paused { selected: 0 }, ScreenEffect::DeleteFork(7)));
    let back = Screen::ForkDetail { fork_id: 7, fork_step: 70, selected: 2 };
    assert_eq!(next_screen(back, confirm, quiet(), &[]), (Screen::Paused { selected: 0 }, ScreenEffect::Nothing));
    assert_eq!(next_screen(s, keys(false, false, false, true), quiet(), &[]), (Screen::Paused { selected: 0 }, ScreenEffect::Nothing));
    assert_eq!(next_screen(back, keys(false, true, false, false), quiet(), &[]), (back, ScreenEffect::Nothing));
    assert_eq!(fork_failed(s, no_keys(), ScreenEffect::RestoreFork(7)), Screen::Menu { selected: 0 });
    assert_eq!(fork_failed(del, no_keys(), ScreenEffect::DeleteFork(7)), del);
    // The cursor moved in the frame of a failed deletion stays moved.
    assert_eq!(
        fork_failed(s, keys(false, true, true, false), ScreenEffect::DeleteFork(7)),
        Screen::ForkDetail { fork_id: 7, fork_step: 70, selected: 1 }
    );
}

#[test]
fn credits_and_error_screens_close() {
    assert_eq!(next_screen(Screen::Credits, keys(false, false, false, true), quiet(), &[]), (Screen::Menu { selected: 0 }, ScreenEffect::Nothing));
    assert_eq!(next_screen(Screen::Credits, no_keys(), quiet(), &[]), (Screen::Credits, ScreenEffect::Nothing));
    assert_eq!(next_screen(Screen::ServerError, keys(false, false, false, true), quiet(), &[]), (Screen::ServerError, ScreenEffect::Nothing));
    assert_eq!(next_screen(Screen::ServerError, keys(false, false, true, false), quiet(), &[]), (Screen::Menu { selected: 0 }, ScreenEffect::Nothing));
}
