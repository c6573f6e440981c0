//! The program's screens and how a frame's keys and game events move between
//! them: the main menu, play, the pause menu and its fork detail, the
//! wave-clear and game-over pauses, the credits and the error screen.
use vstd::prelude::*;

use crate::menu::{
    fork_detail_choice, main_menu_choice, menu_cursor, pause_menu_action, pause_menu_labels,
    spec_fork_detail_choice, spec_main_menu_choice, spec_menu_cursor, spec_pause_action,
    spec_pause_labels, ForkDetailChoice, MainMenuChoice, PauseAction,
};
use crate::session::ForkInfo;

verus! {

/// A screen of the program, with the cursor of the menus it shows. (The
/// game session, the timers and the fork list live with the caller.)
#[derive(Clone, Copy, Debug, PartialEq, Eq, Structural)]
pub enum Screen {
    Menu { selected: usize },
    Playing,
    GameOver,
    WaveClear,
    Paused { selected: usize },
    ForkDetail { fork_id: u32, fork_step: u64, selected: usize },
    Credits,
    ServerError,
}

/// The keys of a frame that the screens react to: up (arrow or W), down
/// (arrow or S), confirm (Enter or Space) and Escape, each "went down this
/// frame".
#[derive(Clone, Copy, Debug, PartialEq, Eq, Structural)]
pub struct FrameKeys {
    pub up: bool,
    pub down: bool,
    pub confirm: bool,
    pub escape: bool,
}

/// What the game and the clock reported this frame: a wave was cleared, the
/// game is over, and the current pause (wave clear or game over) has run out.
#[derive(Clone, Copy, Debug, PartialEq, Eq, Structural)]
pub struct FrameEvents {
    pub wave_cleared: bool,
    pub game_over: bool,
    pub timer_done: bool,
}

/// What the caller does along with a change of screen.
#[derive(Clone, Copy, Debug, PartialEq, Eq, Structural)]
pub enum ScreenEffect {
    Nothing,
    /// Start a new game session with the game music, forgetting held keys.
    StartGame,
    /// Switch to the menu music.
    MenuMusic,
    /// Read the session's forks afresh.
    RefreshForks,
    /// Save a fork of the session and read the forks afresh.
    CreateFork,
    /// Restore the session from fork `id`.
    RestoreFork(u32),
    /// Delete fork `id` and read the forks afresh.
    DeleteFork(u32),
}

/// The screen after a frame, and what the caller does (see
/// [`next_screen`]). A restore or a deletion that fails is settled by
/// [`spec_fork_failed`].
pub open spec fn spec_next_screen(s: Screen, k: FrameKeys, e: FrameEvents, forks: Seq<ForkInfo>) -> (
    Screen,
    ScreenEffect,
) {
    match s {
        Screen::Menu { selected } => {
            let sel = spec_menu_cursor(selected, 2, k.up, k.down) as usize;
            if k.confirm && spec_main_menu_choice(sel) == Some(MainMenuChoice::StartGame) {
                (Screen::Playing, ScreenEffect::StartGame)
            } else if k.confirm && spec_main_menu_choice(sel) == Some(MainMenuChoice::Credits) {
                (Screen::Credits, ScreenEffect::Nothing)
            } else {
                (Screen::Menu { selected: sel }, ScreenEffect::Nothing)
            }
        },
        Screen::Playing => if e.wave_cleared {
            (Screen::WaveClear, ScreenEffect::Nothing)
        } else if k.escape {
            (Screen::Paused { selected: 0 }, ScreenEffect::RefreshForks)
        } else if e.game_over {
            (Screen::GameOver, ScreenEffect::Nothing)
        } else {
            (Screen::Playing, ScreenEffect::Nothing)
        },
        Screen::WaveClear => if e.timer_done {
            (Screen::Playing, ScreenEffect::Nothing)
        } else {
            (Screen::WaveClear, ScreenEffect::Nothing)
        },
        Screen::GameOver => if e.timer_done {
            (Screen::Menu { selected: 0 }, ScreenEffect::MenuMusic)
        } else {
            (Screen::GameOver, ScreenEffect::Nothing)
        },
        Screen::Paused { selected } => {
            let sel = spec_menu_cursor(selected, spec_pause_labels(forks).len() as usize, k.up, k.down) as usize;
            if k.escape {
                (Screen::Playing, ScreenEffect::Nothing)
            } else if k.confirm {
                match spec_pause_action(sel, forks) {
                    PauseAction::Resume => (Screen::Playing, ScreenEffect::Nothing),
                    PauseAction::CreateFork => (Screen::Paused { selected: sel }, ScreenEffect::CreateFork),
                    PauseAction::OpenForkDetail(fork_id, fork_step) => (
                        Screen::ForkDetail { fork_id, fork_step, selected: 0 },
                        ScreenEffect::Nothing,
                    ),
                    PauseAction::Exit => (Screen::Menu { selected: 0 }, ScreenEffect::MenuMusic),
                }
            } else {
                (Screen::Paused { selected: sel }, ScreenEffect::Nothing)
            }
        },
        Screen::ForkDetail { fork_id, fork_step, selected } => {
            let sel = spec_menu_cursor(selected, 3, k.up, k.down) as usize;
            if k.escape {
                (Screen::Paused { selected: 0 }, ScreenEffect::Nothing)
            } else if k.confirm {
                match spec_fork_detail_choice(sel) {
                    ForkDetailChoice::Enter => (Screen::Playing, ScreenEffect::RestoreFork(fork_id)),
                    ForkDetailChoice::Delete => (Screen::Paused { selected: 0 }, ScreenEffect::DeleteFork(fork_id)),
                    ForkDetailChoice::Back => (Screen::Paused { selected: 0 }, ScreenEffect::Nothing),
                }
            } else {
                (Screen::ForkDetail { fork_id, fork_step, selected: sel }, ScreenEffect::Nothing)
            }
        },
        Screen::Credits => if k.escape || k.confirm {
            (Screen::Menu { selected: 0 }, ScreenEffect::Nothing)
        } else {
            (Screen::Credits, ScreenEffect::Nothing)
        },
        Screen::ServerError => if k.confirm {
            (Screen::Menu { selected: 0 }, ScreenEffect::Nothing)
        } else {
            (Screen::ServerError, ScreenEffect::Nothing)
        },
    }
}

/// Move between screens for one frame: the cursor of a menu moves with up
/// and down; in the main menu confirming starts a game or opens the
/// credits; in play a cleared wave pauses on the wave-clear screen, Escape
/// opens the pause menu and a lost game shows the game-over screen; the
/// wave-clear pause returns to play and the game-over pause to the main
/// menu when their time runs out; in the pause menu Escape resumes and
/// confirming does what the entry says; in the fork detail Escape goes back,
/// and confirming enters, deletes or goes back; the credits close with
/// Escape or confirm, and the error screen with confirm.
pub fn next_screen(s: Screen, k: FrameKeys, e: FrameEvents, forks: &[ForkInfo]) -> (r: (Screen, ScreenEffect))
    ensures
        r == spec_next_screen(s, k, e, forks@),
{
    match s {
        Screen::Menu { selected } => {
            let sel = menu_cursor(selected, 2, k.up, k.down);
            let choice = main_menu_choice(sel);
            if k.confirm && choice == Some(MainMenuChoice::StartGame) {
                (Screen::Playing, ScreenEffect::StartGame)
            } else if k.confirm && choice == Some(MainMenuChoice::Credits) {
                (Screen::Credits, ScreenEffect::Nothing)
            } else {
                (Screen::Menu { selected: sel }, ScreenEffect::Nothing)
            }
        },
        Screen::Playing => if e.wave_cleared {
            (Screen::WaveClear, ScreenEffect::Nothing)
        } else if k.escape {
            (Screen::Paused { selected: 0 }, ScreenEffect::RefreshForks)
        } else if e.game_over {
            (Screen::GameOver, ScreenEffect::Nothing)
        } else {
            (Screen::Playing, ScreenEffect::Nothing)
        },
        Screen::WaveClear => if e.timer_done {
            (Screen::Playing, ScreenEffect::Nothing)
        } else {
            (Screen::WaveClear, ScreenEffect::Nothing)
        },
        Screen::GameOver => if e.timer_done {
            (Screen::Menu { selected: 0 }, ScreenEffect::MenuMusic)
        } else {
            (Screen::GameOver, ScreenEffect::Nothing)
        },
        Screen::Paused { selected } => {
            let labels = pause_menu_labels(forks);
            proof {
                assert(labels@.map_values(|s: String| s@).len() == labels.len());
            }
            let sel = menu_cursor(selected, labels.len(), k.up, k.down);
            if k.escape {
                (Screen::Playing, ScreenEffect::Nothing)
            } else if k.confirm {
                match pause_menu_action(sel, forks) {
                    PauseAction::Resume => (Screen::Playing, ScreenEffect::Nothing),
                    PauseAction::CreateFork => (Screen::Paused { selected: sel }, ScreenEffect::CreateFork),
                    PauseAction::OpenForkDetail(fork_id, fork_step) => (
                        Screen::ForkDetail { fork_id, fork_step, selected: 0 },
                        ScreenEffect::Nothing,
                    ),
                    PauseAction::Exit => (Screen::Menu { selected: 0 }, ScreenEffect::MenuMusic),
                }
            } else {
                (Screen::Paused { selected: sel }, ScreenEffect::Nothing)
            }
        },
        Screen::ForkDetail { fork_id, fork_step, selected } => {
            let sel = menu_cursor(selected, 3, k.up, k.down);
            if k.escape {
                (Screen::Paused { selected: 0 }, ScreenEffect::Nothing)
            } else if k.confirm {
                match fork_detail_choice(sel) {
                    ForkDetailChoice::Enter => (Screen::Playing, ScreenEffect::RestoreFork(fork_id)),
                    ForkDetailChoice::Delete => (Screen::Paused { selected: 0 }, ScreenEffect::DeleteFork(fork_id)),
                    ForkDetailChoice::Back => (Screen::Paused { selected: 0 }, ScreenEffect::Nothing),
                }
            } else {
                (Screen::ForkDetail { fork_id, fork_step, selected: sel }, ScreenEffect::Nothing)
            }
        },
        Screen::Credits => if k.escape || k.confirm {
            (Screen::Menu { selected: 0 }, ScreenEffect::Nothing)
        } else {
            (Screen::Credits, ScreenEffect::Nothing)
        },
        Screen::ServerError => if k.confirm {
            (Screen::Menu { selected: 0 }, ScreenEffect::Nothing)
        } else {
            (Screen::ServerError, ScreenEffect::Nothing)
        },
    }
}

/// The screen when a restore or a deletion asked for from `before`, with
/// the keys `k`, fails: a failed restore leaves the main menu; a failed
/// deletion leaves the fork detail as it was, with its cursor moved by the
/// frame's keys.
pub open spec fn spec_fork_failed(before: Screen, k: FrameKeys, effect: ScreenEffect) -> Screen {
    match effect {
        ScreenEffect::RestoreFork(_) => Screen::Menu { selected: 0 },
        _ => match before {
            Screen::ForkDetail { fork_id, fork_step, selected } => Screen::ForkDetail {
                fork_id,
                fork_step,
                selected: spec_menu_cursor(selected, 3, k.up, k.down) as usize,
            },
            _ => before,
        },
    }
}

/// The screen when the restore or deletion that a frame asked for fails
/// (see [`spec_fork_failed`]).
pub fn fork_failed(before: Screen, k: FrameKeys, effect: ScreenEffect) -> (s: Screen)
    ensures
        s == spec_fork_failed(before, k, effect),
{
    match effect {
        ScreenEffect::RestoreFork(_) => Screen::Menu { selected: 0 },
        _ => match before {
            Screen::ForkDetail { fork_id, fork_step, selected } => Screen::ForkDetail {
                fork_id,
                fork_step,
                selected: menu_cursor(selected, 3, k.up, k.down),
            },
            _ => before,
        },
    }
}

/// A screen's cursor lies within its menu: two main-menu entries, the pause
/// menu's labels, three fork-detail entries.
pub open spec fn cursor_in_menu(s: Screen, forks: Seq<ForkInfo>) -> bool {
    match s {
        Screen::Menu { selected } => selected < 2,
        Screen::Paused { selected } => selected < spec_pause_labels(forks).len(),
        Screen::ForkDetail { selected, .. } => selected < 3,
        _ => true,
    }
}

// ---------------------------------------------------------------------------
// Laws of the screens.
/// Every frame leaves the cursor of the screen it lands on within its menu.
pub proof fn law_screens_keep_cursor_in_menu(s: Screen, k: FrameKeys, e: FrameEvents, forks: Seq<ForkInfo>)
    requires
        cursor_in_menu(s, forks),
    ensures
        cursor_in_menu(spec_next_screen(s, k, e, forks).0, forks),
{
    assert(spec_pause_labels(forks).len() >= 3);
}

/// Escape in the pause menu always resumes play, and Escape in play always
/// opens the pause menu at its first entry, unless a wave was just cleared.
pub proof fn law_escape_pauses_and_resumes(selected: usize, k: FrameKeys, e: FrameEvents, forks: Seq<ForkInfo>)
    requires
        k.escape,
    ensures
        spec_next_screen(Screen::Paused { selected }, k, e, forks) == (Screen::Playing, ScreenEffect::Nothing),
        !e.wave_cleared ==> spec_next_screen(Screen::Playing, k, e, forks) == (
            Screen::Paused { selected: 0 },
            ScreenEffect::RefreshForks,
        ),
{
}

/// The credits close with Escape or with confirm (Enter or Space), back to
/// the main menu at its first entry; with neither they stay open. The
/// error screen closes with confirm alone.
pub proof fn law_credits_and_error_screens_close(k: FrameKeys, e: FrameEvents, forks: Seq<ForkInfo>)
    ensures
        k.escape || k.confirm ==> spec_next_screen(Screen::Credits, k, e, forks) == (
            Screen::Menu { selected: 0 },
            ScreenEffect::Nothing,
        ),
        !k.escape && !k.confirm ==> spec_next_screen(Screen::Credits, k, e, forks).0 == Screen::Credits,
        k.confirm ==> spec_next_screen(Screen::ServerError, k, e, forks).0 == (Screen::Menu { selected: 0 }),
        !k.confirm ==> spec_next_screen(Screen::ServerError, k, e, forks).0 == Screen::ServerError,
{
}

/// In the main menu, the pause menu and the fork detail, Up alone moves the
/// cursor to the entry above (staying on the first), Down alone to the entry
/// below (staying on the last), and no key leaves it; confirming acts on the
/// entry the cursor lands on.
pub proof fn law_menu_screens_move_the_cursor(selected: usize, k: FrameKeys, e: FrameEvents, forks: Seq<ForkInfo>)
    requires
        !k.confirm,
        !k.escape,
    ensures
        k.up && !k.down ==> spec_next_screen(Screen::Menu { selected }, k, e, forks).0 == (Screen::Menu {
            selected: if selected > 0 { (selected - 1) as usize } else { 0 },
        }),
        !k.up && k.down && selected < 1 ==> spec_next_screen(Screen::Menu { selected }, k, e, forks).0 == (Screen::Menu {
            selected: (selected + 1) as usize,
        }),
        !k.up && !k.down ==> spec_next_screen(Screen::Menu { selected }, k, e, forks).0 == (Screen::Menu { selected }),
        k.up && !k.down ==> spec_next_screen(Screen::Paused { selected }, k, e, forks).0 == (Screen::Paused {
            selected: if selected > 0 { (selected - 1) as usize } else { 0 },
        }),
        !k.up && k.down && selected + 1 < spec_pause_labels(forks).len() ==> spec_next_screen(
            Screen::Paused { selected },
            k,
            e,
            forks,
        ).0 == (Screen::Paused { selected: (selected + 1) as usize }),
        !k.up && !k.down ==> spec_next_screen(Screen::Paused { selected }, k, e, forks).0 == (Screen::Paused { selected }),
{
    crate::menu::law_recent_forks_newest_first(forks);
    assert(spec_pause_labels(forks).len() == crate::menu::spec_recent(forks).len() + 3);
}

/// The timed pauses end when their time runs out: the wave-clear pause back
/// to play, the game-over pause to the main menu with its music; until then
/// they stay. In the main menu, confirming the first entry starts a game and
/// the second opens the credits; in the fork detail, confirming the first
/// entry restores the fork, the second deletes it, the third goes back to
/// the pause menu.
pub proof fn law_screens_confirm_and_time_out(k: FrameKeys, e: FrameEvents, forks: Seq<ForkInfo>, fork_id: u32, fork_step: u64)
    ensures
        e.timer_done ==> spec_next_screen(Screen::WaveClear, k, e, forks) == (Screen::Playing, ScreenEffect::Nothing),
        !e.timer_done ==> spec_next_screen(Screen::WaveClear, k, e, forks).0 == Screen::WaveClear,
        e.timer_done ==> spec_next_screen(Screen::GameOver, k, e, forks) == (Screen::Menu { selected: 0 }, ScreenEffect::MenuMusic),
        !e.timer_done ==> spec_next_screen(Screen::GameOver, k, e, forks).0 == Screen::GameOver,
        k.confirm && !k.up && !k.down ==> spec_next_screen(Screen::Menu { selected: 0 }, k, e, forks) == (
            Screen::Playing,
            ScreenEffect::StartGame,
        ),
        k.confirm && !k.up && !k.down ==> spec_next_screen(Screen::Menu { selected: 1 }, k, e, forks) == (
            Screen::Credits,
            ScreenEffect::Nothing,
        ),
        k.confirm && !k.escape && !k.up && !k.down ==> spec_next_screen(
            Screen::ForkDetail { fork_id, fork_step, selected: 0 },
            k,
            e,
            forks,
        ) == (Screen::Playing, ScreenEffect::RestoreFork(fork_id)),
        k.confirm && !k.escape && !k.up && !k.down ==> spec_next_screen(
            Screen::ForkDetail { fork_id, fork_step, selected: 1 },
            k,
            e,
            forks,
        ) == (Screen::Paused { selected: 0 }, ScreenEffect::DeleteFork(fork_id)),
        k.confirm && !k.escape && !k.up && !k.down ==> spec_next_screen(
            Screen::ForkDetail { fork_id, fork_step, selected: 2 },
            k,
            e,
            forks,
        ) == (Screen::Paused { selected: 0 }, ScreenEffect::Nothing),
{
}

} // verus!
