//! The pause menu over a session's forks, the dimmed overlay behind menus,
//! and the choice of music track.
use vstd::prelude::*;

use crate::framebuffer::{rect_clip, Framebuffer};
use crate::session::ForkInfo;

verus! {

/// How many forks the pause menu offers.
pub const PAUSE_MAX_FORKS: usize = 3;

// ---------------------------------------------------------------------------
// The most recent forks.
/// Fork `i` of `s` comes before fork `j` in recency order: a larger id first,
/// and among equal ids the one listed earlier.
pub open spec fn comes_before(s: Seq<ForkInfo>, i: int, j: int) -> bool {
    s[i].fork_id > s[j].fork_id || (s[i].fork_id == s[j].fork_id && i < j)
}

/// Index `j` may still be picked after `prev` (any index when `prev` is -1).
pub open spec fn after(s: Seq<ForkInfo>, prev: int, j: int) -> bool {
    0 <= j < s.len() && (prev < 0 || comes_before(s, prev, j))
}

/// Index `j` is the next pick after `prev`: the first, in recency order, of
/// those that come after `prev`.
pub open spec fn is_next(s: Seq<ForkInfo>, prev: int, j: int) -> bool {
    &&& after(s, prev, j)
    &&& forall|k: int| #[trigger] after(s, prev, k) && k != j ==> comes_before(s, j, k)
}

/// The next pick after `prev`, or -1 when every fork has been picked.
pub open spec fn next_pick(s: Seq<ForkInfo>, prev: int) -> int {
    if exists|j: int| is_next(s, prev, j) {
        choose|j: int| is_next(s, prev, j)
    } else {
        -1
    }
}

/// The indices of the first `n` forks in recency order (fewer when there
/// are fewer forks).
pub open spec fn picks(s: Seq<ForkInfo>, n: nat) -> Seq<int>
    decreases n,
{
    if n == 0 {
        seq![]
    } else {
        let p = picks(s, (n - 1) as nat);
        let prev = if p.len() == 0 {
            -1
        } else {
            p.last()
        };
        let nx = next_pick(s, prev);
        if nx < 0 || (n > 1 && p.len() < n - 1) {
            p
        } else {
            p.push(nx)
        }
    }
}

/// The most recent forks: the first three in recency order (larger id
/// first; equal ids keep their order), fewer when there are fewer.
pub open spec fn spec_recent(s: Seq<ForkInfo>) -> Seq<ForkInfo> {
    picks(s, PAUSE_MAX_FORKS as nat).map_values(|i: int| s[i])
}

/// At most `n` forks are picked.
pub proof fn lemma_picks_len(s: Seq<ForkInfo>, n: nat)
    ensures
        picks(s, n).len() <= n,
    decreases n,
{
    if n > 0 {
        lemma_picks_len(s, (n - 1) as nat);
    }
}

/// There is at most one next pick.
proof fn lemma_next_unique(s: Seq<ForkInfo>, prev: int, a: int, b: int)
    requires
        is_next(s, prev, a),
        is_next(s, prev, b),
    ensures
        a == b,
{
    if a != b {
        assert(after(s, prev, b));
        assert(after(s, prev, a));
        assert(comes_before(s, a, b));
        assert(comes_before(s, b, a));
    }
}

/// The next pick after `prev` in a full scan of `s`.
fn scan_next(forks: &[ForkInfo], prev: Option<usize>) -> (r: Option<usize>)
    requires
        prev matches Some(p) ==> p < forks.len(),
    ensures
        ({
            let pv = match prev {
                Some(p) => p as int,
                None => -1,
            };
            match r {
                Some(b) => is_next(forks@, pv, b as int) && next_pick(forks@, pv) == b,
                None => next_pick(forks@, pv) == -1,
            }
        }),
{
    let ghost s = forks@;
    let ghost pv = match prev {
        Some(p) => p as int,
        None => -1,
    };
    let mut best: Option<usize> = None;
    let mut j: usize = 0;
    while j < forks.len()
        invariant
            s == forks@,
            pv == (match prev {
                Some(p) => p as int,
                None => -1,
            }),
            prev matches Some(p) ==> p < forks.len(),
            0 <= j <= forks.len(),
            match best {
                Some(b) => b < j && after(s, pv, b as int) && forall|k: int|
                    0 <= k < j && #[trigger] after(s, pv, k) && k != b ==> comes_before(s, b as int, k),
                None => forall|k: int| 0 <= k < j ==> !#[trigger] after(s, pv, k),
            },
        decreases forks.len() - j,
    {
        let cand = match prev {
            None => true,
            Some(p) => forks[p].fork_id > forks[j].fork_id || (forks[p].fork_id == forks[j].fork_id
                && p < j),
        };
        if cand {
            let better = match best {
                None => true,
                Some(b) => forks[j].fork_id > forks[b].fork_id || (forks[j].fork_id
                    == forks[b].fork_id && j < b),
            };
            if better {
                best = Some(j);
            }
        }
        j += 1;
    }
    match best {
        Some(b) => {
            proof {
                assert(is_next(s, pv, b as int));
                if next_pick(s, pv) != b {
                    let c = choose|c: int| is_next(s, pv, c);
                    lemma_next_unique(s, pv, c, b as int);
                }
            }
        },
        None => {
            proof {
                assert(!exists|c: int| is_next(s, pv, c));
            }
        },
    }
    best
}

/// Get the most recent snapshots, sorted most recent first: the three
/// largest ids (equal ids keep their order), or all when there are fewer.
pub fn recent_forks(forks: &[ForkInfo]) -> (v: Vec<ForkInfo>)
    ensures
        v@ == spec_recent(forks@),
{
    let ghost s = forks@;
    let mut v: Vec<ForkInfo> = Vec::new();
    let mut prev: Option<usize> = None;
    let mut n: usize = 0;
    let ghost mut idx: Seq<int> = seq![];
    while n < PAUSE_MAX_FORKS
        invariant
            s == forks@,
            0 <= n <= 3,
            idx == picks(s, n as nat),
            v@ == idx.map_values(|i: int| s[i]),
            match prev {
                Some(p) => idx.len() > 0 && p == idx.last() && p < forks.len(),
                None => idx.len() == 0,
            },
            idx.len() <= n,
            idx.len() < n ==> next_pick(s, if idx.len() == 0 {
                -1
            } else {
                idx.last()
            }) == -1,
            forall|a: int| 0 <= a < idx.len() ==> 0 <= #[trigger] idx[a] < s.len(),
        decreases 3 - n,
    {
        let found = scan_next(forks, prev);
        let ghost pv = if idx.len() == 0 {
            -1
        } else {
            idx.last()
        };
        proof {
            reveal_with_fuel(picks, 2);
        }
        match found {
            Some(b) => {
                assert(idx.len() == n);
                v.push(forks[b]);
                prev = Some(b);
                proof {
                    idx = idx.push(b as int);
                }
            },
            None => {},
        }
        n += 1;
        proof {
            assert(v@ =~= idx.map_values(|i: int| s[i]));
        }
    }
    v
}

// ---------------------------------------------------------------------------
// Decimal numbers.
/// The decimal digit `d` (0 to 9).
pub open spec fn digit_char(d: nat) -> char {
    (48 + d) as char
}

/// The decimal representation of `n`, without leading zeros.
pub open spec fn decimal(n: nat) -> Seq<char>
    decreases n,
{
    if n < 10 {
        seq![digit_char(n)]
    } else {
        decimal(n / 10).push(digit_char(n % 10))
    }
}

/// The decimal digit `d` as a one-character string.
fn digit_str(d: u64) -> (s: &'static str)
    requires
        d < 10,
    ensures
        s@ == seq![digit_char(d as nat)],
{
    match d {
        0 => {
            proof {
                reveal_strlit("0");
            }
            "0"
        },
        1 => {
            proof {
                reveal_strlit("1");
            }
            "1"
        },
        2 => {
            proof {
                reveal_strlit("2");
            }
            "2"
        },
        3 => {
            proof {
                reveal_strlit("3");
            }
            "3"
        },
        4 => {
            proof {
                reveal_strlit("4");
            }
            "4"
        },
        5 => {
            proof {
                reveal_strlit("5");
            }
            "5"
        },
        6 => {
            proof {
                reveal_strlit("6");
            }
            "6"
        },
        7 => {
            proof {
                reveal_strlit("7");
            }
            "7"
        },
        8 => {
            proof {
                reveal_strlit("8");
            }
            "8"
        },
        _ => {
            proof {
                reveal_strlit("9");
            }
            "9"
        },
    }
}

/// Append `n` written in decimal to `s`.
fn append_decimal(s: &mut String, n: u64)
    ensures
        final(s)@ == old(s)@ + decimal(n as nat),
    decreases n,
{
    if n >= 10 {
        append_decimal(s, n / 10);
    }
    s.append(digit_str(n % 10));
}

/// The pause-menu label of a fork.
pub open spec fn fork_label(f: ForkInfo) -> Seq<char> {
    "FORK #"@ + decimal(f.fork_id as nat) + " @"@ + decimal(f.step as nat)
}

/// The pause menu: resume and save, the most recent forks, and exit.
pub open spec fn spec_pause_labels(forks: Seq<ForkInfo>) -> Seq<Seq<char>> {
    seq!["RESUME"@, "SAVE"@] + spec_recent(forks).map_values(|f: ForkInfo| fork_label(f)) + seq![
        "EXIT"@,
    ]
}

/// Build the labels for the pause menu.
pub fn pause_menu_labels(forks: &[ForkInfo]) -> (v: Vec<String>)
    ensures
        v@.map_values(|s: String| s@) == spec_pause_labels(forks@),
{
    broadcast use vstd::string::group_string_axioms;

    let mut labels: Vec<String> = Vec::new();
    labels.push("RESUME".to_string());
    labels.push("SAVE".to_string());
    let recent = recent_forks(forks);
    let ghost r = recent@;
    let mut i: usize = 0;
    while i < recent.len()
        invariant
            r == recent@,
            r == spec_recent(forks@),
            0 <= i <= recent.len(),
            labels.len() == i + 2,
            labels@[0]@ == "RESUME"@,
            labels@[1]@ == "SAVE"@,
            forall|k: int| 0 <= k < i ==> #[trigger] labels@[k + 2]@ == fork_label(r[k]),
        decreases recent.len() - i,
    {
        let f = recent[i];
        let mut label = "FORK #".to_string();
        append_decimal(&mut label, f.fork_id as u64);
        label.append(" @");
        append_decimal(&mut label, f.step);
        labels.push(label);
        i += 1;
    }
    labels.push("EXIT".to_string());
    proof {
        let want = spec_pause_labels(forks@);
        let got = labels@.map_values(|s: String| s@);
        assert(got.len() == want.len());
        assert forall|k: int| 0 <= k < got.len() implies got[k] == want[k] by {
            if 2 <= k < r.len() + 2 {
                assert(labels@[(k - 2) + 2]@ == fork_label(r[k - 2]));
            }
        }
        assert(got =~= want);
    }
    labels
}

/// What a pause-menu entry does.
#[derive(Clone, Copy, Debug, PartialEq, Eq, Structural)]
pub enum PauseAction {
    Resume,
    CreateFork,
    /// Open the detail of fork (id, step).
    OpenForkDetail(u32, u64),
    Exit,
}

/// What the pause-menu entry at `selected` does: 0 resumes, 1 saves a fork,
/// the last entry exits, and the entries between open the recent forks in
/// order; any index past the end exits too.
pub open spec fn spec_pause_action(selected: usize, forks: Seq<ForkInfo>) -> PauseAction {
    let r = spec_recent(forks);
    if selected == 0 {
        PauseAction::Resume
    } else if selected == 1 {
        PauseAction::CreateFork
    } else if selected == r.len() + 2 {
        PauseAction::Exit
    } else if selected - 2 < r.len() {
        PauseAction::OpenForkDetail(r[selected - 2].fork_id, r[selected - 2].step)
    } else {
        PauseAction::Exit
    }
}

/// What the pause-menu entry at `selected` does.
pub fn pause_menu_action(selected: usize, forks: &[ForkInfo]) -> (a: PauseAction)
    ensures
        a == spec_pause_action(selected, forks@),
{
    if selected == 0 {
        return PauseAction::Resume;
    }
    if selected == 1 {
        return PauseAction::CreateFork;
    }
    let recent = recent_forks(forks);
    proof {
        lemma_picks_len(forks@, 3);
    }
    let n_labels = recent.len() + 3;
    if selected == n_labels - 1 {
        return PauseAction::Exit;
    }
    let fork_index = selected - 2;
    if fork_index < recent.len() {
        PauseAction::OpenForkDetail(recent[fork_index].fork_id, recent[fork_index].step)
    } else {
        PauseAction::Exit
    }
}

// ---------------------------------------------------------------------------
// Overlays and music.
/// Dim the whole 224 by 288 game screen, as behind every overlay menu.
pub fn render_dim_overlay(fb: &mut Framebuffer)
    requires
        old(fb).inv(),
    ensures
        final(fb).inv(),
        final(fb).width == old(fb).width,
        final(fb).height == old(fb).height,
        forall|p: int|
            0 <= p < final(fb).pixels.len() ==> #[trigger] final(fb).pixels@[p] == if crate::framebuffer::covered(
                p,
                old(fb).width,
                rect_clip(0, 0, 224, 288, old(fb).width, old(fb).height),
            ) {
                if p % 4 == 3 {
                    255u8
                } else {
                    crate::framebuffer::dim_channel(old(fb).pixels@[p])
                }
            } else {
                old(fb).pixels@[p]
            },
{
    fb.dim_rect(0, 0, 224, 288);
}

/// A music track.
#[derive(Clone, Copy, Debug, PartialEq, Eq, Structural)]
pub enum MusicTrack {
    Menu,
    Game,
    /// No music.
    Silent,
}

impl MusicTrack {
    /// Asking for `next` while `self` plays leaves the music as it is: the
    /// same menu or game track keeps playing; anything else restarts the
    /// music (a request for no music stops it).
    pub fn keeps_playing(&self, next: &MusicTrack) -> (b: bool)
        ensures
            b == ((*self == MusicTrack::Menu && *next == MusicTrack::Menu) || (*self
                == MusicTrack::Game && *next == MusicTrack::Game)),
    {
        match (self, next) {
            (MusicTrack::Menu, MusicTrack::Menu) | (MusicTrack::Game, MusicTrack::Game) => true,
            _ => false,
        }
    }
}

// ---------------------------------------------------------------------------
// Laws of the pause menu.
/// Facts on the picks: each is a valid index, and each comes after the one
/// before it in recency order.
pub proof fn lemma_picks_chain(s: Seq<ForkInfo>, n: nat)
    ensures
        forall|a: int| 0 <= a < picks(s, n).len() ==> 0 <= #[trigger] picks(s, n)[a] < s.len(),
        forall|a: int|
            0 < a < picks(s, n).len() ==> comes_before(s, picks(s, n)[a - 1], #[trigger] picks(s, n)[a]),
    decreases n,
{
    if n > 0 {
        lemma_picks_chain(s, (n - 1) as nat);
        let p = picks(s, (n - 1) as nat);
        let prev = if p.len() == 0 {
            -1
        } else {
            p.last()
        };
        let nx = next_pick(s, prev);
        if nx >= 0 {
            assert(exists|j: int| is_next(s, prev, j));
            assert(is_next(s, prev, nx));
        }
        let q = picks(s, n);
        assert forall|a: int| 0 < a < q.len() implies comes_before(s, q[a - 1], #[trigger] q[a]) by {
            if a < p.len() {
                assert(q[a] == p[a] && q[a - 1] == p[a - 1]);
            }
        }
    }
}

/// The recent forks come by decreasing id.
pub proof fn law_recent_forks_newest_first(forks: Seq<ForkInfo>)
    ensures
        spec_recent(forks).len() <= PAUSE_MAX_FORKS,
        forall|a: int, b: int|
            0 <= a < b < spec_recent(forks).len() ==> spec_recent(forks)[a].fork_id
                >= spec_recent(forks)[b].fork_id,
{
    lemma_picks_len(forks, 3);
    lemma_picks_chain(forks, 3);
    let p = picks(forks, 3);
    let r = spec_recent(forks);
    assert forall|a: int, b: int| 0 <= a < b < r.len() implies r[a].fork_id >= r[b].fork_id by {
        assert(r[a] == forks[p[a]]);
        assert(r[b] == forks[p[b]]);
        if b == a + 1 {
            assert(comes_before(forks, p[a], p[a + 1]));
        } else if b == a + 2 {
            assert(comes_before(forks, p[a], p[a + 1]));
            assert(comes_before(forks, p[a + 1], p[a + 2]));
        }
    }
}

/// The recent forks are the newest: a fork left out of them has an id no
/// larger than any of them.
pub proof fn law_recent_forks_are_newest(forks: Seq<ForkInfo>, i: int)
    requires
        0 <= i < forks.len(),
        !spec_recent(forks).contains(forks[i]),
    ensures
        forall|a: int|
            0 <= a < spec_recent(forks).len() ==> forks[i].fork_id <= #[trigger] spec_recent(
                forks,
            )[a].fork_id,
{
    lemma_picks_len(forks, 3);
    lemma_picks_chain(forks, 3);
    lemma_picks_cover(forks, 3);
    law_recent_forks_newest_first(forks);
    let p = picks(forks, 3);
    let r = spec_recent(forks);
    if p.contains(i) {
        let a = choose|a: int| 0 <= a < p.len() && p[a] == i;
        assert(r[a] == forks[i]);
        assert(false);
    }
    if p.len() > 0 {
        assert(after(forks, p.last(), i));
        assert(r[r.len() - 1] == forks[p.last()]);
        assert forall|a: int| 0 <= a < r.len() implies forks[i].fork_id <= #[trigger] r[a].fork_id by {
            assert(r[a].fork_id >= r[r.len() - 1].fork_id);
        }
    }
}

/// Every pause-menu entry does what its label says: "RESUME" resumes,
/// "SAVE" saves a fork, a fork's label opens that fork, and "EXIT" exits.
pub proof fn law_pause_entry_matches_label(forks: Seq<ForkInfo>, selected: usize)
    requires
        selected < spec_pause_labels(forks).len(),
    ensures
        ({
            let labels = spec_pause_labels(forks);
            let r = spec_recent(forks);
            let a = spec_pause_action(selected, forks);
            &&& selected == 0 ==> labels[0] == "RESUME"@ && a == PauseAction::Resume
            &&& selected == 1 ==> labels[1] == "SAVE"@ && a == PauseAction::CreateFork
            &&& 2 <= selected < labels.len() - 1 ==> labels[selected as int] == fork_label(
                r[selected - 2],
            ) && a == PauseAction::OpenForkDetail(r[selected - 2].fork_id, r[selected - 2].step)
            &&& selected == labels.len() - 1 ==> labels[selected as int] == "EXIT"@ && a
                == PauseAction::Exit
        }),
{
    let r = spec_recent(forks);
    let labels = spec_pause_labels(forks);
    let mid = r.map_values(|f: ForkInfo| fork_label(f));
    assert(labels == seq!["RESUME"@, "SAVE"@] + mid + seq!["EXIT"@]);
    assert(labels.len() == r.len() + 3);
    if 2 <= selected < labels.len() - 1 {
        assert(labels[selected as int] == mid[selected - 2]);
    }
}

/// Among the indices below `m`, if some come after `prev`, one of them comes
/// first in recency order.
proof fn lemma_first_after(s: Seq<ForkInfo>, prev: int, m: int)
    requires
        0 <= m <= s.len(),
        exists|j: int| 0 <= j < m && #[trigger] after(s, prev, j),
    ensures
        exists|j: int|
            0 <= j < m && after(s, prev, j) && forall|k: int|
                0 <= k < m && #[trigger] after(s, prev, k) && k != j ==> comes_before(s, j, k),
    decreases m,
{
    if exists|j: int| 0 <= j < m - 1 && #[trigger] after(s, prev, j) {
        lemma_first_after(s, prev, m - 1);
        let j = choose|j: int|
            0 <= j < m - 1 && after(s, prev, j) && forall|k: int|
                0 <= k < m - 1 && #[trigger] after(s, prev, k) && k != j ==> comes_before(s, j, k);
        if after(s, prev, m - 1) && comes_before(s, m - 1, j) {
            assert forall|k: int|
                0 <= k < m && #[trigger] after(s, prev, k) && k != m - 1 implies comes_before(s, m - 1, k) by {
                if k != j {
                    assert(comes_before(s, j, k));
                }
            }
        } else {
            assert forall|k: int|
                0 <= k < m && #[trigger] after(s, prev, k) && k != j implies comes_before(s, j, k) by {
                if k == m - 1 {
                    assert(!comes_before(s, m - 1, j));
                }
            }
        }
    } else {
        assert forall|k: int|
            0 <= k < m && #[trigger] after(s, prev, k) && k != m - 1 implies comes_before(s, m - 1, k) by {}
    }
}

/// Every index not yet picked comes after the last pick; when the picks
/// stop short of `n`, every index has been picked.
proof fn lemma_picks_cover(s: Seq<ForkInfo>, n: nat)
    ensures
        ({
            let p = picks(s, n);
            &&& p.len() > 0 ==> forall|j: int|
                0 <= j < s.len() && !p.contains(j) ==> #[trigger] after(s, p.last(), j)
            &&& p.len() < n ==> forall|j: int| 0 <= j < s.len() ==> #[trigger] p.contains(j)
        }),
    decreases n,
{
    if n > 0 {
        lemma_picks_cover(s, (n - 1) as nat);
        lemma_picks_chain(s, (n - 1) as nat);
        let p = picks(s, (n - 1) as nat);
        let prev = if p.len() == 0 {
            -1
        } else {
            p.last()
        };
        let nx = next_pick(s, prev);
        if nx >= 0 && !(n > 1 && p.len() < n - 1) {
            assert(is_next(s, prev, nx));
            let q = p.push(nx);
            assert forall|j: int| 0 <= j < s.len() && !q.contains(j) implies #[trigger] after(s, q.last(), j) by {
                if p.contains(j) {
                    let a = choose|a: int| 0 <= a < p.len() && p[a] == j;
                    assert(q[a] == j);
                }
                assert(q[q.len() - 1] == nx);
                if p.len() > 0 {
                    assert(after(s, prev, j));
                } else {
                    assert(after(s, -1, j));
                }
                assert(j != nx);
            }
        } else if nx < 0 {
            // Every index is picked: an unpicked one would come after `prev`,
            // and then a first one would exist.
            assert forall|j: int| 0 <= j < s.len() implies #[trigger] p.contains(j) by {
                if !p.contains(j) {
                    assert(after(s, prev, j));
                    lemma_first_after(s, prev, s.len() as int);
                    let f = choose|f: int|
                        0 <= f < s.len() && after(s, prev, f) && forall|k: int|
                            0 <= k < s.len() && #[trigger] after(s, prev, k) && k != f ==> comes_before(s, f, k);
                    assert(is_next(s, prev, f));
                    assert(false);
                }
            }
        }
    }
}

/// The pause menu lists three recent forks, or all of them when there are
/// fewer.
pub proof fn law_recent_forks_count(forks: Seq<ForkInfo>)
    ensures
        spec_recent(forks).len() == if forks.len() < 3 {
            forks.len()
        } else {
            3
        },
{
    lemma_picks_len(forks, 3);
    lemma_picks_chain(forks, 3);
    lemma_picks_cover(forks, 3);
    let p = picks(forks, 3);
    if p.len() < 3 {
        // The picks are distinct and cover every index.
        assert forall|a: int, b: int| 0 <= a < b < p.len() implies p[a] != p[b] by {
            assert(comes_before(forks, p[a], p[a + 1]));
            if b == a + 2 {
                assert(comes_before(forks, p[a + 1], p[a + 2]));
            }
        }
        assert(p.no_duplicates());
        p.unique_seq_to_set();
        vstd::set_lib::lemma_int_range(0, forks.len() as int);
        assert(vstd::set_lib::set_int_range(0, forks.len() as int).subset_of(p.to_set()));
        vstd::seq_lib::seq_to_set_is_finite(p);
        vstd::set_lib::lemma_len_subset(vstd::set_lib::set_int_range(0, forks.len() as int), p.to_set());
    } else {
        assert forall|a: int, b: int| 0 <= a < b < p.len() implies p[a] != p[b] by {
            assert(comes_before(forks, p[a], p[a + 1]));
            if b == a + 2 {
                assert(comes_before(forks, p[a + 1], p[a + 2]));
            }
        }
        assert(forks.len() >= 3) by {
            if forks.len() < 3 {
                assert(p.no_duplicates());
                p.unique_seq_to_set();
                vstd::set_lib::lemma_int_range(0, forks.len() as int);
                assert(p.to_set().subset_of(vstd::set_lib::set_int_range(0, forks.len() as int)));
                vstd::set_lib::lemma_len_subset(p.to_set(), vstd::set_lib::set_int_range(0, forks.len() as int));
            }
        }
    }
}

// ---------------------------------------------------------------------------
// Moving through menus.
/// The cursor of a menu of `len` entries after an up and/or down key press
/// in one frame: up moves to the previous entry unless at the top, then
/// down moves to the next unless at the bottom.
pub open spec fn spec_menu_cursor(selected: usize, len: usize, up: bool, down: bool) -> int {
    let after_up = if up && selected > 0 {
        selected - 1
    } else {
        selected as int
    };
    if down && after_up + 1 < len {
        after_up + 1
    } else {
        after_up
    }
}

/// Move the cursor of a menu of `len` entries (see [`spec_menu_cursor`]).
pub fn menu_cursor(selected: usize, len: usize, up: bool, down: bool) -> (s: usize)
    ensures
        s == spec_menu_cursor(selected, len, up, down),
{
    let mut s = selected;
    if up && s > 0 {
        s = s - 1;
    }
    if down && len > 0 && s < len - 1 {
        s = s + 1;
    }
    s
}

/// Entries of the main menu.
#[derive(Clone, Copy, Debug, PartialEq, Eq, Structural)]
pub enum MainMenuChoice {
    StartGame,
    Credits,
}

/// What confirming the main-menu entry at `selected` does: 0 starts a game,
/// 1 opens the credits, anything else nothing.
pub open spec fn spec_main_menu_choice(selected: usize) -> Option<MainMenuChoice> {
    if selected == 0 {
        Some(MainMenuChoice::StartGame)
    } else if selected == 1 {
        Some(MainMenuChoice::Credits)
    } else {
        None
    }
}

/// What confirming the main-menu entry at `selected` does (see [`spec_main_menu_choice`]).
pub fn main_menu_choice(selected: usize) -> (c: Option<MainMenuChoice>)
    ensures
        c == spec_main_menu_choice(selected),
{
    match selected {
        0 => Some(MainMenuChoice::StartGame),
        1 => Some(MainMenuChoice::Credits),
        _ => None,
    }
}

/// Entries of the fork-detail menu.
#[derive(Clone, Copy, Debug, PartialEq, Eq, Structural)]
pub enum ForkDetailChoice {
    /// Switch to this fork and resume.
    Enter,
    /// Delete this fork and go back to the pause menu.
    Delete,
    /// Go back to the pause menu.
    Back,
}

/// What confirming the fork-detail entry at `selected` does: 0 enters the
/// fork, 1 deletes it, anything else goes back.
pub open spec fn spec_fork_detail_choice(selected: usize) -> ForkDetailChoice {
    if selected == 0 {
        ForkDetailChoice::Enter
    } else if selected == 1 {
        ForkDetailChoice::Delete
    } else {
        ForkDetailChoice::Back
    }
}

/// What confirming the fork-detail entry at `selected` does (see [`spec_fork_detail_choice`]).
pub fn fork_detail_choice(selected: usize) -> (c: ForkDetailChoice)
    ensures
        c == spec_fork_detail_choice(selected),
{
    match selected {
        0 => ForkDetailChoice::Enter,
        1 => ForkDetailChoice::Delete,
        _ => ForkDetailChoice::Back,
    }
}

/// A cursor inside a menu stays inside it, whatever keys are pressed.
pub proof fn law_cursor_stays_in_menu(selected: usize, len: usize, up: bool, down: bool)
    requires
        selected < len,
    ensures
        0 <= spec_menu_cursor(selected, len, up, down) < len,
{
}

/// The cursor moves by one entry: Up alone goes to the entry above unless
/// on the first, Down alone to the entry below unless on the last, both
/// together undo each other, and no key leaves it where it is.
pub proof fn law_cursor_moves_by_one(selected: usize, len: usize, up: bool, down: bool)
    requires
        selected < len,
    ensures
        up && !down ==> spec_menu_cursor(selected, len, up, down) == if selected > 0 {
            selected - 1
        } else {
            0
        },
        !up && down ==> spec_menu_cursor(selected, len, up, down) == if selected + 1 < len {
            selected + 1
        } else {
            selected as int
        },
        !up && !down ==> spec_menu_cursor(selected, len, up, down) == selected,
        up && down && 0 < selected ==> spec_menu_cursor(selected, len, up, down) == selected,
{
}

} // verus!
