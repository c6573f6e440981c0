//! Keyboard state: which keys are held, and which went down this frame.
use vstd::prelude::*;

use crate::actions::Action;

verus! {

/// A key, as far as the game tells keys apart: the named keys it uses, a key
/// that types a single character, and every other key.
#[derive(Clone, Copy, Debug, PartialEq, Eq, Structural)]
pub enum Key {
    ArrowUp,
    ArrowDown,
    ArrowLeft,
    ArrowRight,
    Enter,
    Escape,
    Space,
    Character(char),
    Other,
}

pub fn key_up() -> (k: Key)
    ensures
        k == Key::ArrowUp,
{
    Key::ArrowUp
}

pub fn key_down() -> (k: Key)
    ensures
        k == Key::ArrowDown,
{
    Key::ArrowDown
}

pub fn key_left() -> (k: Key)
    ensures
        k == Key::ArrowLeft,
{
    Key::ArrowLeft
}

pub fn key_right() -> (k: Key)
    ensures
        k == Key::ArrowRight,
{
    Key::ArrowRight
}

pub fn key_enter() -> (k: Key)
    ensures
        k == Key::Enter,
{
    Key::Enter
}

pub fn key_escape() -> (k: Key)
    ensures
        k == Key::Escape,
{
    Key::Escape
}

pub fn key_space() -> (k: Key)
    ensures
        k == Key::Space,
{
    Key::Space
}

pub fn key_char(c: char) -> (k: Key)
    ensures
        k == Key::Character(c),
{
    Key::Character(c)
}

/// Keyboard state: the keys held down, and those that went down since the
/// end of the last frame.
#[derive(Debug)]
pub struct InputState {
    pressed: Vec<Key>,
    just_pressed: Vec<Key>,
}

/// Whether `k` is in the list `v`.
fn contains_key(v: &Vec<Key>, k: Key) -> (b: bool)
    ensures
        b == v@.contains(k),
{
    let mut i: usize = 0;
    while i < v.len()
        invariant
            0 <= i <= v.len(),
            forall|j: int| 0 <= j < i ==> v@[j] != k,
        decreases v.len() - i,
    {
        if v[i] == k {
            assert(v@[i as int] == k);
            return true;
        }
        i += 1;
    }
    false
}

/// Remove `k` from a list in which it occurs at most once.
fn remove_key(v: &mut Vec<Key>, k: Key)
    requires
        old(v)@.no_duplicates(),
    ensures
        final(v)@.no_duplicates(),
        final(v)@.to_set() == old(v)@.to_set().remove(k),
{
    let ghost before = v@;
    let mut i: usize = 0;
    while i < v.len()
        invariant
            v@ == before,
            before == old(v)@,
            before.no_duplicates(),
            0 <= i <= v.len(),
            forall|j: int| 0 <= j < i ==> v@[j] != k,
        decreases v.len() - i,
    {
        if v[i] == k {
            v.remove(i);
            proof {
                let after = v@;
                assert(after == before.remove(i as int));
                assert forall|a: int, b: int| 0 <= a < after.len() && 0 <= b < after.len() && a != b implies after[a]
                    != after[b] by {
                    let a0 = if a < i {
                        a
                    } else {
                        a + 1
                    };
                    let b0 = if b < i {
                        b
                    } else {
                        b + 1
                    };
                    assert(after[a] == before[a0]);
                    assert(after[b] == before[b0]);
                }
                assert forall|x: Key| after.to_set().contains(x) <==> before.to_set().remove(k).contains(
                    x,
                ) by {
                    if after.contains(x) {
                        let a = choose|a: int| 0 <= a < after.len() && after[a] == x;
                        let a0 = if a < i {
                            a
                        } else {
                            a + 1
                        };
                        assert(before[a0] == x);
                        assert(x != k);
                    }
                    if before.contains(x) && x != k {
                        let b = choose|b: int| 0 <= b < before.len() && before[b] == x;
                        if b < i {
                            assert(after[b] == x);
                        } else {
                            assert(b != i);
                            assert(after[b - 1] == x);
                        }
                    }
                }
                assert(after.to_set() =~= before.to_set().remove(k));
            }
            return ;
        }
        i += 1;
    }
    proof {
        assert(!before.contains(k));
        assert(before.to_set() =~= before.to_set().remove(k));
    }
}

/// Add `k` to a list without duplicates that lacks it.
proof fn lemma_push_fresh(s: Seq<Key>, k: Key)
    requires
        s.no_duplicates(),
        !s.contains(k),
    ensures
        s.push(k).no_duplicates(),
        s.push(k).to_set() == s.to_set().insert(k),
{
    let t = s.push(k);
    assert forall|a: int, b: int| 0 <= a < t.len() && 0 <= b < t.len() && a != b implies t[a] != t[b] by {
        if a == s.len() {
            assert(s[b] == t[b]);
        } else if b == s.len() {
            assert(s[a] == t[a]);
        }
    }
    assert forall|x: Key| t.to_set().contains(x) <==> s.to_set().insert(k).contains(x) by {
        if t.contains(x) {
            let a = choose|a: int| 0 <= a < t.len() && t[a] == x;
            if a < s.len() {
                assert(s[a] == x);
            }
        }
        if s.contains(x) {
            let a = choose|a: int| 0 <= a < s.len() && s[a] == x;
            assert(t[a] == x);
        }
        if x == k {
            assert(t[s.len() as int] == k);
        }
    }
    assert(t.to_set() =~= s.to_set().insert(k));
}

impl InputState {
    /// The keys held down.
    pub closed spec fn held(&self) -> Set<Key> {
        self.pressed@.to_set()
    }

    /// The keys that went down since the last end of frame.
    pub closed spec fn went_down(&self) -> Set<Key> {
        self.just_pressed@.to_set()
    }

    /// Neither list holds a key twice.
    pub closed spec fn wf(&self) -> bool {
        &&& self.pressed@.no_duplicates()
        &&& self.just_pressed@.no_duplicates()
    }

    /// No key held, none just pressed.
    pub fn new() -> (s: Self)
        ensures
            s.wf(),
            s.held() == Set::<Key>::empty(),
            s.went_down() == Set::<Key>::empty(),
    {
        let s = InputState { pressed: Vec::new(), just_pressed: Vec::new() };
        assert(s.pressed@.to_set() =~= Set::<Key>::empty());
        assert(s.just_pressed@.to_set() =~= Set::<Key>::empty());
        s
    }

    /// A key went down. Only a key that was not already held counts as just
    /// pressed (key repeat does not).
    pub fn key_down(&mut self, key: Key)
        requires
            old(self).wf(),
        ensures
            final(self).wf(),
            final(self).held() == old(self).held().insert(key),
            final(self).went_down() == if old(self).held().contains(key) {
                old(self).went_down()
            } else {
                old(self).went_down().insert(key)
            },
    {
        if !contains_key(&self.pressed, key) {
            proof {
                lemma_push_fresh(self.pressed@, key);
            }
            self.pressed.push(key);
            if !contains_key(&self.just_pressed, key) {
                proof {
                    lemma_push_fresh(self.just_pressed@, key);
                }
                self.just_pressed.push(key);
            } else {
                proof {
                    assert(self.just_pressed@.to_set() =~= self.just_pressed@.to_set().insert(key));
                }
            }
        } else {
            proof {
                assert(self.pressed@.to_set() =~= self.pressed@.to_set().insert(key));
            }
        }
    }

    /// A key went up.
    pub fn key_up(&mut self, key: Key)
        requires
            old(self).wf(),
        ensures
            final(self).wf(),
            final(self).held() == old(self).held().remove(key),
            final(self).went_down() == old(self).went_down(),
    {
        remove_key(&mut self.pressed, key);
    }

    /// Whether `key` is held down.
    pub fn is_held(&self, key: Key) -> (b: bool)
        ensures
            b == self.held().contains(key),
    {
        contains_key(&self.pressed, key)
    }

    /// Whether `key` went down since the last end of frame.
    pub fn just_pressed(&self, key: Key) -> (b: bool)
        ensures
            b == self.went_down().contains(key),
    {
        contains_key(&self.just_pressed, key)
    }

    /// End of frame: no key counts as just pressed any more.
    pub fn end_frame(&mut self)
        requires
            old(self).wf(),
        ensures
            final(self).wf(),
            final(self).held() == old(self).held(),
            final(self).went_down() == Set::<Key>::empty(),
    {
        self.just_pressed.clear();
        assert(self.just_pressed@.to_set() =~= Set::<Key>::empty());
    }

    /// Clear all state — used on phase transitions to prevent input bleed.
    pub fn clear(&mut self)
        ensures
            final(self).wf(),
            final(self).held() == Set::<Key>::empty(),
            final(self).went_down() == Set::<Key>::empty(),
    {
        self.pressed.clear();
        self.just_pressed.clear();
        assert(self.pressed@.to_set() =~= Set::<Key>::empty());
        assert(self.just_pressed@.to_set() =~= Set::<Key>::empty());
    }

    /// Convert current keyboard state into a list of core Actions: left
    /// (arrow or 'a'), right (arrow or 'd'), fire (space), in that order.
    pub fn to_actions(&self) -> (v: Vec<Action>)
        ensures
            v@ == held_actions(self.held()),
    {
        let mut actions: Vec<Action> = Vec::new();
        if self.is_held(key_left()) || self.is_held(key_char('a')) {
            actions.push(Action::Left);
        }
        if self.is_held(key_right()) || self.is_held(key_char('d')) {
            actions.push(Action::Right);
        }
        if self.is_held(key_space()) {
            actions.push(Action::Fire);
        }
        actions
    }
}

/// The actions that a set of held keys asks for.
pub open spec fn held_actions(held: Set<Key>) -> Seq<Action> {
    let l = held.contains(Key::ArrowLeft) || held.contains(Key::Character('a'));
    let r = held.contains(Key::ArrowRight) || held.contains(Key::Character('d'));
    let f = held.contains(Key::Space);
    (if l {
        seq![Action::Left]
    } else {
        seq![]
    }) + (if r {
        seq![Action::Right]
    } else {
        seq![]
    }) + (if f {
        seq![Action::Fire]
    } else {
        seq![]
    })
}

/// The held keys steer the ship: Left comes out exactly when the Left arrow
/// or 'a' is held, Right exactly when the Right arrow or 'd' is held, and
/// Fire exactly when Space is held; no other action comes out, none twice,
/// and in the order Left, Right, Fire.
pub proof fn law_held_keys_give_actions(held: Set<Key>)
    ensures
        held_actions(held).contains(Action::Left) <==> (held.contains(Key::ArrowLeft) || held.contains(
            Key::Character('a'),
        )),
        held_actions(held).contains(Action::Right) <==> (held.contains(Key::ArrowRight)
            || held.contains(Key::Character('d'))),
        held_actions(held).contains(Action::Fire) <==> held.contains(Key::Space),
        forall|a: Action| #[trigger] held_actions(held).contains(a) ==> a == Action::Left || a == Action::Right
            || a == Action::Fire,
        held_actions(held).no_duplicates(),
        forall|i: int, j: int|
            0 <= i < j < held_actions(held).len() ==> (held_actions(held)[i] == Action::Left
                || held_actions(held)[j] == Action::Fire),
{
    let l = held.contains(Key::ArrowLeft) || held.contains(Key::Character('a'));
    let r = held.contains(Key::ArrowRight) || held.contains(Key::Character('d'));
    let f = held.contains(Key::Space);
    let sl: Seq<Action> = if l { seq![Action::Left] } else { seq![] };
    let sr: Seq<Action> = if r { seq![Action::Right] } else { seq![] };
    let sf: Seq<Action> = if f { seq![Action::Fire] } else { seq![] };
    let h = held_actions(held);
    assert(h == sl + sr + sf);
    assert forall|a: Action| #[trigger] h.contains(a) <==> ((l && a == Action::Left) || (r && a == Action::Right)
        || (f && a == Action::Fire)) by {
        if h.contains(a) {
            let i = choose|i: int| 0 <= i < h.len() && h[i] == a;
            if i < sl.len() {
                assert(h[i] == sl[i]);
            } else if i < sl.len() + sr.len() {
                assert(h[i] == sr[i - sl.len()]);
            } else {
                assert(h[i] == sf[i - sl.len() - sr.len()]);
            }
        }
        if l && a == Action::Left {
            assert(h[0] == Action::Left);
        }
        if r && a == Action::Right {
            assert(h[sl.len() as int] == Action::Right);
        }
        if f && a == Action::Fire {
            assert(h[(sl.len() + sr.len()) as int] == Action::Fire);
        }
    }
    assert forall|i: int, j: int| 0 <= i < h.len() && 0 <= j < h.len() && i != j implies h[i] != h[j] by {
        let val = |k: int| if k < sl.len() {
            Action::Left
        } else if k < sl.len() + sr.len() {
            Action::Right
        } else {
            Action::Fire
        };
        assert(h[i] == val(i));
        assert(h[j] == val(j));
    }
    assert forall|i: int, j: int| 0 <= i < j < h.len() implies (h[i] == Action::Left || h[j] == Action::Fire) by {
        if i < sl.len() {
            assert(h[i] == Action::Left);
        } else {
            assert(h[j] == sf[j - sl.len() - sr.len()]);
        }
    }
}

} // verus!
