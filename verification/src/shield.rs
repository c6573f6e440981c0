//! Three-stage shields carried by the player and by some enemies.
use vstd::prelude::*;

verus! {

/// Shield charge level.
#[derive(Clone, Copy, Debug, PartialEq, Eq, Structural)]
pub enum ShieldLevel {
    Full,
    Damaged,
    /// Blinks every 10 game steps before disappearing on next hit.
    Critical,
}

/// Optional shield on a player or enemy.
#[derive(Clone, Copy, Debug, PartialEq, Eq, Structural)]
pub struct Shield {
    pub level: ShieldLevel,
    /// Phase offset for pulsation, so shields aren't in sync.
    pub phase: u64,
}

/// The level a shield drops to when hit, or `None` when the hit breaks it.
pub open spec fn level_after_hit(level: ShieldLevel) -> Option<ShieldLevel> {
    match level {
        ShieldLevel::Full => Some(ShieldLevel::Damaged),
        ShieldLevel::Damaged => Some(ShieldLevel::Critical),
        ShieldLevel::Critical => None,
    }
}

/// Pulsation radii, in pixels, cycled through every six frames.
pub open spec fn radius_table(i: int) -> u32 {
    if i == 0 || i == 4 {
        9
    } else if i == 1 || i == 3 {
        10
    } else {
        11
    }
}

impl Shield {
    pub fn new(phase: u64) -> (s: Self)
        ensures
            s.level == ShieldLevel::Full,
            s.phase == phase,
    {
        Self { level: ShieldLevel::Full, phase }
    }

    /// Take a hit. Returns true if the shield absorbed it (still alive),
    /// false if the shield just broke (caller should remove it).
    pub fn hit(&mut self) -> (absorbed: bool)
        ensures
            absorbed == (level_after_hit(old(self).level) is Some),
            absorbed ==> final(self).level == level_after_hit(old(self).level)->0,
            !absorbed ==> final(self).level == old(self).level,
            final(self).phase == old(self).phase,
    {
        match self.level {
            ShieldLevel::Full => {
                self.level = ShieldLevel::Damaged;
                true
            },
            ShieldLevel::Damaged => {
                self.level = ShieldLevel::Critical;
                true
            },
            ShieldLevel::Critical => false,
        }
    }

    /// Whether a critical shield is in the visible half of its blink cycle
    /// (it alternates every 10 frames). Full and damaged shields never blink.
    pub fn blink_on(&self, frame_counter: u64) -> (on: bool)
        requires
            frame_counter + self.phase <= u64::MAX,
        ensures
            on == (self.level != ShieldLevel::Critical || ((frame_counter + self.phase) / 10) % 2
                == 0),
    {
        match self.level {
            ShieldLevel::Critical => ((frame_counter + self.phase) / 10) % 2 == 0,
            _ => true,
        }
    }

    /// Pulsating radius, in pixels, based on the frame counter and the
    /// per-shield phase offset.
    pub fn radius(&self, frame_counter: u64) -> (r: u32)
        requires
            frame_counter + self.phase <= u64::MAX,
        ensures
            r == radius_table(((frame_counter + self.phase) / 6) % 5),
    {
        let idx = ((frame_counter + self.phase) / 6) % 5;
        if idx == 0 || idx == 4 {
            9
        } else if idx == 1 || idx == 3 {
            10
        } else {
            11
        }
    }
}

/// Let an optional shield take a hit: a shield that breaks is removed.
/// Returns whether a shield was there to take it.
pub fn absorb_hit(shield: &mut Option<Shield>) -> (had_shield: bool)
    ensures
        had_shield == (*old(shield) is Some),
        match *old(shield) {
            None => *final(shield) is None,
            Some(s) => match level_after_hit(s.level) {
                None => *final(shield) is None,
                Some(l) => *final(shield) == Some(Shield { level: l, phase: s.phase }),
            },
        },
{
    match shield {
        Some(s) => {
            let mut t = *s;
            if t.hit() {
                *shield = Some(t);
            } else {
                *shield = None;
            }
            true
        },
        None => false,
    }
}

} // verus!
