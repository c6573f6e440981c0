//! Powerup kinds and where a powerup appears.
use vstd::prelude::*;

verus! {

/// The six kinds of powerup, numbered 0 to 5 in this order.
#[derive(Clone, Copy, Debug, PartialEq, Eq, Structural)]
pub enum PowerupKind {
    Life,
    Rate,
    Speed,
    Double,
    Triple,
    Shield,
}

/// The kind numbered `n`, where every number from 5 on names a shield.
pub open spec fn spec_kind_from_index(n: int) -> PowerupKind {
    if n == 0 {
        PowerupKind::Life
    } else if n == 1 {
        PowerupKind::Rate
    } else if n == 2 {
        PowerupKind::Speed
    } else if n == 3 {
        PowerupKind::Double
    } else if n == 4 {
        PowerupKind::Triple
    } else {
        PowerupKind::Shield
    }
}

impl PowerupKind {
    /// The kind numbered `n`, where every number from 5 on names a shield.
    pub fn from_index(n: u64) -> (k: PowerupKind)
        ensures
            k == spec_kind_from_index(n as int),
    {
        if n == 0 {
            PowerupKind::Life
        } else if n == 1 {
            PowerupKind::Rate
        } else if n == 2 {
            PowerupKind::Speed
        } else if n == 3 {
            PowerupKind::Double
        } else if n == 4 {
            PowerupKind::Triple
        } else {
            PowerupKind::Shield
        }
    }

    /// The number of this kind, 0 to 5.
    pub fn index(&self) -> (n: u8)
        ensures
            n < 6,
            spec_kind_from_index(n as int) == *self,
    {
        match self {
            PowerupKind::Life => 0,
            PowerupKind::Rate => 1,
            PowerupKind::Speed => 2,
            PowerupKind::Double => 3,
            PowerupKind::Triple => 4,
            PowerupKind::Shield => 5,
        }
    }
}

/// Multiplier of the linear congruential step used to spread a seed.
pub const LCG_MULTIPLIER: u64 = 6364136223846793005;

/// One step of the 64-bit linear congruential generator: `s * M + 1`, wrapping.
pub open spec fn lcg_step(s: u64) -> u64 {
    ((s as int * LCG_MULTIPLIER as int + 1) % 0x1_0000_0000_0000_0000) as u64
}

/// One step of the 64-bit linear congruential generator: `s * M + 1`, wrapping.
pub fn lcg_next(s: u64) -> (t: u64)
    ensures
        t == lcg_step(s),
{
    let m = s.wrapping_mul(LCG_MULTIPLIER);
    let t = m.wrapping_add(1);
    assert(t == lcg_step(s)) by {
        assert(m as int == (s as int * LCG_MULTIPLIER as int) % 0x1_0000_0000_0000_0000);
        assert(t as int == (m as int + 1) % 0x1_0000_0000_0000_0000);
        vstd::arithmetic::div_mod::lemma_add_mod_noop(
            s as int * LCG_MULTIPLIER as int,
            1,
            0x1_0000_0000_0000_0000,
        );
        vstd::arithmetic::div_mod::lemma_small_mod(1, 0x1_0000_0000_0000_0000);
    }
    t
}

/// The high 31 bits of a generator state, as drawn by the game.
pub open spec fn high_bits(s: u64) -> u32 {
    (s as nat / 0x2_0000_0000) as u32
}

/// Where a powerup injected from a seed appears: its kind, and its x and y in
/// pixels. Three generator steps from the seed give three draws: the first
/// picks the kind (its value mod 6), the second x (mod 208, so that a 16 px
/// sprite fits in the 224 px width) and the third y (mod 272, within the
/// 288 px height).
pub open spec fn spec_random_powerup(seed: u64) -> (PowerupKind, u32, u32) {
    let s1 = lcg_step(seed);
    let s2 = lcg_step(s1);
    let s3 = lcg_step(s2);
    (
        spec_kind_from_index((high_bits(s1) % 6) as int),
        high_bits(s2) % 208,
        high_bits(s3) % 272,
    )
}

/// Kind and position (x, y in pixels) of a powerup injected from a seed.
pub fn random_powerup(rng_seed: u64) -> (r: (PowerupKind, u32, u32))
    ensures
        r == spec_random_powerup(rng_seed),
{
    let mut s = lcg_next(rng_seed);
    let r0 = shift_high(s);
    s = lcg_next(s);
    let r1 = shift_high(s);
    let kind = PowerupKind::from_index((r0 % 6) as u64);
    let x = r1 % 208;
    s = lcg_next(s);
    let r2 = shift_high(s);
    let y = r2 % 272;
    (kind, x, y)
}

/// `s >> 33`, which fits in 31 bits.
fn shift_high(s: u64) -> (r: u32)
    ensures
        r == high_bits(s),
{
    let h = s >> 33;
    assert(h == s / 0x2_0000_0000 && h < 0x8000_0000) by (bit_vector)
        requires
            h == s >> 33,
    ;
    h as u32
}

/// The seed a reset draws from the frame counter: one generator step.
pub fn reset_seed(frame_counter: u64) -> (s: u64)
    ensures
        s == lcg_step(frame_counter),
{
    lcg_next(frame_counter)
}

/// An injected powerup lies wholly on screen: its 16 px sprite fits within
/// the 224 by 288 screen.
pub proof fn law_random_powerup_on_screen(seed: u64)
    ensures
        spec_random_powerup(seed).1 + 16 <= 224,
        spec_random_powerup(seed).2 + 16 <= 288,
{
}

} // verus!
