//! Tick-by-tick aging of short-lived effects: explosions, enemy bursts and
//! bullet trails; and the integer noise behind the background.
use vstd::prelude::*;

verus! {

/// Ticks each explosion frame is shown.
pub const EXPLOSION_FRAME_TICKS: u8 = 6;

/// Frames of an explosion.
pub const EXPLOSION_FRAMES: u8 = 4;

/// Bullets in an enemy burst.
pub const BURST_SIZE: u8 = 3;

/// Ticks between the bullets of a burst.
pub const BURST_TICK_INTERVAL: u8 = 4;

/// Ticks a trail particle lives.
pub const TRAIL_LIFETIME: u8 = 5;

/// An explosion one tick later, as (frame, ticks left in the frame), or
/// `None` when it has played its last frame: when the current frame's ticks
/// are used up the next frame starts with 6 ticks, of which this tick uses one.
pub open spec fn spec_advance_explosion(frame: u8, timer: u8) -> Option<(u8, u8)> {
    if timer == 0 {
        if frame + 1 >= EXPLOSION_FRAMES {
            None
        } else {
            Some(((frame + 1) as u8, (EXPLOSION_FRAME_TICKS - 1) as u8))
        }
    } else {
        Some((frame, (timer - 1) as u8))
    }
}

/// Advance an explosion by one tick.
pub fn advance_explosion(frame: u8, timer: u8) -> (r: Option<(u8, u8)>)
    requires
        timer == 0 ==> frame < 255,
    ensures
        r == spec_advance_explosion(frame, timer),
{
    let mut frame = frame;
    let mut timer = timer;
    if timer == 0 {
        frame = frame + 1;
        if frame >= EXPLOSION_FRAMES {
            return None;
        }
        timer = EXPLOSION_FRAME_TICKS;
    }
    timer = timer - 1;
    Some((frame, timer))
}

/// What an enemy burst does in a tick.
#[derive(Clone, Copy, Debug, PartialEq, Eq, Structural)]
pub struct BurstStep {
    /// A bullet leaves the burst this tick.
    pub fires: bool,
    /// Bullets still to come.
    pub remaining: u8,
    /// Ticks until the next one.
    pub ticks_until_next: u8,
    /// The burst goes on (it has bullets left).
    pub keep: bool,
}

/// A burst fires when its wait is over, then waits 4 ticks again; otherwise
/// its wait shortens by a tick. It ends when no bullet is left.
pub open spec fn spec_advance_burst(remaining: u8, ticks_until_next: u8) -> BurstStep {
    if ticks_until_next == 0 {
        BurstStep {
            fires: true,
            remaining: (remaining - 1) as u8,
            ticks_until_next: BURST_TICK_INTERVAL,
            keep: remaining - 1 > 0,
        }
    } else {
        BurstStep {
            fires: false,
            remaining,
            ticks_until_next: (ticks_until_next - 1) as u8,
            keep: remaining > 0,
        }
    }
}

/// Advance an enemy burst by one tick.
pub fn advance_burst(remaining: u8, ticks_until_next: u8) -> (s: BurstStep)
    requires
        ticks_until_next == 0 ==> remaining > 0,
    ensures
        s == spec_advance_burst(remaining, ticks_until_next),
{
    if ticks_until_next == 0 {
        let r = remaining - 1;
        BurstStep { fires: true, remaining: r, ticks_until_next: BURST_TICK_INTERVAL, keep: r > 0 }
    } else {
        BurstStep {
            fires: false,
            remaining,
            ticks_until_next: ticks_until_next - 1,
            keep: remaining > 0,
        }
    }
}

/// A trail particle one tick older: its remaining life, or `None` when it
/// fades out.
pub fn age_trail(life: u8) -> (r: Option<u8>)
    requires
        life > 0,
    ensures
        r == (if life > 1 {
            Some((life - 1) as u8)
        } else {
            None::<u8>
        }),
{
    let l = life - 1;
    if l > 0 {
        Some(l)
    } else {
        None
    }
}

/// The states of the 32-bit linear congruential generator that seeds the
/// starfields: `s' = s * 1103515245 + 12345`, wrapping.
pub open spec fn lcg32_step(s: u32) -> u32 {
    ((s as int * 1103515245 + 12345) % 0x1_0000_0000) as u32
}

/// The `n` generator states that follow `seed`.
pub open spec fn lcg32_states(seed: u32, n: nat) -> Seq<u32>
    decreases n,
{
    if n == 0 {
        seq![]
    } else {
        let p = lcg32_states(seed, (n - 1) as nat);
        let last = if p.len() == 0 {
            seed
        } else {
            p.last()
        };
        p.push(lcg32_step(last))
    }
}

/// There are `n` states.
pub proof fn lemma_lcg32_len(seed: u32, n: nat)
    ensures
        lcg32_states(seed, n).len() == n,
    decreases n,
{
    if n > 0 {
        lemma_lcg32_len(seed, (n - 1) as nat);
    }
}

/// The `n` generator states that follow `seed`, in order.
pub fn lcg32_sequence(seed: u32, n: usize) -> (v: Vec<u32>)
    ensures
        v@ == lcg32_states(seed, n as nat),
{
    let mut v: Vec<u32> = Vec::new();
    let mut s = seed;
    let mut i: usize = 0;
    while i < n
        invariant
            0 <= i <= n,
            v@ == lcg32_states(seed, i as nat),
            s == (if i == 0 {
                seed
            } else {
                v@.last()
            }),
        decreases n - i,
    {
        proof {
            lemma_lcg32_len(seed, i as nat);
        }
        let m = s.wrapping_mul(1103515245);
        let t = m.wrapping_add(12345);
        assert(t == lcg32_step(s)) by {
            vstd::arithmetic::div_mod::lemma_add_mod_noop(s as int * 1103515245, 12345, 0x1_0000_0000);
            vstd::arithmetic::div_mod::lemma_small_mod(12345, 0x1_0000_0000);
        }
        v.push(t);
        s = t;
        i += 1;
    }
    v
}

/// The integer hash behind the nebula texture of the battle background, for
/// pixel `(x, y)` and a nebula's seed: the low 16 bits of a multiplicative
/// mix (all arithmetic wrapping in 32 bits).
pub open spec fn spec_hash_noise(x: i32, y: i32, seed: u32) -> u32 {
    let hx = ((x as u32) as int * 374761393) % 0x1_0000_0000;
    let hy = ((y as u32) as int * 668265263) % 0x1_0000_0000;
    let hs = (seed as int * 1274126177) % 0x1_0000_0000;
    let h0 = ((hx + hy) % 0x1_0000_0000 + hs) % 0x1_0000_0000;
    let h1 = (((h0 as u32) ^ ((h0 as u32) >> 13u32)) as int * 1103515245) % 0x1_0000_0000;
    let h2 = (h1 as u32) ^ ((h1 as u32) >> 16u32);
    h2 & 0xffffu32
}

/// The 16-bit noise value of pixel `(x, y)` for a nebula seed.
pub fn hash_noise_bits(x: i32, y: i32, seed: u32) -> (n: u32)
    ensures
        n == spec_hash_noise(x, y, seed),
        n <= 0xffff,
{
    let ux = x as u32;
    let uy = y as u32;
    let h = ux.wrapping_mul(374761393).wrapping_add(uy.wrapping_mul(668265263)).wrapping_add(
        seed.wrapping_mul(1274126177),
    );
    let h = (h ^ (h >> 13)).wrapping_mul(1103515245);
    let h = h ^ (h >> 16);
    let r = h & 0xFFFF;
    assert(r <= 0xffff) by (bit_vector)
        requires
            r == h & 0xFFFF,
    ;
    r
}

/// An explosion only ever shows its four frames: a running explosion stays
/// within frames 0 to 3, and once aged its frame timer stays within 0 to 5.
pub proof fn law_explosion_frames_in_range(frame: u8, timer: u8)
    requires
        frame < EXPLOSION_FRAMES,
        timer <= EXPLOSION_FRAME_TICKS,
    ensures
        spec_advance_explosion(frame, timer) matches Some((f, t)) ==> f < EXPLOSION_FRAMES && t
            < EXPLOSION_FRAME_TICKS,
{
}

} // verus!
