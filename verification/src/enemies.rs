//! Enemy classes, wave configurations, the formation grid and the choice of
//! which enemy dives or shoots.
use vstd::prelude::*;

use crate::powerups::{spec_kind_from_index, PowerupKind};
use crate::shield::{Shield, ShieldLevel};

verus! {

/// Number of rows in the enemy formation.
pub const ENEMY_ROWS: usize = 4;

/// Native game width in pixels.
pub const GAME_WIDTH_PX: u32 = 224;

/// Native game height in pixels.
pub const GAME_HEIGHT_PX: u32 = 288;

/// Enemy sprite width in pixels.
pub const ENEMY_WIDTH_PX: u32 = 16;

/// Horizontal distance between formation slots.
pub const ENEMY_SPACING_X_PX: u32 = 18;

/// Vertical distance between formation rows.
pub const ENEMY_SPACING_Y_PX: u32 = 18;

/// Y of the top formation row.
pub const ENEMY_START_Y_PX: u32 = 40;

/// Entry pattern for a wave.
#[derive(Clone, Copy, Debug, PartialEq, Eq, Structural)]
pub enum EntryPattern {
    /// Two parallel streams arcing left/right (current default).
    DualArc,
}

/// Enemy class — determines color, stats, and behavior.
#[derive(Clone, Copy, Debug, PartialEq, Eq, Structural)]
pub enum EnemyClass {
    /// Weakest.
    Green,
    /// Moderate.
    Yellow,
    /// Strong.
    Red,
    /// Strongest.
    White,
}

/// Configuration for a single wave.
#[derive(Clone, Copy, Debug)]
pub struct WaveConfig {
    /// Wave number (1-based).
    pub wave: u32,
    /// Enemy class for each row (index 0 = top row).
    pub row_classes: [EnemyClass; ENEMY_ROWS],
    /// Entry pattern.
    pub pattern: EntryPattern,
    /// Number of rows (from bottom) that get shields.
    pub shielded_rows: usize,
}

/// The classes of the four rows, top row first, in a given wave: waves from
/// the fourth on all look like the fourth.
pub open spec fn wave_row_classes(wave: u32) -> Seq<EnemyClass> {
    if wave == 1 {
        seq![EnemyClass::White, EnemyClass::Red, EnemyClass::Yellow, EnemyClass::Green]
    } else if wave == 2 {
        seq![EnemyClass::White, EnemyClass::Red, EnemyClass::Yellow, EnemyClass::Yellow]
    } else if wave == 3 {
        seq![EnemyClass::White, EnemyClass::Red, EnemyClass::Red, EnemyClass::Yellow]
    } else {
        seq![EnemyClass::White, EnemyClass::White, EnemyClass::Red, EnemyClass::Red]
    }
}

/// Rows that start shielded in a wave: one per wave number, at most all four.
pub open spec fn spec_shielded_rows(wave: u32) -> usize {
    if wave < 4 {
        wave as usize
    } else {
        4
    }
}

impl WaveConfig {
    /// Generate a wave config for the given wave number (1-based).
    pub fn for_wave(wave: u32) -> (c: Self)
        ensures
            c.wave == wave,
            c.row_classes@ == wave_row_classes(wave),
            c.pattern == EntryPattern::DualArc,
            c.shielded_rows == spec_shielded_rows(wave),
    {
        let row_classes = match wave {
            1 => [EnemyClass::White, EnemyClass::Red, EnemyClass::Yellow, EnemyClass::Green],
            2 => [EnemyClass::White, EnemyClass::Red, EnemyClass::Yellow, EnemyClass::Yellow],
            3 => [EnemyClass::White, EnemyClass::Red, EnemyClass::Red, EnemyClass::Yellow],
            4 => [EnemyClass::White, EnemyClass::White, EnemyClass::Red, EnemyClass::Red],
            _ => [EnemyClass::White, EnemyClass::White, EnemyClass::Red, EnemyClass::Red],
        };
        let w = wave as usize;
        let shielded_rows = if w < ENEMY_ROWS {
            w
        } else {
            ENEMY_ROWS
        };
        let c = Self { wave, row_classes, pattern: EntryPattern::DualArc, shielded_rows };
        assert(c.row_classes@ =~= wave_row_classes(wave));
        c
    }
}

/// Per-class properties. Speeds are given in percent of the base enemy
/// bullet and dive speeds.
#[derive(Clone, Copy, Debug)]
pub struct EnemyClassStats {
    pub score: u32,
    pub bullet_speed_pct: u32,
    pub fire_weight: u32,
    pub dive_speed_pct: u32,
    pub has_shield: bool,
}

/// Score awarded for killing an enemy of a class.
pub open spec fn class_score(class: EnemyClass) -> u32 {
    match class {
        EnemyClass::Green => 50,
        EnemyClass::Yellow => 100,
        EnemyClass::Red => 200,
        EnemyClass::White => 400,
    }
}

impl EnemyClass {
    /// The stats of this class.
    pub fn stats(self) -> (s: EnemyClassStats)
        ensures
            s.score == class_score(self),
            s == (match self {
                EnemyClass::Green => EnemyClassStats {
                    score: 50,
                    bullet_speed_pct: 80,
                    fire_weight: 1,
                    dive_speed_pct: 80,
                    has_shield: false,
                },
                EnemyClass::Yellow => EnemyClassStats {
                    score: 100,
                    bullet_speed_pct: 100,
                    fire_weight: 2,
                    dive_speed_pct: 100,
                    has_shield: false,
                },
                EnemyClass::Red => EnemyClassStats {
                    score: 200,
                    bullet_speed_pct: 120,
                    fire_weight: 3,
                    dive_speed_pct: 120,
                    has_shield: true,
                },
                EnemyClass::White => EnemyClassStats {
                    score: 400,
                    bullet_speed_pct: 140,
                    fire_weight: 5,
                    dive_speed_pct: 150,
                    has_shield: true,
                },
            }),
    {
        match self {
            EnemyClass::Green => EnemyClassStats {
                score: 50,
                bullet_speed_pct: 80,
                fire_weight: 1,
                dive_speed_pct: 80,
                has_shield: false,
            },
            EnemyClass::Yellow => EnemyClassStats {
                score: 100,
                bullet_speed_pct: 100,
                fire_weight: 2,
                dive_speed_pct: 100,
                has_shield: false,
            },
            EnemyClass::Red => EnemyClassStats {
                score: 200,
                bullet_speed_pct: 120,
                fire_weight: 3,
                dive_speed_pct: 120,
                has_shield: true,
            },
            EnemyClass::White => EnemyClassStats {
                score: 400,
                bullet_speed_pct: 140,
                fire_weight: 5,
                dive_speed_pct: 150,
                has_shield: true,
            },
        }
    }

    /// Map formation row to enemy class. Bottom rows = weakest, top = strongest.
    pub fn from_row(row: usize) -> (c: Self)
        ensures
            c == (if row == 0 {
                EnemyClass::White
            } else if row == 1 {
                EnemyClass::Red
            } else if row == 2 {
                EnemyClass::Yellow
            } else {
                EnemyClass::Green
            }),
    {
        match row {
            0 => EnemyClass::White,
            1 => EnemyClass::Red,
            2 => EnemyClass::Yellow,
            _ => EnemyClass::Green,
        }
    }

    /// Sprite row index for sprite sheet lookup.
    pub fn sprite_row(self) -> (r: usize)
        ensures
            r == (match self {
                EnemyClass::Yellow => 1usize,
                EnemyClass::Red => 0,
                EnemyClass::Green => 2,
                EnemyClass::White => 3,
            }),
    {
        match self {
            EnemyClass::Yellow => 1,
            EnemyClass::Red => 0,
            EnemyClass::Green => 2,
            EnemyClass::White => 3,
        }
    }

    /// The class's position in the order Green, Yellow, Red, White.
    pub fn class_index(self) -> (i: usize)
        ensures
            i == (match self {
                EnemyClass::Green => 0usize,
                EnemyClass::Yellow => 1,
                EnemyClass::Red => 2,
                EnemyClass::White => 3,
            }),
    {
        match self {
            EnemyClass::Green => 0,
            EnemyClass::Yellow => 1,
            EnemyClass::Red => 2,
            EnemyClass::White => 3,
        }
    }
}

/// Time between dives, in milliseconds, for a wave: 2500 ms in the first wave,
/// 500 ms less in each of the next four, and 300 ms from the sixth on (and
/// for a wave numbered 0).
pub open spec fn spec_dive_interval_ms(wave: u32) -> int {
    if 1 <= wave <= 5 {
        3000 - 500 * wave
    } else {
        300
    }
}

/// Time between dives, in milliseconds, for a wave (see [`spec_dive_interval_ms`]).
pub fn enemy_dive_interval_ms(wave: u32) -> (ms: u32)
    ensures
        ms == spec_dive_interval_ms(wave),
{
    match wave {
        1 => 2500,
        2 => 2000,
        3 => 1500,
        4 => 1000,
        5 => 500,
        _ => 300,
    }
}

// ---------------------------------------------------------------------------
// The formation grid.
/// Columns in a formation row: 10, 8, 10, 8 from the top.
pub open spec fn row_cols(row: int) -> int {
    if row % 2 == 0 {
        10
    } else {
        8
    }
}

/// Index of the first slot of a row (slots are numbered row by row).
pub open spec fn row_start(row: int) -> int {
    if row <= 0 {
        0
    } else if row == 1 {
        10
    } else if row == 2 {
        18
    } else if row == 3 {
        28
    } else {
        36
    }
}

/// Row of slot `i`.
pub open spec fn slot_row(i: int) -> int {
    if i < 10 {
        0
    } else if i < 18 {
        1
    } else if i < 28 {
        2
    } else {
        3
    }
}

/// Total number of formation slots.
pub const FORMATION_SIZE: usize = 36;

/// One formation slot: where an enemy lives, what it is, and how it enters.
#[derive(Clone, Copy, Debug)]
pub struct FormationSlot {
    pub row: usize,
    pub col: usize,
    /// Home x in the formation, in pixels.
    pub home_x: u32,
    /// Home y in the formation, in pixels.
    pub home_y: u32,
    pub class: EnemyClass,
    /// Entry stream: 0 for the two top rows (arcing right), 1 for the others.
    pub stream: u8,
    /// Position of the enemy within its entry stream.
    pub spawn_index: usize,
    pub shield: Option<Shield>,
}

/// The slot that the formation of a wave has at index `i`: rows of 10-8-10-8
/// slots 18 px apart, each row centred in the 224 px screen, rows 18 px apart
/// from y = 40; the two top rows enter in stream 0 and the others in stream 1,
/// counted in order within the stream; the bottom `shielded_rows` rows start
/// with a full shield whose phase is 7 times the slot index.
pub open spec fn spec_slot(config: WaveConfig, i: int) -> FormationSlot {
    let row = slot_row(i);
    let col = i - row_start(row);
    let row_width = (row_cols(row) - 1) * 18 + 16;
    let start_x = (224 - row_width) / 2;
    FormationSlot {
        row: row as usize,
        col: col as usize,
        home_x: (start_x + col * 18) as u32,
        home_y: (40 + row * 18) as u32,
        class: config.row_classes@[row],
        stream: if row < 2 {
            0u8
        } else {
            1u8
        },
        spawn_index: (if row < 2 {
            i
        } else {
            i - 18
        }) as usize,
        shield: if 3 - row < config.shielded_rows {
            Some(Shield { level: ShieldLevel::Full, phase: (i * 7) as u64 })
        } else {
            None
        },
    }
}

/// The 36 slots of the formation of a wave, top row first, left to right.
pub fn formation_slots(config: &WaveConfig) -> (v: Vec<FormationSlot>)
    ensures
        v.len() == FORMATION_SIZE,
        forall|i: int| 0 <= i < 36 ==> #[trigger] v@[i] == spec_slot(*config, i),
{
    let mut enemies: Vec<FormationSlot> = Vec::new();
    let mut stream_counters: [usize; 2] = [0, 0];
    let mut row: usize = 0;
    while row < ENEMY_ROWS
        invariant
            0 <= row <= 4,
            enemies.len() == row_start(row as int),
            stream_counters[0] == (if row == 0 {
                0int
            } else if row == 1 {
                10int
            } else {
                18int
            }),
            stream_counters[1] == (if row <= 2 {
                0int
            } else if row == 3 {
                10int
            } else {
                18int
            }),
            forall|i: int| 0 <= i < enemies.len() ==> #[trigger] enemies@[i] == spec_slot(*config, i),
        decreases 4 - row,
    {
        let cols: usize = if row % 2 == 0 {
            10
        } else {
            8
        };
        let row_width: u32 = (cols as u32 - 1) * ENEMY_SPACING_X_PX + ENEMY_WIDTH_PX;
        let row_start_x: u32 = (GAME_WIDTH_PX - row_width) / 2;
        let y: u32 = ENEMY_START_Y_PX + row as u32 * ENEMY_SPACING_Y_PX;
        let ghost start = enemies.len();
        let mut col: usize = 0;
        while col < cols
            invariant
                0 <= row < 4,
                cols == row_cols(row as int),
                start == row_start(row as int),
                0 <= col <= cols,
                enemies.len() == start + col,
                row_start_x == (224 - ((row_cols(row as int) - 1) * 18 + 16)) / 2,
                y == 40 + row * 18,
                stream_counters[0] == (if row == 0 {
                    col as int
                } else if row == 1 {
                    10 + col
                } else {
                    18int
                }),
                stream_counters[1] == (if row <= 1 {
                    0int
                } else if row == 2 {
                    col as int
                } else {
                    10 + col
                }),
                forall|i: int| 0 <= i < enemies.len() ==> #[trigger] enemies@[i] == spec_slot(*config, i),
            decreases cols - col,
        {
            let x: u32 = row_start_x + col as u32 * ENEMY_SPACING_X_PX;
            let stream: u8 = if row < 2 {
                0
            } else {
                1
            };
            let index_in_stream = stream_counters[stream as usize];
            stream_counters[stream as usize] = index_in_stream + 1;
            let class = config.row_classes[row];
            let row_from_bottom = ENEMY_ROWS - 1 - row;
            let has_shield = row_from_bottom < config.shielded_rows;
            let shield = if has_shield {
                Some(Shield::new(enemies.len() as u64 * 7))
            } else {
                None
            };
            let slot = FormationSlot {
                row,
                col,
                home_x: x,
                home_y: y,
                class,
                stream,
                spawn_index: index_in_stream,
                shield,
            };
            proof {
                let i = enemies.len() as int;
                assert(slot_row(i) == row);
                assert(i - row_start(row as int) == col);
                assert(slot == spec_slot(*config, i));
            }
            enemies.push(slot);
            col += 1;
        }
        row += 1;
    }
    enemies
}

// ---------------------------------------------------------------------------
// Choosing divers and shooters.
/// The indices at which `s` holds, in increasing order.
pub open spec fn true_indices(s: Seq<bool>) -> Seq<usize>
    decreases s.len(),
{
    if s.len() == 0 {
        seq![]
    } else if s.last() {
        true_indices(s.drop_last()).push((s.len() - 1) as usize)
    } else {
        true_indices(s.drop_last())
    }
}

/// Every index in `true_indices(s)` is one at which `s` holds.
pub proof fn lemma_true_indices_hold(s: Seq<bool>)
    requires
        s.len() <= usize::MAX,
    ensures
        forall|k: int|
            0 <= k < true_indices(s).len() ==> 0 <= #[trigger] true_indices(s)[k] < s.len()
                && s[true_indices(s)[k] as int],
    decreases s.len(),
{
    if s.len() > 0 {
        let p = s.drop_last();
        lemma_true_indices_hold(p);
        assert forall|k: int| 0 <= k < true_indices(s).len() implies 0 <= #[trigger] true_indices(
            s,
        )[k] < s.len() && s[true_indices(s)[k] as int] by {
            if k < true_indices(p).len() {
                let i = true_indices(p)[k];
                assert(true_indices(s)[k] == i);
                assert(s[i as int] == p[i as int]);
            } else {
                assert(s.last());
                assert(true_indices(s)[k] == s.len() - 1);
            }
        }
    }
}

/// The enemy that starts a dive: among the enemies eligible to dive (alive
/// and not already diving), the one at position `frame_counter mod count`
/// of the eligible ones; none when no enemy is eligible.
pub fn choose_diver(eligible: &[bool], frame_counter: u64) -> (r: Option<usize>)
    ensures
        ({
            let c = true_indices(eligible@);
            r == if c.len() == 0 {
                None
            } else {
                Some(c[(frame_counter as usize) as int % c.len() as int])
            }
        }),
        r matches Some(i) ==> i < eligible.len() && eligible@[i as int],
{
    let mut candidates: Vec<usize> = Vec::new();
    let mut i: usize = 0;
    while i < eligible.len()
        invariant
            0 <= i <= eligible.len(),
            candidates@ == true_indices(eligible@.take(i as int)),
        decreases eligible.len() - i,
    {
        assert(eligible@.take(i + 1).drop_last() =~= eligible@.take(i as int));
        if eligible[i] {
            candidates.push(i);
        }
        i += 1;
    }
    assert(eligible@.take(eligible.len() as int) =~= eligible@);
    proof {
        lemma_true_indices_hold(eligible@);
    }
    if candidates.len() == 0 {
        None
    } else {
        let k = (frame_counter as usize) % candidates.len();
        Some(candidates[k])
    }
}

/// What the shooting logic knows of an enemy: whether it may shoot at all
/// (alive, entered, on screen), whether it is moving (diving or flying in),
/// and whether it is a White enemy.
#[derive(Clone, Copy, Debug)]
pub struct ShooterInfo {
    pub eligible: bool,
    pub moving: bool,
    pub white: bool,
}

/// Draw weight of a shooter: enemies in motion are far more likely to shoot
/// (weight 100, or 20 for White ones) than enemies in formation (weight 1).
pub open spec fn shooter_weight(s: ShooterInfo) -> nat {
    if !s.eligible {
        0
    } else if s.moving {
        if s.white {
            20
        } else {
            100
        }
    } else {
        1
    }
}

/// The weighted draw list: each eligible enemy's index repeated by its weight.
pub open spec fn weighted_indices(s: Seq<ShooterInfo>) -> Seq<usize>
    decreases s.len(),
{
    if s.len() == 0 {
        seq![]
    } else {
        weighted_indices(s.drop_last()) + Seq::new(
            shooter_weight(s.last()),
            |j: int| (s.len() - 1) as usize,
        )
    }
}

/// Every entry of the weighted list is the index of an eligible enemy.
pub proof fn lemma_weighted_indices_eligible(s: Seq<ShooterInfo>)
    requires
        s.len() <= usize::MAX,
    ensures
        forall|k: int|
            0 <= k < weighted_indices(s).len() ==> 0 <= #[trigger] weighted_indices(s)[k] < s.len()
                && s[weighted_indices(s)[k] as int].eligible,
        weighted_indices(s).len() <= 100 * s.len(),
    decreases s.len(),
{
    if s.len() > 0 {
        lemma_weighted_indices_eligible(s.drop_last());
        let p = weighted_indices(s.drop_last());
        let q = Seq::new(shooter_weight(s.last()), |j: int| (s.len() - 1) as usize);
        assert(weighted_indices(s) == p + q);
        assert forall|k: int| 0 <= k < weighted_indices(s).len() implies 0
            <= #[trigger] weighted_indices(s)[k] < s.len()
            && s[weighted_indices(s)[k] as int].eligible by {
            if k < p.len() {
                let i = p[k];
                assert(weighted_indices(s)[k] == i);
                assert(s[i as int] == s.drop_last()[i as int]);
            } else {
                assert(weighted_indices(s)[k] == q[k - p.len()]);
                assert(shooter_weight(s.last()) > 0);
                assert(s.last() == s[s.len() - 1]);
            }
        }
    }
}

/// The enemy that fires: entry `frame_counter mod length` of the weighted
/// draw list, or none when no enemy may shoot.
pub fn choose_shooter(shooters: &[ShooterInfo], frame_counter: u64) -> (r: Option<usize>)
    requires
        shooters.len() * 100 <= usize::MAX,
    ensures
        ({
            let w = weighted_indices(shooters@);
            r == if w.len() == 0 {
                None
            } else {
                Some(w[(frame_counter as usize) as int % w.len() as int])
            }
        }),
        r matches Some(i) ==> i < shooters.len() && shooters@[i as int].eligible,
{
    let mut candidates: Vec<usize> = Vec::new();
    let mut i: usize = 0;
    while i < shooters.len()
        invariant
            0 <= i <= shooters.len(),
            shooters.len() * 100 <= usize::MAX,
            candidates@ == weighted_indices(shooters@.take(i as int)),
            candidates.len() <= 100 * i,
        decreases shooters.len() - i,
    {
        let s = shooters[i];
        assert(shooters@.take(i + 1).drop_last() =~= shooters@.take(i as int));
        assert(shooters@.take(i + 1).last() == s);
        let weight: usize = if !s.eligible {
            0
        } else if s.moving {
            if s.white {
                20
            } else {
                100
            }
        } else {
            1
        };
        let ghost before = candidates@;
        let mut k: usize = 0;
        while k < weight
            invariant
                0 <= k <= weight,
                weight <= 100,
                weight == shooter_weight(s),
                before.len() <= 100 * i,
                i < shooters.len(),
                shooters.len() * 100 <= usize::MAX,
                candidates@ =~= before + Seq::new(k as nat, |j: int| i),
            decreases weight - k,
        {
            candidates.push(i);
            k += 1;
        }
        assert(candidates@ =~= weighted_indices(shooters@.take(i + 1)));
        i += 1;
    }
    assert(shooters@.take(shooters.len() as int) =~= shooters@);
    proof {
        lemma_weighted_indices_eligible(shooters@);
    }
    if candidates.len() == 0 {
        None
    } else {
        let k = (frame_counter as usize) % candidates.len();
        Some(candidates[k])
    }
}

/// How a chosen shooter fires.
#[derive(Clone, Copy, Debug, PartialEq, Eq, Structural)]
pub enum ShotKind {
    /// Three pairs of bouncing balls (White enemies, three frames in ten).
    Shotgun,
    /// A bullet now and two more in a burst (Red enemies).
    Burst,
    /// One bullet.
    Single,
}

/// How an enemy of `class` fires at this frame.
pub fn shot_kind(class: EnemyClass, frame_counter: u64) -> (k: ShotKind)
    ensures
        k == (if class == EnemyClass::White && frame_counter % 10 < 3 {
            ShotKind::Shotgun
        } else if class == EnemyClass::Red {
            ShotKind::Burst
        } else {
            ShotKind::Single
        }),
{
    if class == EnemyClass::White && frame_counter % 10 < 3 {
        ShotKind::Shotgun
    } else if class == EnemyClass::Red {
        ShotKind::Burst
    } else {
        ShotKind::Single
    }
}

/// The powerup an unshielded enemy drops when killed: Red and White enemies
/// drop one on frames divisible by 10, of the kind numbered
/// `(frame_counter / 3) mod 6`.
pub fn powerup_drop(class: EnemyClass, frame_counter: u64) -> (d: Option<PowerupKind>)
    ensures
        d == (if (class == EnemyClass::Red || class == EnemyClass::White) && frame_counter % 10
            == 0 {
            Some(spec_kind_from_index(((frame_counter / 3) % 6) as int))
        } else {
            None
        }),
{
    if (class == EnemyClass::Red || class == EnemyClass::White) && frame_counter % 10 == 0 {
        Some(PowerupKind::from_index((frame_counter / 3) % 6))
    } else {
        None
    }
}

// ---------------------------------------------------------------------------
// Laws of the waves.
/// Waves get harder: from the first wave on, a later wave dives at least as
/// often and shields at least as many rows. (Wave 0 is not a wave of the
/// game; it dives every 300 ms.)
pub proof fn law_waves_get_harder(w1: u32, w2: u32)
    requires
        1 <= w1 <= w2,
    ensures
        spec_dive_interval_ms(w2) <= spec_dive_interval_ms(w1),
        spec_shielded_rows(w1) <= spec_shielded_rows(w2),
{
}

/// Every formation row is centred: the gap left of its first enemy equals
/// the gap right of its last one, and neighbours are 18 px apart.
pub proof fn law_rows_centred(config: WaveConfig, row: int)
    requires
        0 <= row < 4,
    ensures
        ({
            let first = spec_slot(config, row_start(row));
            let last = spec_slot(config, row_start(row) + row_cols(row) - 1);
            &&& first.col == 0 && last.col == row_cols(row) - 1
            &&& first.home_x == 224 - (last.home_x + 16)
            &&& forall|i: int|
                row_start(row) <= i < row_start(row) + row_cols(row) - 1 ==> spec_slot(config, i + 1).home_x
                    == #[trigger] spec_slot(config, i).home_x + 18
        }),
{
}

/// Every enemy of a formation has its class from its row, and a shield
/// exactly when its row is among the bottom `shielded_rows`; each entry
/// stream holds 18 enemies numbered 0 to 17.
pub proof fn law_formation_shape(config: WaveConfig, i: int)
    requires
        0 <= i < 36,
    ensures
        ({
            let s = spec_slot(config, i);
            &&& s.class == config.row_classes@[s.row as int]
            &&& (s.shield is Some <==> 3 - s.row < config.shielded_rows)
            &&& s.spawn_index < 18
            &&& (s.stream == 0 <==> s.row < 2)
        }),
{
}

/// Someone dives exactly when some enemy may dive, and the diver is one of
/// them; the same holds of shooters.
pub proof fn law_divers_and_shooters_are_eligible(eligible: Seq<bool>, shooters: Seq<ShooterInfo>)
    requires
        eligible.len() <= usize::MAX,
        shooters.len() <= usize::MAX,
    ensures
        true_indices(eligible).len() > 0 <==> exists|i: int| 0 <= i < eligible.len() && #[trigger] eligible[i],
        forall|k: int| 0 <= k < true_indices(eligible).len() ==> #[trigger] eligible[true_indices(eligible)[k] as int],
        weighted_indices(shooters).len() > 0 <==> exists|i: int|
            0 <= i < shooters.len() && #[trigger] shooters[i].eligible,
        forall|k: int|
            0 <= k < weighted_indices(shooters).len() ==> #[trigger] shooters[weighted_indices(shooters)[k] as int].eligible,
{
    lemma_true_indices_hold(eligible);
    lemma_weighted_indices_eligible(shooters);
    lemma_true_indices_cover(eligible);
    lemma_weighted_indices_cover(shooters);
    let t = true_indices(eligible);
    if exists|i: int| 0 <= i < eligible.len() && #[trigger] eligible[i] {
        let i = choose|i: int| 0 <= i < eligible.len() && #[trigger] eligible[i];
        assert(t.contains(i as usize));
    }
    if t.len() > 0 {
        assert(eligible[t[0] as int]);
    }
    let w = weighted_indices(shooters);
    if exists|i: int| 0 <= i < shooters.len() && #[trigger] shooters[i].eligible {
        let i = choose|i: int| 0 <= i < shooters.len() && #[trigger] shooters[i].eligible;
        assert(w.contains(i as usize));
    }
    if w.len() > 0 {
        assert(shooters[w[0] as int].eligible);
    }
}

/// Every index at which `s` holds is among `true_indices(s)`.
proof fn lemma_true_indices_cover(s: Seq<bool>)
    ensures
        forall|i: int| 0 <= i < s.len() && #[trigger] s[i] ==> true_indices(s).contains(i as usize),
    decreases s.len(),
{
    if s.len() > 0 {
        let p = s.drop_last();
        lemma_true_indices_cover(p);
        assert forall|i: int| 0 <= i < s.len() && #[trigger] s[i] implies true_indices(s).contains(i as usize) by {
            if i < s.len() - 1 {
                assert(p[i] == s[i]);
                let k = choose|k: int| 0 <= k < true_indices(p).len() && true_indices(p)[k] == i as usize;
                if s.last() {
                    assert(true_indices(s)[k] == i as usize);
                } else {
                    assert(true_indices(s) == true_indices(p));
                }
            } else {
                assert(s.last());
                assert(true_indices(s).last() == i as usize);
            }
        }
    }
}

/// Every eligible shooter is among the weighted indices.
proof fn lemma_weighted_indices_cover(s: Seq<ShooterInfo>)
    ensures
        forall|i: int| 0 <= i < s.len() && #[trigger] s[i].eligible ==> weighted_indices(s).contains(i as usize),
    decreases s.len(),
{
    if s.len() > 0 {
        let p = s.drop_last();
        lemma_weighted_indices_cover(p);
        let q = Seq::new(shooter_weight(s.last()), |j: int| (s.len() - 1) as usize);
        assert(weighted_indices(s) == weighted_indices(p) + q);
        assert forall|i: int| 0 <= i < s.len() && #[trigger] s[i].eligible implies weighted_indices(s).contains(
            i as usize,
        ) by {
            if i < s.len() - 1 {
                assert(p[i] == s[i]);
                let k = choose|k: int| 0 <= k < weighted_indices(p).len() && weighted_indices(p)[k] == i as usize;
                assert(weighted_indices(s)[k] == i as usize);
            } else {
                assert(s.last() == s[i]);
                assert(shooter_weight(s.last()) > 0);
                assert(weighted_indices(s)[weighted_indices(p).len() as int] == i as usize);
            }
        }
    }
}

} // verus!
