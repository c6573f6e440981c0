//! Player inputs, step status and per-step sound events.
use vstd::prelude::*;

use crate::shield::ShieldLevel;

verus! {

/// Input action for one simulation step.
#[derive(Clone, Copy, Debug, PartialEq, Eq, Hash, Structural)]
pub enum Action {
    Left,
    Right,
    Fire,
    /// Buy a fire-rate upgrade for 1 currency.
    BuyRate,
    /// Buy a speed upgrade for 1 currency.
    BuySpeed,
    /// Buy double bullets for 1 currency.
    BuyDouble,
    /// Buy triple bullets for 2 currency.
    BuyTriple,
    /// Buy a shield for 2 currency.
    BuyShield,
    /// Sell a rate powerup (from inventory or active stack) for 1 currency.
    SellRate,
    /// Sell a speed powerup (from inventory or active stack) for 1 currency.
    SellSpeed,
    /// Sell a double powerup (from inventory, or downgrade 2→1) for 1 currency.
    SellDouble,
    /// Sell a triple powerup (from inventory, or downgrade 3→2) for 1 currency.
    SellTriple,
    /// Sell a shield (from inventory, or active only if Full) for 1 currency.
    SellShield,
    /// Buy an extra life for 2 currency.
    BuyLife,
    /// Sell a spare life for 1 currency.
    SellLife,
}

/// Status of the game after a step.
#[derive(Clone, Copy, Debug, PartialEq, Eq, Structural)]
pub enum GameStatus {
    Intro,
    Playing,
    WaveComplete,
    Lost,
}

/// Sound events produced by a single step.
#[derive(Clone, Copy, Default, Debug)]
pub struct SoundEvents {
    pub player_fired: bool,
    pub enemy_fired: bool,
    pub player_hit: bool,
    pub enemy_hit: bool,
    /// Generic shield-hit event for sound playback. Fires for either side
    /// (player shield blocking incoming fire OR enemy shield being damaged
    /// by player bullets). For agents that need to distinguish the two, use
    /// `enemy_shield_hit` and `player_shield_hit`.
    pub shield_hit: bool,
    /// True when a player bullet hits an enemy's shield (the agent damaged a foe's shield).
    pub enemy_shield_hit: bool,
    /// True when an enemy bullet / shotgun ball / diver hits the player's shield
    /// and the shield absorbs it (the player would have been hit otherwise).
    pub player_shield_hit: bool,
    pub powerup_picked: bool,
    /// True when something was bought with currency via a Buy action.
    pub powerup_bought: bool,
    /// True when something was sold for currency via a Sell action.
    pub powerup_sold: bool,
}

impl SoundEvents {
    /// No event.
    pub fn none() -> (s: Self)
        ensures
            s == Self::quiet(),
    {
        SoundEvents {
            player_fired: false,
            enemy_fired: false,
            player_hit: false,
            enemy_hit: false,
            shield_hit: false,
            enemy_shield_hit: false,
            player_shield_hit: false,
            powerup_picked: false,
            powerup_bought: false,
            powerup_sold: false,
        }
    }

    pub open spec fn quiet() -> Self {
        SoundEvents {
            player_fired: false,
            enemy_fired: false,
            player_hit: false,
            enemy_hit: false,
            shield_hit: false,
            enemy_shield_hit: false,
            player_shield_hit: false,
            powerup_picked: false,
            powerup_bought: false,
            powerup_sold: false,
        }
    }
}

/// Number of discrete actions an agent chooses from.
pub const NUM_ACTIONS: usize = 18;

/// The actions that the agent's discrete action index stands for:
/// 0 noop, 1 left, 2 right, 3 fire, 4 left+fire, 5 right+fire, 6..=11 the
/// buys (rate, speed, double, triple, shield, life), 12..=17 the sells in the
/// same order; any other index is a noop.
pub open spec fn agent_actions(action: int) -> Seq<Action> {
    if action == 1 {
        seq![Action::Left]
    } else if action == 2 {
        seq![Action::Right]
    } else if action == 3 {
        seq![Action::Fire]
    } else if action == 4 {
        seq![Action::Left, Action::Fire]
    } else if action == 5 {
        seq![Action::Right, Action::Fire]
    } else if action == 6 {
        seq![Action::BuyRate]
    } else if action == 7 {
        seq![Action::BuySpeed]
    } else if action == 8 {
        seq![Action::BuyDouble]
    } else if action == 9 {
        seq![Action::BuyTriple]
    } else if action == 10 {
        seq![Action::BuyShield]
    } else if action == 11 {
        seq![Action::BuyLife]
    } else if action == 12 {
        seq![Action::SellRate]
    } else if action == 13 {
        seq![Action::SellSpeed]
    } else if action == 14 {
        seq![Action::SellDouble]
    } else if action == 15 {
        seq![Action::SellTriple]
    } else if action == 16 {
        seq![Action::SellShield]
    } else if action == 17 {
        seq![Action::SellLife]
    } else {
        seq![]
    }
}

/// Expand an agent's discrete action index into the actions of one step.
pub fn action_to_list(action: usize) -> (v: Vec<Action>)
    ensures
        v@ == agent_actions(action as int),
{
    match action {
        0 => vec![],
        1 => vec![Action::Left],
        2 => vec![Action::Right],
        3 => vec![Action::Fire],
        4 => vec![Action::Left, Action::Fire],
        5 => vec![Action::Right, Action::Fire],
        6 => vec![Action::BuyRate],
        7 => vec![Action::BuySpeed],
        8 => vec![Action::BuyDouble],
        9 => vec![Action::BuyTriple],
        10 => vec![Action::BuyShield],
        11 => vec![Action::BuyLife],
        12 => vec![Action::SellRate],
        13 => vec![Action::SellSpeed],
        14 => vec![Action::SellDouble],
        15 => vec![Action::SellTriple],
        16 => vec![Action::SellShield],
        17 => vec![Action::SellLife],
        _ => vec![],
    }
}

/// Whether `action` is among `actions`.
pub fn has_action(actions: &[Action], action: Action) -> (b: bool)
    ensures
        b == actions@.contains(action),
{
    let mut i: usize = 0;
    while i < actions.len()
        invariant
            0 <= i <= actions.len(),
            forall|j: int| 0 <= j < i ==> actions@[j] != action,
        decreases actions.len() - i,
    {
        if actions[i] == action {
            assert(actions@[i as int] == action);
            return true;
        }
        i += 1;
    }
    false
}

/// The status reported after a step: a cleared wave wins over a loss, a loss
/// over the intro, and the intro over normal play.
pub fn step_status(wave_just_completed: bool, lost: bool, intro_done: bool) -> (s: GameStatus)
    ensures
        s == (if wave_just_completed {
            GameStatus::WaveComplete
        } else if lost {
            GameStatus::Lost
        } else if !intro_done {
            GameStatus::Intro
        } else {
            GameStatus::Playing
        }),
{
    if wave_just_completed {
        GameStatus::WaveComplete
    } else if lost {
        GameStatus::Lost
    } else if !intro_done {
        GameStatus::Intro
    } else {
        GameStatus::Playing
    }
}

/// Shield level as a number: 0 = none, 1 = critical, 2 = damaged, 3 = full.
pub open spec fn spec_shield_code(level: Option<ShieldLevel>) -> u8 {
    match level {
        None => 0,
        Some(ShieldLevel::Critical) => 1,
        Some(ShieldLevel::Damaged) => 2,
        Some(ShieldLevel::Full) => 3,
    }
}

/// Shield level as a number: 0 = none, 1 = critical, 2 = damaged, 3 = full.
pub fn shield_level_code(level: Option<ShieldLevel>) -> (c: u8)
    ensures
        c == spec_shield_code(level),
{
    match level {
        None => 0,
        Some(ShieldLevel::Critical) => 1,
        Some(ShieldLevel::Damaged) => 2,
        Some(ShieldLevel::Full) => 3,
    }
}

/// Kills credited by a step, given the per-wave kill count reported now and
/// at the previous step: the count restarts at each new wave, so a count that
/// went down is taken as the kills of the new wave.
pub fn kills_delta(enemies_killed: usize, prev_kills: usize) -> (d: usize)
    ensures
        d == (if enemies_killed >= prev_kills {
            enemies_killed - prev_kills
        } else {
            enemies_killed as int
        }),
{
    if enemies_killed >= prev_kills {
        enemies_killed - prev_kills
    } else {
        enemies_killed
    }
}

} // verus!
