//! The player's ledger: score, lives, currency, upgrades, surplus inventory
//! and shield, with the rules that change them — powerups, the buy/sell
//! economy, hits taken and dealt, and deaths.
use vstd::prelude::*;

use crate::actions::{has_action, Action};
use crate::enemies::{class_score, EnemyClass};
use crate::powerups::PowerupKind;
use crate::shield::{absorb_hit, level_after_hit, Shield, ShieldLevel};

verus! {

/// Lives at the start of a game.
pub const PLAYER_LIVES: u32 = 3;

/// Player upgrade state — accumulated powerups. (The fire-rate and speed
/// multipliers follow the stack counts and live with the caller; see
/// [`MultiplierChange`].)
#[derive(Clone, Copy, Debug, PartialEq, Eq, Structural)]
pub struct PlayerUpgrades {
    /// Fire-rate upgrade stacks (0–2).
    pub fire_rate_stacks: u8,
    /// Speed upgrade stacks (0–2).
    pub speed_stacks: u8,
    /// 1 = single, 2 = double, 3 = triple
    pub bullet_count: u8,
}

/// Surplus powerup inventory — items that couldn't be applied because the
/// upgrade was already maxed. Can be sold for currency.
#[derive(Clone, Copy, Debug, PartialEq, Eq, Structural)]
pub struct PowerupInventory {
    pub rate: u8,
    pub speed: u8,
    pub double: u8,
    pub triple: u8,
    pub shield: u8,
}

impl PowerupInventory {
    pub open spec fn spec_empty() -> Self {
        PowerupInventory { rate: 0, speed: 0, double: 0, triple: 0, shield: 0 }
    }

    /// An inventory holding nothing.
    pub fn empty() -> (i: Self)
        ensures
            i == Self::spec_empty(),
    {
        PowerupInventory { rate: 0, speed: 0, double: 0, triple: 0, shield: 0 }
    }
}

/// How the caller's fire-rate and speed multipliers change with an upgrade:
/// a fire-rate stack scales the shot cooldown by 0.8, a speed stack scales
/// movement and bullet speed by 1.1, and selling a stack undoes that.
#[derive(Clone, Copy, Debug, PartialEq, Eq, Structural)]
pub enum MultiplierChange {
    Unchanged,
    /// Fire-rate multiplier times 0.8.
    FireRateUp,
    /// Speed multiplier times 1.1.
    SpeedUp,
    /// Fire-rate multiplier divided by 0.8.
    FireRateDown,
    /// Speed multiplier divided by 1.1.
    SpeedDown,
}

/// What a powerup does, as (upgrades, inventory, lives, shield, multiplier
/// change): a life adds a life; a rate or speed powerup adds a stack up to 2;
/// double and triple raise the bullet count to 2 and 3; a shield gives a
/// fresh shield when there is none; a powerup that cannot apply goes to the
/// inventory (saturating at 255).
pub open spec fn spec_apply_powerup(
    kind: PowerupKind,
    u: PlayerUpgrades,
    inv: PowerupInventory,
    lives: u32,
    shield: Option<Shield>,
    frame_counter: u64,
) -> (PlayerUpgrades, PowerupInventory, u32, Option<Shield>, MultiplierChange) {
    match kind {
        PowerupKind::Life => (u, inv, (lives + 1) as u32, shield, MultiplierChange::Unchanged),
        PowerupKind::Rate => if u.fire_rate_stacks < 2 {
            (
                PlayerUpgrades { fire_rate_stacks: (u.fire_rate_stacks + 1) as u8, ..u },
                inv,
                lives,
                shield,
                MultiplierChange::FireRateUp,
            )
        } else {
            (u, PowerupInventory { rate: sat_inc(inv.rate), ..inv }, lives, shield, MultiplierChange::Unchanged)
        },
        PowerupKind::Speed => if u.speed_stacks < 2 {
            (
                PlayerUpgrades { speed_stacks: (u.speed_stacks + 1) as u8, ..u },
                inv,
                lives,
                shield,
                MultiplierChange::SpeedUp,
            )
        } else {
            (u, PowerupInventory { speed: sat_inc(inv.speed), ..inv }, lives, shield, MultiplierChange::Unchanged)
        },
        PowerupKind::Double => if u.bullet_count < 2 {
            (PlayerUpgrades { bullet_count: 2, ..u }, inv, lives, shield, MultiplierChange::Unchanged)
        } else {
            (u, PowerupInventory { double: sat_inc(inv.double), ..inv }, lives, shield, MultiplierChange::Unchanged)
        },
        PowerupKind::Triple => if u.bullet_count < 3 {
            (PlayerUpgrades { bullet_count: 3, ..u }, inv, lives, shield, MultiplierChange::Unchanged)
        } else {
            (u, PowerupInventory { triple: sat_inc(inv.triple), ..inv }, lives, shield, MultiplierChange::Unchanged)
        },
        PowerupKind::Shield => if shield is None {
            (
                u,
                inv,
                lives,
                Some(Shield { level: ShieldLevel::Full, phase: frame_counter }),
                MultiplierChange::Unchanged,
            )
        } else {
            (u, PowerupInventory { shield: sat_inc(inv.shield), ..inv }, lives, shield, MultiplierChange::Unchanged)
        },
    }
}

/// `n + 1`, saturating at 255.
pub open spec fn sat_inc(n: u8) -> u8 {
    if n < 255 {
        (n + 1) as u8
    } else {
        255
    }
}

/// Apply a powerup to the player. If the upgrade is already maxed, route to inventory.
pub fn apply_powerup(
    kind: PowerupKind,
    upgrades: &mut PlayerUpgrades,
    inventory: &mut PowerupInventory,
    lives: &mut u32,
    player_shield: &mut Option<Shield>,
    frame_counter: u64,
) -> (change: MultiplierChange)
    requires
        kind == PowerupKind::Life ==> *old(lives) < u32::MAX,
    ensures
        (*final(upgrades), *final(inventory), *final(lives), *final(player_shield), change)
            == spec_apply_powerup(
            kind,
            *old(upgrades),
            *old(inventory),
            *old(lives),
            *old(player_shield),
            frame_counter,
        ),
{
    match kind {
        PowerupKind::Life => {
            *lives = *lives + 1;
            MultiplierChange::Unchanged
        },
        PowerupKind::Rate => {
            if upgrades.fire_rate_stacks < 2 {
                upgrades.fire_rate_stacks = upgrades.fire_rate_stacks + 1;
                MultiplierChange::FireRateUp
            } else {
                inventory.rate = inventory.rate.saturating_add(1);
                MultiplierChange::Unchanged
            }
        },
        PowerupKind::Speed => {
            if upgrades.speed_stacks < 2 {
                upgrades.speed_stacks = upgrades.speed_stacks + 1;
                MultiplierChange::SpeedUp
            } else {
                inventory.speed = inventory.speed.saturating_add(1);
                MultiplierChange::Unchanged
            }
        },
        PowerupKind::Double => {
            if upgrades.bullet_count < 2 {
                upgrades.bullet_count = 2;
            } else {
                inventory.double = inventory.double.saturating_add(1);
            }
            MultiplierChange::Unchanged
        },
        PowerupKind::Triple => {
            if upgrades.bullet_count < 3 {
                upgrades.bullet_count = 3;
            } else {
                inventory.triple = inventory.triple.saturating_add(1);
            }
            MultiplierChange::Unchanged
        },
        PowerupKind::Shield => {
            if player_shield.is_none() {
                *player_shield = Some(Shield::new(frame_counter));
            } else {
                inventory.shield = inventory.shield.saturating_add(1);
            }
            MultiplierChange::Unchanged
        },
    }
}

/// The player's ledger: what the game keeps of the player besides position.
#[derive(Clone, Copy, Debug, PartialEq, Eq, Structural)]
pub struct Ledger {
    pub score: i32,
    pub lives: u32,
    /// Abstract currency for buying/selling powerups and lives.
    pub currency: u32,
    pub upgrades: PlayerUpgrades,
    pub inventory: PowerupInventory,
    pub shield: Option<Shield>,
    /// Current wave (1-based).
    pub wave: u32,
    /// The game is over.
    pub lost: bool,
}

/// Horizontal offsets, in pixels from the ship's centre, of the bullets of
/// one volley: three at -5, 0 and 5 with triple bullets, two at -4 and 4
/// with double bullets, one in the centre otherwise.
pub open spec fn spec_volley_offsets(bullet_count: u8) -> Seq<i32> {
    if bullet_count == 3 {
        seq![-5i32, 0, 5]
    } else if bullet_count == 2 {
        seq![-4i32, 4]
    } else {
        seq![0i32]
    }
}

/// Horizontal offsets of the bullets the player fires at once.
pub fn volley_offsets(bullet_count: u8) -> (v: Vec<i32>)
    ensures
        v@ == spec_volley_offsets(bullet_count),
{
    match bullet_count {
        3 => vec![-5, 0, 5],
        2 => vec![-4, 4],
        _ => vec![0],
    }
}

/// What a trade did: whether something was bought and whether something
/// was sold, with the multiplier change that each implies.
#[derive(Clone, Copy, Debug, PartialEq, Eq, Structural)]
pub struct TradeOutcome {
    pub bought: bool,
    pub sold: bool,
    pub buy_change: MultiplierChange,
    pub sell_change: MultiplierChange,
}

/// How a hit on the player ended.
#[derive(Clone, Copy, Debug, PartialEq, Eq, Structural)]
pub enum Strike {
    /// The shield took it (and may have broken).
    Absorbed,
    /// There was no shield: the player lost a life.
    Killed,
}

/// Upgrades at the start of a game: no stacks, double bullets.
pub open spec fn start_upgrades() -> PlayerUpgrades {
    PlayerUpgrades { fire_rate_stacks: 0, speed_stacks: 0, bullet_count: 2 }
}

/// Upgrades after a death: no stacks, single bullets.
pub open spec fn death_upgrades() -> PlayerUpgrades {
    PlayerUpgrades { fire_rate_stacks: 0, speed_stacks: 0, bullet_count: 1 }
}

/// The ledger at the start of a game begun at `wave`.
pub open spec fn spec_start(wave: u32) -> Ledger {
    Ledger {
        score: 0,
        lives: PLAYER_LIVES,
        currency: 0,
        upgrades: start_upgrades(),
        inventory: PowerupInventory::spec_empty(),
        shield: Some(Shield { level: ShieldLevel::Full, phase: 0 }),
        wave,
        lost: false,
    }
}

// ---------------------------------------------------------------------------
// Buying. Costs: Rate=1, Speed=1, Double=1, Triple=2, Shield=2, Life=2.
/// The buy that a step makes: the first, in the order Rate, Speed, Double,
/// Triple, Shield, Life, that is asked for and still possible (a stack below
/// 2, a bullet count below the one bought, no shield); `None` when there is
/// none. This buy is both paid for and delivered.
pub open spec fn buy_choice(l: Ledger, acts: Seq<Action>) -> Option<Action> {
    if acts.contains(Action::BuyRate) && l.upgrades.fire_rate_stacks < 2 {
        Some(Action::BuyRate)
    } else if acts.contains(Action::BuySpeed) && l.upgrades.speed_stacks < 2 {
        Some(Action::BuySpeed)
    } else if acts.contains(Action::BuyDouble) && l.upgrades.bullet_count < 2 {
        Some(Action::BuyDouble)
    } else if acts.contains(Action::BuyTriple) && l.upgrades.bullet_count < 3 {
        Some(Action::BuyTriple)
    } else if acts.contains(Action::BuyShield) && l.shield is None {
        Some(Action::BuyShield)
    } else if acts.contains(Action::BuyLife) {
        Some(Action::BuyLife)
    } else {
        None
    }
}

/// The price of a buy: 1 for rate, speed and double, 2 for the others.
pub open spec fn price(a: Action) -> u32 {
    match a {
        Action::BuyRate | Action::BuySpeed | Action::BuyDouble => 1,
        _ => 2,
    }
}

/// The price of the buy a step makes, if any.
pub open spec fn buy_cost(l: Ledger, acts: Seq<Action>) -> Option<u32> {
    match buy_choice(l, acts) {
        Some(a) => Some(price(a)),
        None => None,
    }
}

/// A buy goes through: one is possible and the currency covers its price.
pub open spec fn buys(l: Ledger, acts: Seq<Action>) -> bool {
    buy_cost(l, acts) matches Some(c) && l.currency >= c
}

/// Delivering a buy would overflow a counter.
pub open spec fn buy_overflows(l: Ledger, acts: Seq<Action>) -> bool {
    buys(l, acts) && buy_choice(l, acts) == Some(Action::BuyLife) && l.lives == u32::MAX
}

/// The ledger after the buy step, and the multiplier change.
pub open spec fn spec_buy(l: Ledger, acts: Seq<Action>, frame_counter: u64) -> (Ledger, MultiplierChange) {
    if !buys(l, acts) {
        (l, MultiplierChange::Unchanged)
    } else {
        let paid = Ledger { currency: (l.currency - buy_cost(l, acts)->0) as u32, ..l };
        let u = l.upgrades;
        match buy_choice(l, acts) {
            Some(Action::BuyRate) => (
                Ledger {
                    upgrades: PlayerUpgrades { fire_rate_stacks: (u.fire_rate_stacks + 1) as u8, ..u },
                    ..paid
                },
                MultiplierChange::FireRateUp,
            ),
            Some(Action::BuySpeed) => (
                Ledger {
                    upgrades: PlayerUpgrades { speed_stacks: (u.speed_stacks + 1) as u8, ..u },
                    ..paid
                },
                MultiplierChange::SpeedUp,
            ),
            Some(Action::BuyDouble) => (
                Ledger { upgrades: PlayerUpgrades { bullet_count: 2, ..u }, ..paid },
                MultiplierChange::Unchanged,
            ),
            Some(Action::BuyTriple) => (
                Ledger { upgrades: PlayerUpgrades { bullet_count: 3, ..u }, ..paid },
                MultiplierChange::Unchanged,
            ),
            Some(Action::BuyShield) => (
                Ledger { shield: Some(Shield { level: ShieldLevel::Full, phase: frame_counter }), ..paid },
                MultiplierChange::Unchanged,
            ),
            _ => (Ledger { lives: (l.lives + 1) as u32, ..paid }, MultiplierChange::Unchanged),
        }
    }
}

// ---------------------------------------------------------------------------
// Selling. Everything sells for 1, inventory first, then active upgrades; a
// damaged or critical shield is worthless.
/// The ledger after the sell step, the value received (0 or 1) and the
/// multiplier change. Only the first sell asked for, in the order Rate,
/// Speed, Double, Triple, Shield, Life, is considered.
pub open spec fn spec_sell(l: Ledger, acts: Seq<Action>) -> (Ledger, u32, MultiplierChange) {
    let u = l.upgrades;
    let inv = l.inventory;
    if acts.contains(Action::SellRate) {
        if inv.rate > 0 {
            (Ledger { inventory: PowerupInventory { rate: (inv.rate - 1) as u8, ..inv }, ..l }, 1, MultiplierChange::Unchanged)
        } else if u.fire_rate_stacks > 0 {
            (
                Ledger {
                    upgrades: PlayerUpgrades { fire_rate_stacks: (u.fire_rate_stacks - 1) as u8, ..u },
                    ..l
                },
                1,
                MultiplierChange::FireRateDown,
            )
        } else {
            (l, 0, MultiplierChange::Unchanged)
        }
    } else if acts.contains(Action::SellSpeed) {
        if inv.speed > 0 {
            (Ledger { inventory: PowerupInventory { speed: (inv.speed - 1) as u8, ..inv }, ..l }, 1, MultiplierChange::Unchanged)
        } else if u.speed_stacks > 0 {
            (
                Ledger {
                    upgrades: PlayerUpgrades { speed_stacks: (u.speed_stacks - 1) as u8, ..u },
                    ..l
                },
                1,
                MultiplierChange::SpeedDown,
            )
        } else {
            (l, 0, MultiplierChange::Unchanged)
        }
    } else if acts.contains(Action::SellDouble) {
        if inv.double > 0 {
            (Ledger { inventory: PowerupInventory { double: (inv.double - 1) as u8, ..inv }, ..l }, 1, MultiplierChange::Unchanged)
        } else if u.bullet_count == 2 {
            (Ledger { upgrades: PlayerUpgrades { bullet_count: 1, ..u }, ..l }, 1, MultiplierChange::Unchanged)
        } else {
            (l, 0, MultiplierChange::Unchanged)
        }
    } else if acts.contains(Action::SellTriple) {
        if inv.triple > 0 {
            (Ledger { inventory: PowerupInventory { triple: (inv.triple - 1) as u8, ..inv }, ..l }, 1, MultiplierChange::Unchanged)
        } else if u.bullet_count == 3 {
            (Ledger { upgrades: PlayerUpgrades { bullet_count: 2, ..u }, ..l }, 1, MultiplierChange::Unchanged)
        } else {
            (l, 0, MultiplierChange::Unchanged)
        }
    } else if acts.contains(Action::SellShield) {
        if inv.shield > 0 {
            (Ledger { inventory: PowerupInventory { shield: (inv.shield - 1) as u8, ..inv }, ..l }, 1, MultiplierChange::Unchanged)
        } else if l.shield matches Some(s) && s.level == ShieldLevel::Full {
            (Ledger { shield: None, ..l }, 1, MultiplierChange::Unchanged)
        } else {
            (l, 0, MultiplierChange::Unchanged)
        }
    } else if acts.contains(Action::SellLife) {
        if l.lives > 1 {
            (Ledger { lives: (l.lives - 1) as u32, ..l }, 1, MultiplierChange::Unchanged)
        } else {
            (l, 0, MultiplierChange::Unchanged)
        }
    } else {
        (l, 0, MultiplierChange::Unchanged)
    }
}

/// The ledger after a whole trade: the buy step, then the sell step, whose
/// proceeds are added to the currency.
pub open spec fn spec_trade(l: Ledger, acts: Seq<Action>, frame_counter: u64) -> (Ledger, TradeOutcome) {
    let (after_buy, buy_change) = spec_buy(l, acts, frame_counter);
    let (after_sell, value, sell_change) = spec_sell(after_buy, acts);
    (
        Ledger { currency: (after_sell.currency + value) as u32, ..after_sell },
        TradeOutcome { bought: buys(l, acts), sold: value > 0, buy_change, sell_change },
    )
}

/// A trade would overflow a counter (the buy, or the currency when selling).
pub open spec fn trade_overflows(l: Ledger, acts: Seq<Action>, frame_counter: u64) -> bool {
    buy_overflows(l, acts) || {
        let after_buy = spec_buy(l, acts, frame_counter).0;
        spec_sell(after_buy, acts).1 > 0 && spec_sell(after_buy, acts).0.currency == u32::MAX
    }
}

// ---------------------------------------------------------------------------
// Hits and deaths.
/// The ledger after the player dies: 500 points lost, one life lost,
/// upgrades, inventory and currency reset; the game is lost when no life is
/// left, otherwise the player respawns without a shield.
pub open spec fn spec_kill(l: Ledger) -> Ledger {
    let lives = (l.lives - 1) as u32;
    Ledger {
        score: (l.score - 500) as i32,
        lives,
        currency: 0,
        upgrades: death_upgrades(),
        inventory: PowerupInventory::spec_empty(),
        shield: if lives == 0 {
            l.shield
        } else {
            None
        },
        wave: l.wave,
        lost: if lives == 0 {
            true
        } else {
            l.lost
        },
    }
}

/// The ledger after an enemy hits the player, and how it ended: a shield
/// takes the hit at a cost of 200 points (dropping a level, or breaking when
/// critical); without one the player dies.
pub open spec fn spec_strike(l: Ledger) -> (Ledger, Strike) {
    match l.shield {
        Some(s) => (
            Ledger {
                score: (l.score - 200) as i32,
                shield: match level_after_hit(s.level) {
                    Some(level) => Some(Shield { level, phase: s.phase }),
                    None => None,
                },
                ..l
            },
            Strike::Absorbed,
        ),
        None => (spec_kill(l), Strike::Killed),
    }
}

/// A strike would overflow the score or take a life that is not there.
pub open spec fn strike_fails(l: Ledger) -> bool {
    match l.shield {
        Some(_) => l.score < i32::MIN + 200,
        None => l.score < i32::MIN + 500 || l.lives == 0,
    }
}

impl Ledger {
    /// The ledger at the start of a game begun at `wave`: 3 lives, a full
    /// shield, double bullets, nothing else.
    pub fn new(wave: u32) -> (l: Self)
        ensures
            l == spec_start(wave),
    {
        Ledger {
            score: 0,
            lives: PLAYER_LIVES,
            currency: 0,
            upgrades: PlayerUpgrades { fire_rate_stacks: 0, speed_stacks: 0, bullet_count: 2 },
            inventory: PowerupInventory::empty(),
            shield: Some(Shield::new(0)),
            wave,
            lost: false,
        }
    }

    /// Time pressure: every tick costs a point.
    pub fn start_tick(&mut self)
        requires
            old(self).score > i32::MIN,
        ensures
            *final(self) == (Ledger { score: (old(self).score - 1) as i32, ..*old(self) }),
    {
        self.score = self.score - 1;
    }

    /// Buy and sell with the currency, as the actions of this step ask.
    pub fn trade(&mut self, actions: &[Action], frame_counter: u64) -> (o: TradeOutcome)
        requires
            !trade_overflows(*old(self), actions@, frame_counter),
        ensures
            (*final(self), o) == spec_trade(*old(self), actions@, frame_counter),
    {
        let buy_rate = has_action(actions, Action::BuyRate);
        let buy_speed = has_action(actions, Action::BuySpeed);
        let buy_double = has_action(actions, Action::BuyDouble);
        let buy_triple = has_action(actions, Action::BuyTriple);
        let buy_shield = has_action(actions, Action::BuyShield);
        let buy_life = has_action(actions, Action::BuyLife);
        // The first buy asked for that is still possible is paid for and delivered.
        let choice: Option<Action> = if buy_rate && self.upgrades.fire_rate_stacks < 2 {
            Some(Action::BuyRate)
        } else if buy_speed && self.upgrades.speed_stacks < 2 {
            Some(Action::BuySpeed)
        } else if buy_double && self.upgrades.bullet_count < 2 {
            Some(Action::BuyDouble)
        } else if buy_triple && self.upgrades.bullet_count < 3 {
            Some(Action::BuyTriple)
        } else if buy_shield && self.shield.is_none() {
            Some(Action::BuyShield)
        } else if buy_life {
            Some(Action::BuyLife)
        } else {
            None
        };
        let mut bought = false;
        let mut buy_change = MultiplierChange::Unchanged;
        if let Some(goods) = choice {
            let cost: u32 = match goods {
                Action::BuyRate | Action::BuySpeed | Action::BuyDouble => 1,
                _ => 2,
            };
            if self.currency >= cost {
                self.currency = self.currency - cost;
                bought = true;
                match goods {
                    Action::BuyRate => {
                        self.upgrades.fire_rate_stacks = self.upgrades.fire_rate_stacks + 1;
                        buy_change = MultiplierChange::FireRateUp;
                    },
                    Action::BuySpeed => {
                        self.upgrades.speed_stacks = self.upgrades.speed_stacks + 1;
                        buy_change = MultiplierChange::SpeedUp;
                    },
                    Action::BuyDouble => {
                        self.upgrades.bullet_count = 2;
                    },
                    Action::BuyTriple => {
                        self.upgrades.bullet_count = 3;
                    },
                    Action::BuyShield => {
                        self.shield = Some(Shield::new(frame_counter));
                    },
                    _ => {
                        self.lives = self.lives + 1;
                    },
                }
            }
        }
        let mut sell_change = MultiplierChange::Unchanged;
        let sell_value: u32 = if has_action(actions, Action::SellRate) {
            if self.inventory.rate > 0 {
                self.inventory.rate = self.inventory.rate - 1;
                1
            } else if self.upgrades.fire_rate_stacks > 0 {
                self.upgrades.fire_rate_stacks = self.upgrades.fire_rate_stacks - 1;
                sell_change = MultiplierChange::FireRateDown;
                1
            } else {
                0
            }
        } else if has_action(actions, Action::SellSpeed) {
            if self.inventory.speed > 0 {
                self.inventory.speed = self.inventory.speed - 1;
                1
            } else if self.upgrades.speed_stacks > 0 {
                self.upgrades.speed_stacks = self.upgrades.speed_stacks - 1;
                sell_change = MultiplierChange::SpeedDown;
                1
            } else {
                0
            }
        } else if has_action(actions, Action::SellDouble) {
            if self.inventory.double > 0 {
                self.inventory.double = self.inventory.double - 1;
                1
            } else if self.upgrades.bullet_count == 2 {
                self.upgrades.bullet_count = 1;
                1
            } else {
                0
            }
        } else if has_action(actions, Action::SellTriple) {
            if self.inventory.triple > 0 {
                self.inventory.triple = self.inventory.triple - 1;
                1
            } else if self.upgrades.bullet_count == 3 {
                self.upgrades.bullet_count = 2;
                1
            } else {
                0
            }
        } else if has_action(actions, Action::SellShield) {
            if self.inventory.shield > 0 {
                self.inventory.shield = self.inventory.shield - 1;
                1
            } else if match self.shield {
                Some(s) => s.level == ShieldLevel::Full,
                None => false,
            } {
                self.shield = None;
                1
            } else {
                0
            }
        } else if has_action(actions, Action::SellLife) {
            if self.lives > 1 {
                self.lives = self.lives - 1;
                1
            } else {
                0
            }
        } else {
            0
        };
        let mut sold = false;
        if sell_value > 0 {
            self.currency = self.currency + sell_value;
            sold = true;
        }
        TradeOutcome { bought, sold, buy_change, sell_change }
    }

    /// The player dies: see [`spec_kill`].
    pub fn kill_player(&mut self)
        requires
            old(self).score >= i32::MIN + 500,
            old(self).lives >= 1,
        ensures
            *final(self) == spec_kill(*old(self)),
    {
        self.score = self.score - 500;
        self.lives = self.lives - 1;
        self.upgrades = PlayerUpgrades { fire_rate_stacks: 0, speed_stacks: 0, bullet_count: 1 };
        self.inventory = PowerupInventory::empty();
        self.currency = 0;
        if self.lives == 0 {
            self.lost = true;
        } else {
            self.shield = None;
        }
    }

    /// An enemy bullet, ball or diver hits the player: see [`spec_strike`].
    pub fn player_struck(&mut self) -> (s: Strike)
        requires
            !strike_fails(*old(self)),
        ensures
            (*final(self), s) == spec_strike(*old(self)),
    {
        if absorb_hit(&mut self.shield) {
            self.score = self.score - 200;
            Strike::Absorbed
        } else {
            self.kill_player();
            Strike::Killed
        }
    }

    /// A player bullet hits an enemy: 50 points for the hit; an enemy shield
    /// takes it (dropping a level, or breaking when critical), otherwise the
    /// enemy dies and its class score is added. Returns whether it died.
    pub fn enemy_struck(&mut self, enemy_shield: &mut Option<Shield>, class: EnemyClass) -> (killed: bool)
        requires
            old(self).score as int + 50 + (if *old(enemy_shield) is None {
                class_score(class) as int
            } else {
                0
            }) <= i32::MAX,
        ensures
            killed == (*old(enemy_shield) is None),
            *final(self) == (Ledger {
                score: (old(self).score + 50 + if killed {
                    class_score(class) as int
                } else {
                    0
                }) as i32,
                ..*old(self)
            }),
            match *old(enemy_shield) {
                None => *final(enemy_shield) is None,
                Some(s) => *final(enemy_shield) == match level_after_hit(s.level) {
                    Some(level) => Some(Shield { level, phase: s.phase }),
                    None => None,
                },
            },
    {
        self.score = self.score + 50;
        if absorb_hit(enemy_shield) {
            false
        } else {
            self.score = self.score + class.stats().score as i32;
            true
        }
    }

    /// Collect a powerup: 500 points, then its effect (see [`spec_collect`]).
    pub fn collect_powerup(&mut self, kind: PowerupKind, frame_counter: u64) -> (c: MultiplierChange)
        requires
            old(self).score as int + 500 <= i32::MAX,
            kind == PowerupKind::Life ==> old(self).lives < u32::MAX,
        ensures
            *final(self) == spec_collect(*old(self), kind, frame_counter),
            c == spec_collect_change(*old(self), kind, frame_counter),
    {
        self.score = self.score + 500;
        apply_powerup(
            kind,
            &mut self.upgrades,
            &mut self.inventory,
            &mut self.lives,
            &mut self.shield,
            frame_counter,
        )
    }

    /// A wave is cleared: 5000 points, every powerup still falling is
    /// collected in order (see [`spec_clear_wave`]), and on to the next wave.
    /// Returns the multiplier change of each collected powerup, in order.
    pub fn clear_wave(&mut self, kinds: &[PowerupKind], frame_counter: u64) -> (changes: Vec<MultiplierChange>)
        requires
            old(self).score as int + 5000 + 500 * kinds.len() <= i32::MAX,
            old(self).lives as int + kinds.len() <= u32::MAX,
            old(self).wave < u32::MAX,
        ensures
            *final(self) == spec_clear_wave(*old(self), kinds@, frame_counter),
            changes.len() == kinds.len(),
            forall|i: int|
                0 <= i < kinds.len() ==> #[trigger] changes@[i] == spec_collect_change(
                    spec_collect_all(wave_bonus(*old(self)), kinds@.take(i), frame_counter),
                    kinds@[i],
                    frame_counter,
                ),
    {
        let ghost start = wave_bonus(*self);
        self.score = self.score + 5000;
        let mut changes: Vec<MultiplierChange> = Vec::new();
        let mut i: usize = 0;
        while i < kinds.len()
            invariant
                0 <= i <= kinds.len(),
                start.score as int + 500 * kinds.len() <= i32::MAX,
                start.lives as int + kinds.len() <= u32::MAX,
                *self == spec_collect_all(start, kinds@.take(i as int), frame_counter),
                self.score == start.score + 500 * i,
                self.lives <= start.lives + i,
                self.wave == start.wave,
                start.wave < u32::MAX,
                changes.len() == i,
                forall|j: int|
                    0 <= j < i ==> #[trigger] changes@[j] == spec_collect_change(
                        spec_collect_all(start, kinds@.take(j), frame_counter),
                        kinds@[j],
                        frame_counter,
                    ),
            decreases kinds.len() - i,
        {
            assert(kinds@.take(i + 1).drop_last() =~= kinds@.take(i as int));
            assert(kinds@.take(i + 1).last() == kinds@[i as int]);
            let c = self.collect_powerup(kinds[i], frame_counter);
            changes.push(c);
            i += 1;
        }
        assert(kinds@.take(kinds.len() as int) =~= kinds@);
        self.wave = self.wave + 1;
        changes
    }
}

/// The ledger after collecting a powerup: 500 points, then its effect (see
/// [`spec_apply_powerup`]).
pub open spec fn spec_collect(l: Ledger, kind: PowerupKind, frame_counter: u64) -> Ledger {
    let (u, inv, lives, shield, _) = spec_apply_powerup(
        kind,
        l.upgrades,
        l.inventory,
        l.lives,
        l.shield,
        frame_counter,
    );
    Ledger { score: (l.score + 500) as i32, upgrades: u, inventory: inv, lives, shield, ..l }
}

/// The multiplier change of collecting a powerup.
pub open spec fn spec_collect_change(l: Ledger, kind: PowerupKind, frame_counter: u64) -> MultiplierChange {
    spec_apply_powerup(kind, l.upgrades, l.inventory, l.lives, l.shield, frame_counter).4
}

/// The ledger after collecting the powerups `kinds`, first to last.
pub open spec fn spec_collect_all(l: Ledger, kinds: Seq<PowerupKind>, frame_counter: u64) -> Ledger
    decreases kinds.len(),
{
    if kinds.len() == 0 {
        l
    } else {
        spec_collect(spec_collect_all(l, kinds.drop_last(), frame_counter), kinds.last(), frame_counter)
    }
}

/// The 5000-point bonus for clearing a wave.
pub open spec fn wave_bonus(l: Ledger) -> Ledger {
    Ledger { score: (l.score + 5000) as i32, ..l }
}

/// The ledger after a wave is cleared with the powerups `kinds` still
/// falling: the bonus, each of them collected, and the next wave.
pub open spec fn spec_clear_wave(l: Ledger, kinds: Seq<PowerupKind>, frame_counter: u64) -> Ledger {
    Ledger { wave: (l.wave + 1) as u32, ..spec_collect_all(wave_bonus(l), kinds, frame_counter) }
}

// ---------------------------------------------------------------------------
// Laws of the ledger.
/// Upgrades as documented: 0 to 2 fire-rate and speed stacks, 1 to 3 bullets.
pub open spec fn upgrades_bounded(u: PlayerUpgrades) -> bool {
    &&& u.fire_rate_stacks <= 2
    &&& u.speed_stacks <= 2
    &&& 1 <= u.bullet_count <= 3
}

/// A fresh shield takes three hits (full, damaged, critical — the third
/// breaks it) at 200 points each without costing a life; the fourth hit kills.
pub proof fn law_fresh_shield_takes_three_hits(l: Ledger, phase: u64)
    requires
        l.shield == Some(Shield { level: ShieldLevel::Full, phase }),
        l.score >= i32::MIN + 1100,
        l.lives >= 1,
    ensures
        ({
            let (l1, s1) = spec_strike(l);
            let (l2, s2) = spec_strike(l1);
            let (l3, s3) = spec_strike(l2);
            let (l4, s4) = spec_strike(l3);
            &&& s1 == Strike::Absorbed && s2 == Strike::Absorbed && s3 == Strike::Absorbed
            &&& l3.lives == l.lives && l3.score == l.score - 600 && l3.shield is None
            &&& s4 == Strike::Killed && l4.lives == l.lives - 1
        }),
{
}

/// Pickups keep the upgrades within their documented bounds: maxed
/// upgrades go to the inventory instead.
pub proof fn law_powerup_keeps_upgrades_bounded(
    kind: PowerupKind,
    u: PlayerUpgrades,
    inv: PowerupInventory,
    lives: u32,
    shield: Option<Shield>,
    frame_counter: u64,
)
    requires
        upgrades_bounded(u),
    ensures
        upgrades_bounded(spec_apply_powerup(kind, u, inv, lives, shield, frame_counter).0),
{
}

/// Trading keeps the upgrades within their documented bounds, whatever
/// actions a step asks for: a buy is made only while it is still possible.
pub proof fn law_trade_keeps_upgrades_bounded(l: Ledger, acts: Seq<Action>, frame_counter: u64)
    requires
        upgrades_bounded(l.upgrades),
    ensures
        upgrades_bounded(spec_trade(l, acts, frame_counter).0.upgrades),
{
}

/// `after` is `before` changed by one of the ledger's operations: a change
/// of score alone (the start of a tick, a hit dealt to an enemy), a trade, a
/// strike on the player, a death, a powerup collected, a cleared wave, or
/// the game being lost.
pub open spec fn ledger_step(before: Ledger, after: Ledger) -> bool {
    ||| after == Ledger { score: after.score, ..before }
    ||| after == Ledger { lost: true, ..before }
    ||| exists|acts: Seq<Action>, fc: u64| #[trigger] spec_trade(before, acts, fc).0 == after
    ||| spec_strike(before).0 == after
    ||| spec_kill(before) == after
    ||| exists|kind: PowerupKind, fc: u64| #[trigger] spec_collect(before, kind, fc) == after
    ||| exists|kinds: Seq<PowerupKind>, fc: u64| #[trigger] spec_clear_wave(before, kinds, fc) == after
}

/// Collecting powerups keeps the upgrades within bounds.
proof fn lemma_collect_all_bounded(l: Ledger, kinds: Seq<PowerupKind>, frame_counter: u64)
    requires
        upgrades_bounded(l.upgrades),
    ensures
        upgrades_bounded(spec_collect_all(l, kinds, frame_counter).upgrades),
    decreases kinds.len(),
{
    if kinds.len() > 0 {
        lemma_collect_all_bounded(l, kinds.drop_last(), frame_counter);
    }
}

/// Any one operation of the ledger keeps the upgrades within bounds.
proof fn lemma_step_keeps_upgrades_bounded(before: Ledger, after: Ledger)
    requires
        upgrades_bounded(before.upgrades),
        ledger_step(before, after),
    ensures
        upgrades_bounded(after.upgrades),
{
    if exists|acts: Seq<Action>, fc: u64| #[trigger] spec_trade(before, acts, fc).0 == after {
        let (acts, fc) = choose|acts: Seq<Action>, fc: u64| #[trigger] spec_trade(before, acts, fc).0 == after;
        law_trade_keeps_upgrades_bounded(before, acts, fc);
    } else if exists|kinds: Seq<PowerupKind>, fc: u64| #[trigger] spec_clear_wave(before, kinds, fc) == after {
        let (kinds, fc) = choose|kinds: Seq<PowerupKind>, fc: u64| #[trigger] spec_clear_wave(before, kinds, fc) == after;
        lemma_collect_all_bounded(wave_bonus(before), kinds, fc);
    }
}

/// Upgrades stay within their documented bounds — 0 to 2 fire-rate and
/// speed stacks, 1 to 3 bullets — along any sequence of the ledger's
/// operations that starts within them, as a game from its start does.
pub proof fn law_steps_keep_upgrades_bounded(ls: Seq<Ledger>)
    requires
        ls.len() > 0,
        upgrades_bounded(ls[0].upgrades),
        forall|i: int| 0 <= i < ls.len() - 1 ==> #[trigger] ledger_step(ls[i], ls[i + 1]),
    ensures
        forall|i: int| 0 <= i < ls.len() ==> upgrades_bounded(#[trigger] ls[i].upgrades),
    decreases ls.len(),
{
    if ls.len() > 1 {
        let p = ls.drop_last();
        assert forall|i: int| 0 <= i < p.len() - 1 implies #[trigger] ledger_step(p[i], p[i + 1]) by {
            assert(ledger_step(ls[i], ls[i + 1]));
        }
        law_steps_keep_upgrades_bounded(p);
        let n = ls.len() - 1;
        let j = n - 1;
        assert(p[j] == ls[j]);
        assert(ledger_step(ls[j], ls[j + 1]));
        assert(j + 1 == n);
        lemma_step_keeps_upgrades_bounded(ls[j], ls[j + 1]);
        assert forall|i: int| 0 <= i < ls.len() implies upgrades_bounded(#[trigger] ls[i].upgrades) by {
            if i < n {
                assert(p[i] == ls[i]);
            }
        }
    }
}

/// A game starts within the upgrade bounds.
pub proof fn law_start_upgrades_bounded(wave: u32)
    ensures
        upgrades_bounded(spec_start(wave).upgrades),
{
}

/// A death leaves the upgrades at their post-death values, within bounds.
pub proof fn law_death_keeps_upgrades_bounded(l: Ledger)
    requires
        l.lives >= 1,
    ensures
        upgrades_bounded(spec_kill(l).upgrades),
        spec_kill(l).upgrades == death_upgrades(),
        spec_kill(l).inventory == PowerupInventory::spec_empty(),
        spec_kill(l).currency == 0,
        spec_kill(l).lost == (l.lost || l.lives == 1),
{
}

/// Trading never takes the last life: with at least one life before, at
/// least one is left after.
pub proof fn law_trade_keeps_a_life(l: Ledger, acts: Seq<Action>, frame_counter: u64)
    requires
        l.lives >= 1,
        !trade_overflows(l, acts, frame_counter),
    ensures
        spec_trade(l, acts, frame_counter).0.lives >= 1,
{
}

/// The currency of a trade: a buy costs its price (1 for rate, speed and
/// double, 2 for triple, shield and life), a sale brings exactly 1, and the
/// currency falls only through a buy.
pub proof fn law_trade_currency(l: Ledger, acts: Seq<Action>, frame_counter: u64)
    requires
        !trade_overflows(l, acts, frame_counter),
    ensures
        ({
            let (after, o) = spec_trade(l, acts, frame_counter);
            &&& after.currency == l.currency - (if o.bought {
                buy_cost(l, acts)->0 as int
            } else {
                0
            }) + (if o.sold {
                1int
            } else {
                0
            })
            &&& o.bought ==> 1 <= buy_cost(l, acts)->0 <= 2 && l.currency >= buy_cost(l, acts)->0
            &&& after.currency < l.currency ==> o.bought
        }),
{
}

/// With upgrades in their bounds, a volley has as many bullets as the
/// bullet count, placed symmetrically about the ship's centre.
pub proof fn law_volley_matches_bullet_count(u: PlayerUpgrades)
    requires
        upgrades_bounded(u),
    ensures
        spec_volley_offsets(u.bullet_count).len() == u.bullet_count,
        forall|i: int|
            0 <= i < u.bullet_count ==> #[trigger] spec_volley_offsets(u.bullet_count)[i]
                == -spec_volley_offsets(u.bullet_count)[u.bullet_count - 1 - i],
{
}

/// Collecting powerups awards 500 points each and can only add lives, one
/// per powerup at most.
pub proof fn lemma_collect_all_score(l: Ledger, kinds: Seq<PowerupKind>, frame_counter: u64)
    requires
        l.score as int + 500 * kinds.len() <= i32::MAX,
        l.lives as int + kinds.len() <= u32::MAX,
    ensures
        spec_collect_all(l, kinds, frame_counter).score == l.score + 500 * kinds.len(),
        l.lives <= spec_collect_all(l, kinds, frame_counter).lives <= l.lives + kinds.len(),
        spec_collect_all(l, kinds, frame_counter).wave == l.wave,
        spec_collect_all(l, kinds, frame_counter).currency == l.currency,
    decreases kinds.len(),
{
    if kinds.len() > 0 {
        lemma_collect_all_score(l, kinds.drop_last(), frame_counter);
    }
}

/// Clearing a wave awards 5000 points plus 500 for each powerup still
/// falling, which are all collected, and moves on to the next wave; the
/// currency is untouched.
pub proof fn law_wave_clear_score(l: Ledger, kinds: Seq<PowerupKind>, frame_counter: u64)
    requires
        l.score as int + 5000 + 500 * kinds.len() <= i32::MAX,
        l.lives as int + kinds.len() <= u32::MAX,
        l.wave < u32::MAX,
    ensures
        spec_clear_wave(l, kinds, frame_counter).score == l.score + 5000 + 500 * kinds.len(),
        spec_clear_wave(l, kinds, frame_counter).wave == l.wave + 1,
        spec_clear_wave(l, kinds, frame_counter).currency == l.currency,
        spec_clear_wave(l, kinds, frame_counter).lives >= l.lives,
{
    lemma_collect_all_score(wave_bonus(l), kinds, frame_counter);
}

/// Buying a life costs 2 currency and goes through exactly when the
/// currency covers it; selling one brings 1 currency and goes through
/// exactly when another life is left.
pub proof fn law_life_trade(l: Ledger, frame_counter: u64)
    requires
        l.lives < u32::MAX,
        l.currency < u32::MAX,
    ensures
        ({
            let (after, o) = spec_trade(l, seq![Action::BuyLife], frame_counter);
            &&& o.bought == (l.currency >= 2) && !o.sold
            &&& after.currency == if l.currency >= 2 {
                l.currency - 2
            } else {
                l.currency as int
            }
            &&& after.lives == if l.currency >= 2 {
                l.lives + 1
            } else {
                l.lives as int
            }
        }),
        ({
            let (after, o) = spec_trade(l, seq![Action::SellLife], frame_counter);
            &&& o.sold == (l.lives > 1) && !o.bought
            &&& after.currency == if l.lives > 1 {
                l.currency + 1
            } else {
                l.currency as int
            }
            &&& after.lives == if l.lives > 1 {
                l.lives - 1
            } else {
                l.lives as int
            }
        }),
{
    let b = seq![Action::BuyLife];
    let sl = seq![Action::SellLife];
    assert(b[0] == Action::BuyLife);
    assert(sl[0] == Action::SellLife);
    assert(b.contains(Action::BuyLife));
    assert(sl.contains(Action::SellLife));
    assert(!b.contains(Action::BuyRate) && !b.contains(Action::BuySpeed) && !b.contains(Action::BuyDouble)
        && !b.contains(Action::BuyTriple) && !b.contains(Action::BuyShield));
    assert(!b.contains(Action::SellRate) && !b.contains(Action::SellSpeed) && !b.contains(Action::SellDouble)
        && !b.contains(Action::SellTriple) && !b.contains(Action::SellShield) && !b.contains(Action::SellLife));
    assert(!sl.contains(Action::BuyRate) && !sl.contains(Action::BuySpeed) && !sl.contains(Action::BuyDouble)
        && !sl.contains(Action::BuyTriple) && !sl.contains(Action::BuyShield) && !sl.contains(Action::BuyLife));
    assert(!sl.contains(Action::SellRate) && !sl.contains(Action::SellSpeed) && !sl.contains(Action::SellDouble)
        && !sl.contains(Action::SellTriple) && !sl.contains(Action::SellShield));
}

/// Buying a rate, speed or double upgrade and then selling it back leaves
/// the ledger as it was, when the inventory holds none of it to sell first.
pub proof fn law_buy_then_sell_restores(l: Ledger, frame_counter: u64)
    requires
        l.currency >= 1,
        l.currency < u32::MAX,
    ensures
        l.upgrades.fire_rate_stacks < 2 && l.inventory.rate == 0 ==> spec_trade(
            spec_trade(l, seq![Action::BuyRate], frame_counter).0,
            seq![Action::SellRate],
            frame_counter,
        ).0 == l,
        l.upgrades.speed_stacks < 2 && l.inventory.speed == 0 ==> spec_trade(
            spec_trade(l, seq![Action::BuySpeed], frame_counter).0,
            seq![Action::SellSpeed],
            frame_counter,
        ).0 == l,
        l.upgrades.bullet_count == 1 && l.inventory.double == 0 ==> spec_trade(
            spec_trade(l, seq![Action::BuyDouble], frame_counter).0,
            seq![Action::SellDouble],
            frame_counter,
        ).0 == l,
{
    let b = seq![Action::BuyRate];
    let sr = seq![Action::SellRate];
    assert(b[0] == Action::BuyRate);
    assert(sr[0] == Action::SellRate);
    assert(!b.contains(Action::SellRate) && !b.contains(Action::SellSpeed) && !b.contains(Action::SellDouble)
        && !b.contains(Action::SellTriple) && !b.contains(Action::SellShield) && !b.contains(Action::SellLife));
    assert(b.contains(Action::BuyRate));
    assert(sr.contains(Action::SellRate));
    assert(!sr.contains(Action::BuyRate) && !sr.contains(Action::BuySpeed) && !sr.contains(Action::BuyDouble)
        && !sr.contains(Action::BuyTriple) && !sr.contains(Action::BuyShield) && !sr.contains(Action::BuyLife));
    let bs = seq![Action::BuySpeed];
    let ss = seq![Action::SellSpeed];
    assert(bs[0] == Action::BuySpeed);
    assert(ss[0] == Action::SellSpeed);
    assert(bs.contains(Action::BuySpeed) && !bs.contains(Action::BuyRate));
    assert(ss.contains(Action::SellSpeed) && !ss.contains(Action::SellRate));
    assert(!bs.contains(Action::SellRate) && !bs.contains(Action::SellSpeed) && !bs.contains(Action::SellDouble)
        && !bs.contains(Action::SellTriple) && !bs.contains(Action::SellShield) && !bs.contains(Action::SellLife));
    assert(!ss.contains(Action::BuyRate) && !ss.contains(Action::BuySpeed) && !ss.contains(Action::BuyDouble)
        && !ss.contains(Action::BuyTriple) && !ss.contains(Action::BuyShield) && !ss.contains(Action::BuyLife));
    let bd = seq![Action::BuyDouble];
    let sd = seq![Action::SellDouble];
    assert(bd[0] == Action::BuyDouble);
    assert(sd[0] == Action::SellDouble);
    assert(bd.contains(Action::BuyDouble) && !bd.contains(Action::BuyRate) && !bd.contains(Action::BuySpeed));
    assert(sd.contains(Action::SellDouble) && !sd.contains(Action::SellRate) && !sd.contains(Action::SellSpeed));
    assert(!bd.contains(Action::SellRate) && !bd.contains(Action::SellSpeed) && !bd.contains(Action::SellDouble)
        && !bd.contains(Action::SellTriple) && !bd.contains(Action::SellShield) && !bd.contains(Action::SellLife));
    assert(!sd.contains(Action::BuyRate) && !sd.contains(Action::BuySpeed) && !sd.contains(Action::BuyDouble)
        && !sd.contains(Action::BuyTriple) && !sd.contains(Action::BuyShield) && !sd.contains(Action::BuyLife));
}

/// A one-action list asks for exactly that action.
proof fn lemma_single_action(a: Action)
    ensures
        forall|b: Action| #[trigger] seq![a].contains(b) <==> b == a,
{
    assert forall|b: Action| #[trigger] seq![a].contains(b) <==> b == a by {
        if b == a {
            assert(seq![a][0] == a);
        }
    }
}

/// Selling takes from the surplus inventory first: while the inventory
/// holds one of the kind sold, one is taken from it for 1 currency and the
/// upgrades, the active shield and the lives stay as they were. Only with
/// none of that kind in the inventory is an active upgrade or the active
/// (full) shield sold, again for 1 currency.
pub proof fn law_sell_inventory_first(l: Ledger, frame_counter: u64)
    requires
        l.currency < u32::MAX,
    ensures
        ({
            let (a, o) = spec_trade(l, seq![Action::SellRate], frame_counter);
            &&& l.inventory.rate > 0 ==> a.inventory == PowerupInventory { rate: (l.inventory.rate - 1) as u8, ..l.inventory }
                && a.upgrades == l.upgrades && a.shield == l.shield && a.lives == l.lives
                && a.currency == l.currency + 1 && o.sold && o.sell_change == MultiplierChange::Unchanged
            &&& l.inventory.rate == 0 && l.upgrades.fire_rate_stacks > 0 ==> a.inventory == l.inventory
                && a.upgrades.fire_rate_stacks == l.upgrades.fire_rate_stacks - 1
                && a.upgrades.speed_stacks == l.upgrades.speed_stacks
                && a.upgrades.bullet_count == l.upgrades.bullet_count && a.shield == l.shield
                && a.currency == l.currency + 1 && o.sold && o.sell_change == MultiplierChange::FireRateDown
        }),
        ({
            let (a, o) = spec_trade(l, seq![Action::SellSpeed], frame_counter);
            &&& l.inventory.speed > 0 ==> a.inventory == PowerupInventory { speed: (l.inventory.speed - 1) as u8, ..l.inventory }
                && a.upgrades == l.upgrades && a.shield == l.shield && a.lives == l.lives
                && a.currency == l.currency + 1 && o.sold && o.sell_change == MultiplierChange::Unchanged
            &&& l.inventory.speed == 0 && l.upgrades.speed_stacks > 0 ==> a.inventory == l.inventory
                && a.upgrades.speed_stacks == l.upgrades.speed_stacks - 1
                && a.upgrades.fire_rate_stacks == l.upgrades.fire_rate_stacks
                && a.upgrades.bullet_count == l.upgrades.bullet_count && a.shield == l.shield
                && a.currency == l.currency + 1 && o.sold && o.sell_change == MultiplierChange::SpeedDown
        }),
        ({
            let (a, o) = spec_trade(l, seq![Action::SellDouble], frame_counter);
            &&& l.inventory.double > 0 ==> a.inventory == PowerupInventory { double: (l.inventory.double - 1) as u8, ..l.inventory }
                && a.upgrades == l.upgrades && a.shield == l.shield && a.lives == l.lives
                && a.currency == l.currency + 1 && o.sold
            &&& l.inventory.double == 0 && l.upgrades.bullet_count == 2 ==> a.inventory == l.inventory
                && a.upgrades.bullet_count == 1 && a.shield == l.shield && a.currency == l.currency + 1 && o.sold
        }),
        ({
            let (a, o) = spec_trade(l, seq![Action::SellTriple], frame_counter);
            &&& l.inventory.triple > 0 ==> a.inventory == PowerupInventory { triple: (l.inventory.triple - 1) as u8, ..l.inventory }
                && a.upgrades == l.upgrades && a.shield == l.shield && a.lives == l.lives
                && a.currency == l.currency + 1 && o.sold
            &&& l.inventory.triple == 0 && l.upgrades.bullet_count == 3 ==> a.inventory == l.inventory
                && a.upgrades.bullet_count == 2 && a.shield == l.shield && a.currency == l.currency + 1 && o.sold
        }),
        ({
            let (a, o) = spec_trade(l, seq![Action::SellShield], frame_counter);
            &&& l.inventory.shield > 0 ==> a.inventory == PowerupInventory { shield: (l.inventory.shield - 1) as u8, ..l.inventory }
                && a.upgrades == l.upgrades && a.shield == l.shield && a.lives == l.lives
                && a.currency == l.currency + 1 && o.sold
            &&& l.inventory.shield == 0 && (l.shield matches Some(sh) && sh.level == ShieldLevel::Full) ==> a.inventory
                == l.inventory && a.shield is None && a.upgrades == l.upgrades && a.currency == l.currency + 1 && o.sold
            &&& l.inventory.shield == 0 && !(l.shield matches Some(sh) && sh.level == ShieldLevel::Full) ==> a == l
                && !o.sold
        }),
{
    lemma_single_action(Action::SellRate);
    lemma_single_action(Action::SellSpeed);
    lemma_single_action(Action::SellDouble);
    lemma_single_action(Action::SellTriple);
    lemma_single_action(Action::SellShield);
}

/// A powerup whose upgrade is already at its maximum is not lost: it goes
/// into the surplus inventory of its own kind (which saturates at 255),
/// and the upgrades, every other inventory count, the lives and the shield
/// stay as they were.
pub proof fn law_maxed_powerup_goes_to_inventory(
    kind: PowerupKind,
    u: PlayerUpgrades,
    inv: PowerupInventory,
    lives: u32,
    shield: Option<Shield>,
    frame_counter: u64,
)
    ensures
        ({
            let (u2, inv2, lives2, shield2, c) = spec_apply_powerup(kind, u, inv, lives, shield, frame_counter);
            let one_more = |n: u8| if n < 255 { (n + 1) as u8 } else { 255u8 };
            &&& kind == PowerupKind::Rate && u.fire_rate_stacks >= 2 ==> inv2 == PowerupInventory { rate: one_more(inv.rate), ..inv }
                && u2 == u && lives2 == lives && shield2 == shield && c == MultiplierChange::Unchanged
            &&& kind == PowerupKind::Speed && u.speed_stacks >= 2 ==> inv2 == PowerupInventory { speed: one_more(inv.speed), ..inv }
                && u2 == u && lives2 == lives && shield2 == shield && c == MultiplierChange::Unchanged
            &&& kind == PowerupKind::Double && u.bullet_count >= 2 ==> inv2 == PowerupInventory { double: one_more(inv.double), ..inv }
                && u2 == u && lives2 == lives && shield2 == shield
            &&& kind == PowerupKind::Triple && u.bullet_count >= 3 ==> inv2 == PowerupInventory { triple: one_more(inv.triple), ..inv }
                && u2 == u && lives2 == lives && shield2 == shield
            &&& kind == PowerupKind::Shield && shield is Some ==> inv2 == PowerupInventory { shield: one_more(inv.shield), ..inv }
                && u2 == u && lives2 == lives && shield2 == shield
        }),
{
}

/// A powerup that can apply goes to its upgrade and leaves the inventory
/// alone: a life adds one life, a rate or speed powerup adds a stack, double
/// and triple raise the bullet count to 2 and 3, and a shield gives a full
/// shield when there is none.
pub proof fn law_applicable_powerup_applies(
    kind: PowerupKind,
    u: PlayerUpgrades,
    inv: PowerupInventory,
    lives: u32,
    shield: Option<Shield>,
    frame_counter: u64,
)
    requires
        lives < u32::MAX,
    ensures
        ({
            let (u2, inv2, lives2, shield2, c) = spec_apply_powerup(kind, u, inv, lives, shield, frame_counter);
            &&& kind == PowerupKind::Life ==> lives2 == lives + 1 && u2 == u && inv2 == inv && shield2 == shield
            &&& kind == PowerupKind::Rate && u.fire_rate_stacks < 2 ==> u2.fire_rate_stacks == u.fire_rate_stacks + 1
                && u2.speed_stacks == u.speed_stacks && u2.bullet_count == u.bullet_count && inv2 == inv
                && c == MultiplierChange::FireRateUp
            &&& kind == PowerupKind::Speed && u.speed_stacks < 2 ==> u2.speed_stacks == u.speed_stacks + 1
                && u2.fire_rate_stacks == u.fire_rate_stacks && u2.bullet_count == u.bullet_count && inv2 == inv
                && c == MultiplierChange::SpeedUp
            &&& kind == PowerupKind::Double && u.bullet_count < 2 ==> u2.bullet_count == 2 && inv2 == inv
            &&& kind == PowerupKind::Triple && u.bullet_count < 3 ==> u2.bullet_count == 3 && inv2 == inv
            &&& kind == PowerupKind::Shield && shield is None ==> shield2 == Some(Shield { level: ShieldLevel::Full, phase: frame_counter })
                && inv2 == inv && u2 == u
        }),
{
}

/// A buy of one kind, when still possible and paid for, delivers exactly
/// that kind at its price (1 for rate, speed and double, 2 for triple and
/// shield) and changes nothing else; when it is no longer possible, or the
/// currency does not cover it, nothing changes.
pub proof fn law_buy_delivers_what_is_paid_for(l: Ledger, frame_counter: u64)
    ensures
        ({
            let (a, o) = spec_trade(l, seq![Action::BuyRate], frame_counter);
            &&& l.upgrades.fire_rate_stacks < 2 && l.currency >= 1 ==> a == (Ledger {
                currency: (l.currency - 1) as u32,
                upgrades: PlayerUpgrades { fire_rate_stacks: (l.upgrades.fire_rate_stacks + 1) as u8, ..l.upgrades },
                ..l
            }) && o.bought && o.buy_change == MultiplierChange::FireRateUp
            &&& (l.upgrades.fire_rate_stacks >= 2 || l.currency < 1) ==> a == l && !o.bought
        }),
        ({
            let (a, o) = spec_trade(l, seq![Action::BuySpeed], frame_counter);
            &&& l.upgrades.speed_stacks < 2 && l.currency >= 1 ==> a == (Ledger {
                currency: (l.currency - 1) as u32,
                upgrades: PlayerUpgrades { speed_stacks: (l.upgrades.speed_stacks + 1) as u8, ..l.upgrades },
                ..l
            }) && o.bought && o.buy_change == MultiplierChange::SpeedUp
            &&& (l.upgrades.speed_stacks >= 2 || l.currency < 1) ==> a == l && !o.bought
        }),
        ({
            let (a, o) = spec_trade(l, seq![Action::BuyDouble], frame_counter);
            &&& l.upgrades.bullet_count < 2 && l.currency >= 1 ==> a == (Ledger {
                currency: (l.currency - 1) as u32,
                upgrades: PlayerUpgrades { bullet_count: 2, ..l.upgrades },
                ..l
            }) && o.bought
            &&& (l.upgrades.bullet_count >= 2 || l.currency < 1) ==> a == l && !o.bought
        }),
        ({
            let (a, o) = spec_trade(l, seq![Action::BuyTriple], frame_counter);
            &&& l.upgrades.bullet_count < 3 && l.currency >= 2 ==> a == (Ledger {
                currency: (l.currency - 2) as u32,
                upgrades: PlayerUpgrades { bullet_count: 3, ..l.upgrades },
                ..l
            }) && o.bought
            &&& (l.upgrades.bullet_count >= 3 || l.currency < 2) ==> a == l && !o.bought
        }),
        ({
            let (a, o) = spec_trade(l, seq![Action::BuyShield], frame_counter);
            &&& l.shield is None && l.currency >= 2 ==> a == (Ledger {
                currency: (l.currency - 2) as u32,
                shield: Some(Shield { level: ShieldLevel::Full, phase: frame_counter }),
                ..l
            }) && o.bought
            &&& (l.shield is Some || l.currency < 2) ==> a == l && !o.bought
        }),
{
    lemma_single_action(Action::BuyRate);
    lemma_single_action(Action::BuySpeed);
    lemma_single_action(Action::BuyDouble);
    lemma_single_action(Action::BuyTriple);
    lemma_single_action(Action::BuyShield);
}

} // verus!
