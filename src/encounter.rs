//! The encounter: two combatants, four phases, and the per-tick rules that
//! move between them.

use vstd::prelude::*;

use crate::timer::Timer;

verus! {

/// Length of the enemy's attack phase, in microseconds.
pub const ATTACK_DURATION: u64 = 400_000;

/// A parry lands only while less than this much of the attack phase has
/// elapsed. The attack phase itself ends at `ATTACK_DURATION`, which is
/// shorter, so in practice the phase timing out is what closes the window;
/// both durations are kept as they are, and kept distinct.
pub const PARRY_WINDOW: u64 = 500_000;

/// Shortest telegraph phase, in microseconds.
pub const TELEGRAPH_MIN: u64 = 500_000;

/// Longest telegraph phase, in microseconds.
pub const TELEGRAPH_MAX: u64 = 1_500_000;

/// Target of the phase timer when an encounter starts.
pub const START_TIMER: u64 = 1_000_000;

/// Health the player starts with.
pub const PLAYER_HEALTH: i32 = 3;

/// Health the enemy starts with.
pub const ENEMY_HEALTH: i32 = 5;

/// The phase the encounter is in. Exactly one is active at a time.
#[derive(Clone, Copy, Debug, PartialEq, Eq, Structural)]
pub enum EncounterState {
    PlayerTurn,
    EnemyTelegraph,
    EnemyAttack,
    GameOver,
}

/// How the encounter ended.
#[derive(Clone, Copy, Debug, PartialEq, Eq, Structural)]
pub enum Outcome {
    Lose,
    Win,
}

/// The transient notice shown during the enemy's turn.
#[derive(Clone, Copy, Debug, PartialEq, Eq, Structural)]
pub enum CombatMessage {
    Preparing,
    ParryNow,
}

/// Hit points of one combatant. Health is not clamped and may go negative;
/// `max_health` is only a reference for display.
#[derive(Clone, Copy, Debug, PartialEq, Eq, Structural)]
pub struct Combatant {
    pub health: i32,
    pub max_health: i32,
}

/// The player's edge-triggered actions during one tick.
#[derive(Clone, Copy, Debug, PartialEq, Eq, Structural)]
pub struct Actions {
    pub attack: bool,
    pub parry: bool,
}

/// All state of one encounter.
#[derive(Clone, Copy, Debug, PartialEq, Eq)]
pub struct Encounter {
    pub state: EncounterState,
    pub player: Combatant,
    pub enemy: Combatant,
    pub timer: Timer,
    pub outcome: Option<Outcome>,
}

impl Outcome {
    /// The terminal message declared for this outcome.
    pub fn text(&self) -> (r: &'static str)
        ensures
            *self == Outcome::Lose ==> r@ == "YOU LOSE"@,
            *self == Outcome::Win ==> r@ == "YOU WIN"@,
    {
        match self {
            Outcome::Lose => "YOU LOSE",
            Outcome::Win => "YOU WIN",
        }
    }
}

impl CombatMessage {
    /// The notice's text.
    pub fn text(&self) -> (r: &'static str)
        ensures
            *self == CombatMessage::Preparing ==> r@ == "Enemy is preparing to attack..."@,
            *self == CombatMessage::ParryNow ==> r@ == "PARRY NOW!"@,
    {
        match self {
            CombatMessage::Preparing => "Enemy is preparing to attack...",
            CombatMessage::ParryNow => "PARRY NOW!",
        }
    }
}

impl Combatant {
    /// A combatant at full health.
    pub open spec fn new_spec(max_health: i32) -> Combatant {
        Combatant { health: max_health, max_health }
    }

    /// A combatant at full health.
    pub fn new(max_health: i32) -> (r: Combatant)
        ensures
            r == Combatant::new_spec(max_health),
    {
        Combatant { health: max_health, max_health }
    }

    /// Current hit points.
    pub fn health(&self) -> (r: i32)
        ensures
            r == self.health,
    {
        self.health
    }

    /// Hit points at the start of the encounter.
    pub fn max_health(&self) -> (r: i32)
        ensures
            r == self.max_health,
    {
        self.max_health
    }

    /// The same combatant with one hit point less.
    pub open spec fn hit(self) -> Combatant {
        Combatant { health: (self.health - 1) as i32, ..self }
    }
}

/// Relies on rand::random_range: a value drawn from the closed range
/// `lo..=hi` by the thread-local generator. It panics only on an empty range.
#[verifier::external_body]
fn random_between(lo: u64, hi: u64) -> (r: u64)
    requires
        lo <= hi,
    ensures
        lo <= r <= hi,
{
    rand::random_range(lo..=hi)
}

/// Draws the length of the next telegraph phase, uniformly from
/// `TELEGRAPH_MIN..=TELEGRAPH_MAX`.
pub fn next_telegraph_duration() -> (r: u64)
    ensures
        TELEGRAPH_MIN <= r <= TELEGRAPH_MAX,
{
    random_between(TELEGRAPH_MIN, TELEGRAPH_MAX)
}

impl Encounter {
    /// The invariant every reachable encounter keeps: a non-terminal
    /// encounter has both combatants alive and no outcome; the telegraph and
    /// attack phases have time left on their timer; a finished encounter
    /// has an outcome.
    pub open spec fn wf(self) -> bool {
        &&& self.timer.wf()
        &&& (self.state == EncounterState::EnemyTelegraph || self.state
            == EncounterState::EnemyAttack) ==> !self.timer.is_finished()
        &&& self.state != EncounterState::GameOver ==> {
            &&& self.player.health > 0
            &&& self.enemy.health > 0
            &&& self.outcome.is_none()
        }
        &&& self.state == EncounterState::GameOver ==> self.outcome.is_some()
    }

    /// The player's turn: an attack costs the enemy one hit point and opens
    /// a telegraph phase of length `telegraph`; otherwise nothing happens.
    pub open spec fn after_player_turn(self, attack: bool, telegraph: u64) -> Encounter {
        if attack {
            Encounter {
                state: EncounterState::EnemyTelegraph,
                enemy: self.enemy.hit(),
                timer: Timer { elapsed: 0, target: telegraph },
                ..self
            }
        } else {
            self
        }
    }

    /// The telegraph phase: time passes; once the timer finishes, the attack
    /// phase begins with a fresh timer.
    pub open spec fn after_enemy_telegraph(self, delta: u64) -> Encounter {
        if self.timer.advanced(delta).is_finished() {
            Encounter {
                state: EncounterState::EnemyAttack,
                timer: Timer { elapsed: 0, target: ATTACK_DURATION },
                ..self
            }
        } else {
            Encounter { timer: self.timer.advanced(delta), ..self }
        }
    }

    /// In the attack phase, a parry this tick lands in time.
    pub open spec fn parried(self, delta: u64, parry: bool) -> bool {
        parry && self.timer.advanced(delta).elapsed < PARRY_WINDOW
    }

    /// In the attack phase, the attack lands this tick: the phase timed out
    /// and no parry landed first.
    pub open spec fn timed_out(self, delta: u64, parry: bool) -> bool {
        !self.parried(delta, parry) && self.timer.advanced(delta).is_finished()
    }

    /// The attack phase: time passes; a parry in time returns the turn to the
    /// player unharmed, else a timeout costs the player one hit point and
    /// returns the turn.
    pub open spec fn after_enemy_attack(self, delta: u64, parry: bool) -> Encounter {
        if self.parried(delta, parry) {
            Encounter {
                state: EncounterState::PlayerTurn,
                timer: self.timer.advanced(delta),
                ..self
            }
        } else if self.timed_out(delta, parry) {
            Encounter {
                state: EncounterState::PlayerTurn,
                player: self.player.hit(),
                timer: self.timer.advanced(delta),
                ..self
            }
        } else {
            Encounter { timer: self.timer.advanced(delta), ..self }
        }
    }

    /// The active phase's rule for one tick. The finished encounter stays
    /// as it is.
    pub open spec fn after_phase(self, actions: Actions, delta: u64, telegraph: u64) -> Encounter {
        match self.state {
            EncounterState::PlayerTurn => self.after_player_turn(actions.attack, telegraph),
            EncounterState::EnemyTelegraph => self.after_enemy_telegraph(delta),
            EncounterState::EnemyAttack => self.after_enemy_attack(delta, actions.parry),
            EncounterState::GameOver => self,
        }
    }

    /// The outcome check: an encounter not yet over ends in a loss when the
    /// player has no health left, else in a win when the enemy has none.
    pub open spec fn after_end_check(self) -> Encounter {
        if self.state == EncounterState::GameOver {
            self
        } else if self.player.health <= 0 {
            Encounter { state: EncounterState::GameOver, outcome: Some(Outcome::Lose), ..self }
        } else if self.enemy.health <= 0 {
            Encounter { state: EncounterState::GameOver, outcome: Some(Outcome::Win), ..self }
        } else {
            self
        }
    }

    /// One whole tick: the active phase's rule, then the outcome check.
    /// `telegraph` is the telegraph length drawn in case the player attacks.
    pub open spec fn stepped(self, actions: Actions, delta: u64, telegraph: u64) -> Encounter {
        self.after_phase(actions, delta, telegraph).after_end_check()
    }

    /// A new encounter: the player's turn, player at full health
    /// `PLAYER_HEALTH`, enemy at full health `ENEMY_HEALTH`.
    pub fn new() -> (r: Encounter)
        ensures
            r.wf(),
            r.state == EncounterState::PlayerTurn,
            r.player == Combatant::new_spec(PLAYER_HEALTH),
            r.enemy == Combatant::new_spec(ENEMY_HEALTH),
            r.timer == (Timer { elapsed: 0, target: START_TIMER }),
            r.outcome.is_none(),
    {
        Encounter::with_health(PLAYER_HEALTH, ENEMY_HEALTH)
    }

    /// A new encounter with the given full health for each side.
    pub fn with_health(player_health: i32, enemy_health: i32) -> (r: Encounter)
        requires
            player_health > 0,
            enemy_health > 0,
        ensures
            r.wf(),
            r.state == EncounterState::PlayerTurn,
            r.player == Combatant::new_spec(player_health),
            r.enemy == Combatant::new_spec(enemy_health),
            r.timer == (Timer { elapsed: 0, target: START_TIMER }),
            r.outcome.is_none(),
    {
        Encounter {
            state: EncounterState::PlayerTurn,
            player: Combatant::new(player_health),
            enemy: Combatant::new(enemy_health),
            timer: Timer::new(START_TIMER),
            outcome: None,
        }
    }

    /// The player's turn for one tick.
    pub fn player_turn(&mut self, attack: bool, telegraph: u64)
        requires
            old(self).state == EncounterState::PlayerTurn,
            old(self).enemy.health > i32::MIN,
        ensures
            *final(self) == old(self).after_player_turn(attack, telegraph),
    {
        if attack {
            self.enemy.health = self.enemy.health - 1;
            self.state = EncounterState::EnemyTelegraph;
            self.timer.reset(telegraph);
        }
    }

    /// The telegraph phase for one tick.
    pub fn enemy_telegraph(&mut self, delta: u64)
        requires
            old(self).timer.wf(),
            old(self).state == EncounterState::EnemyTelegraph,
        ensures
            *final(self) == old(self).after_enemy_telegraph(delta),
    {
        self.timer.tick(delta);
        if self.timer.finished() {
            self.state = EncounterState::EnemyAttack;
            self.timer.reset(ATTACK_DURATION);
        }
    }

    /// The attack phase for one tick.
    pub fn enemy_attack(&mut self, delta: u64, parry: bool)
        requires
            old(self).timer.wf(),
            old(self).state == EncounterState::EnemyAttack,
            old(self).player.health > i32::MIN,
        ensures
            *final(self) == old(self).after_enemy_attack(delta, parry),
    {
        self.timer.tick(delta);
        if self.timer.elapsed() < PARRY_WINDOW && parry {
            self.state = EncounterState::PlayerTurn;
        } else if self.timer.finished() {
            self.player.health = self.player.health - 1;
            self.state = EncounterState::PlayerTurn;
        }
    }

    /// Declares the outcome once a combatant has no health left; the
    /// player's loss is checked first. A finished encounter is left alone.
    pub fn check_end_conditions(&mut self)
        ensures
            *final(self) == old(self).after_end_check(),
    {
        if self.state != EncounterState::GameOver {
            if self.player.health <= 0 {
                self.state = EncounterState::GameOver;
                self.outcome = Some(Outcome::Lose);
            } else if self.enemy.health <= 0 {
                self.state = EncounterState::GameOver;
                self.outcome = Some(Outcome::Win);
            }
        }
    }

    /// One tick with a given telegraph length: the active phase's rule, then
    /// the outcome check. `telegraph` is used only if the player attacks.
    pub fn step(&mut self, actions: Actions, delta: u64, telegraph: u64)
        requires
            old(self).wf(),
            TELEGRAPH_MIN <= telegraph <= TELEGRAPH_MAX,
        ensures
            final(self).wf(),
            *final(self) == old(self).stepped(actions, delta, telegraph),
            old(self).state == EncounterState::GameOver ==> *final(self) == *old(self),
    {
        match self.state {
            EncounterState::PlayerTurn => self.player_turn(actions.attack, telegraph),
            EncounterState::EnemyTelegraph => self.enemy_telegraph(delta),
            EncounterState::EnemyAttack => self.enemy_attack(delta, actions.parry),
            EncounterState::GameOver => {},
        }
        self.check_end_conditions();
    }

    /// One tick: the active phase's rule, then the outcome check. A
    /// telegraph length is drawn at random when the player attacks.
    pub fn tick(&mut self, actions: Actions, delta: u64)
        requires
            old(self).wf(),
        ensures
            final(self).wf(),
            exists|telegraph: u64|
                TELEGRAPH_MIN <= telegraph <= TELEGRAPH_MAX && *final(self) == old(
                    self,
                ).stepped(actions, delta, telegraph),
            old(self).state == EncounterState::GameOver ==> *final(self) == *old(self),
    {
        let telegraph = if self.state == EncounterState::PlayerTurn && actions.attack {
            next_telegraph_duration()
        } else {
            TELEGRAPH_MIN
        };
        self.step(actions, delta, telegraph);
    }

    /// The phase the encounter is in.
    pub fn state(&self) -> (r: EncounterState)
        ensures
            r == self.state,
    {
        self.state
    }

    /// The player's hit points.
    pub fn player(&self) -> (r: Combatant)
        ensures
            r == self.player,
    {
        self.player
    }

    /// The enemy's hit points.
    pub fn enemy(&self) -> (r: Combatant)
        ensures
            r == self.enemy,
    {
        self.enemy
    }

    /// The phase timer.
    pub fn timer(&self) -> (r: Timer)
        ensures
            r == self.timer,
    {
        self.timer
    }

    /// How the encounter ended, once it has.
    pub fn outcome(&self) -> (r: Option<Outcome>)
        ensures
            r == self.outcome,
    {
        self.outcome
    }

    /// The notice to show in the current phase: the telegraph warns that the
    /// enemy is preparing, the attack phase calls for a parry.
    pub fn combat_message(&self) -> (r: Option<CombatMessage>)
        ensures
            self.state == EncounterState::EnemyTelegraph ==> r == Some(CombatMessage::Preparing),
            self.state == EncounterState::EnemyAttack ==> r == Some(CombatMessage::ParryNow),
            (self.state == EncounterState::PlayerTurn || self.state == EncounterState::GameOver)
                ==> r.is_none(),
    {
        match self.state {
            EncounterState::EnemyTelegraph => Some(CombatMessage::Preparing),
            EncounterState::EnemyAttack => Some(CombatMessage::ParryNow),
            _ => None,
        }
    }
}

} // verus!
