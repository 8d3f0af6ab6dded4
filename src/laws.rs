//! Properties of the tick rule that hold over every encounter.

use vstd::prelude::*;

use crate::encounter::{Actions, Encounter, EncounterState};

verus! {

/// A finished encounter is terminal: whatever the actions, the time that
/// passes or the telegraph length, a tick leaves it exactly as it was.
pub proof fn game_over_is_terminal(e: Encounter, actions: Actions, delta: u64, telegraph: u64)
    requires
        e.state == EncounterState::GameOver,
    ensures
        e.stepped(actions, delta, telegraph) == e,
{
}

/// Every tick keeps the encounter's invariant, so one well-formed phase is
/// active after it as before it.
pub proof fn tick_keeps_invariant(e: Encounter, actions: Actions, delta: u64, telegraph: u64)
    requires
        e.wf(),
        crate::encounter::TELEGRAPH_MIN <= telegraph,
    ensures
        e.stepped(actions, delta, telegraph).wf(),
{
}

/// Health moves only when an attack resolves: the enemy loses exactly one
/// hit point when the player's turn passes to the telegraph, the player
/// loses exactly one when the attack phase times out without a parry, and
/// in every other tick both stay as they were. Maximum health never changes.
pub proof fn health_changes_only_on_hits(e: Encounter, actions: Actions, delta: u64, telegraph: u64)
    requires
        e.wf(),
    ensures
        ({
            let n = e.stepped(actions, delta, telegraph);
            let to_telegraph = e.state == EncounterState::PlayerTurn && e.after_phase(
                actions,
                delta,
                telegraph,
            ).state == EncounterState::EnemyTelegraph;
            let attack_lands = e.state == EncounterState::EnemyAttack && e.timed_out(
                delta,
                actions.parry,
            );
            &&& n.enemy.health == e.enemy.health - (if to_telegraph { 1int } else { 0int })
            &&& n.player.health == e.player.health - (if attack_lands { 1int } else { 0int })
            &&& n.enemy.max_health == e.enemy.max_health
            &&& n.player.max_health == e.player.max_health
        }),
{
}

/// A tick in which no time passes and the player does nothing changes
/// neither the phase, nor either combatant's health, nor whether the phase
/// timer has finished.
pub proof fn zero_delta_is_idle(e: Encounter, actions: Actions, telegraph: u64)
    requires
        e.wf(),
        !actions.attack,
        !actions.parry,
    ensures
        ({
            let n = e.stepped(actions, 0, telegraph);
            &&& n.state == e.state
            &&& n.player.health == e.player.health
            &&& n.enemy.health == e.enemy.health
            &&& n.timer.is_finished() == e.timer.is_finished()
        }),
{
}

} // verus!
