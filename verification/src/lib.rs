//! Core update logic of a 2D arcade shooter: playable-area geometry,
//! velocity resolution from directional input, fire-cooldown gating,
//! the entry/active phase machine, collision resolution and the
//! side-effect dispatcher that applies the resolved commands.
//!
//! One [`AppGamePlugin::update`] call is one fixed-step tick: only the
//! routines registered for the current phase run, every side effect is
//! deferred into a command queue, and the dispatcher applies the whole
//! queue after the tick's resolution pass completes.

pub mod collision;
pub mod geometry;
pub mod ready;
pub mod server_message;
pub mod spaceship;
pub mod world;

use vstd::prelude::*;
use crate::collision::{CollidedEvent, collisions_commands_spec};
use crate::ready::{Phase, entry_tick_spec, ReadyPlugin};
use crate::spaceship::{active_actor_spec, ShootBulletEvent, SpaceshipPlugin};
use crate::world::{apply_all_spec, apply_command_spec, Command, World, WorldModel};
use crate::collision::CollisionPlugin;

verus! {

/// Addition clamped to the representable range, used for position
/// integration so that a tick never wraps a coordinate around.
pub open spec fn sat_add_spec(a: int, b: int) -> int {
    if a + b > i32::MAX as int {
        i32::MAX as int
    } else if a + b < i32::MIN as int {
        i32::MIN as int
    } else {
        a + b
    }
}

pub fn sat_add(a: i32, b: i32) -> (sum: i32)
    ensures
        sum as int == sat_add_spec(a as int, b as int),
{
    if b >= 0 {
        if a > i32::MAX - b {
            i32::MAX
        } else {
            a + b
        }
    } else {
        if a < i32::MIN - b {
            i32::MIN
        } else {
            a + b
        }
    }
}

/// Snapshot of the external inputs of one tick: the asserted directional and
/// fire flags, the alternate control mode, elapsed time, the viewport
/// dimensions re-read this tick, and the reported contact batch.
pub struct TickInput {
    pub up: bool,
    pub down: bool,
    pub left: bool,
    pub right: bool,
    pub fire: bool,
    pub hover_mode: bool,
    pub delta_ms: u64,
    pub viewport_w: i32,
    pub viewport_h: i32,
    pub contacts: Vec<CollidedEvent>,
}

/// The whole tick as a function of the previous world and the input
/// snapshot: with no actor present the tick's work is skipped; in the entry
/// phase only the entry routines run; in the active phase the actor update
/// resolves first, then the contact batch, and the dispatcher applies the
/// queued commands last.
pub open spec fn tick_spec(w: WorldModel, input: TickInput)
    -> (WorldModel, Option<ShootBulletEvent>) {
    match w.actor {
        None => (w, None),
        Some(actor) => match w.phase {
            Phase::Entry => (
                entry_tick_spec(w, input.viewport_w as int, input.viewport_h as int),
                None,
            ),
            Phase::Active => {
                let resolved = active_actor_spec(actor, input);
                let moved = WorldModel { actor: Some(resolved.0), ..w };
                let commands = collisions_commands_spec(w.registry, input.contacts@);
                (apply_all_spec(moved, commands), resolved.1)
            },
        },
    }
}

/// The composition of the phase-gated update routines.
pub struct AppGamePlugin;

impl AppGamePlugin {
    /// Runs one fixed-step tick over the authoritative world state and
    /// returns the projectile-spawn command of the tick, if any.
    pub fn update(world: &mut World, input: &TickInput) -> (shot: Option<ShootBulletEvent>)
        ensures
            (final(world)@, shot) == tick_spec(old(world)@, *input),
    {
        match world.actor {
            None => None,
            Some(actor) => {
                match world.phase {
                    Phase::Entry => {
                        ReadyPlugin::update(world, input.viewport_w, input.viewport_h);
                        None
                    },
                    Phase::Active => {
                        let mut resolved = actor;
                        let shot = SpaceshipPlugin::update(&mut resolved, input);
                        world.actor = Some(resolved);
                        CollisionPlugin::update(world, &input.contacts);
                        shot
                    },
                }
            },
        }
    }
}

/// Once the match is active it stays active: no tick fires the entry
/// transition a second time, whatever the inputs.
pub proof fn lemma_transition_fires_once(w: WorldModel, input: TickInput)
    requires
        w.phase == Phase::Active,
    ensures
        tick_spec(w, input).0.phase == Phase::Active,
{
    match w.actor {
        None => {},
        Some(actor) => {
            let resolved = active_actor_spec(actor, input);
            let moved = WorldModel { actor: Some(resolved.0), ..w };
            let commands = collisions_commands_spec(w.registry, input.contacts@);
            lemma_apply_all_preserves_phase(moved, commands);
        },
    }
}

/// The dispatcher never changes the phase: commands touch entities, players
/// and effects only.
pub proof fn lemma_apply_all_preserves_phase(w: WorldModel, commands: Seq<Command>)
    ensures
        apply_all_spec(w, commands).phase == w.phase,
    decreases commands.len(),
{
    if commands.len() > 0 {
        lemma_apply_all_preserves_phase(apply_command_spec(w, commands[0]), commands.drop_first());
    }
}

/// An entry-phase tick whose drift carries the actor to or past the
/// threshold moves the match to the active phase and zeroes the inherited
/// vertical entry velocity; one short of the threshold it does neither.
pub proof fn lemma_entry_transition(w: WorldModel, input: TickInput)
    requires
        w.phase == Phase::Entry,
        w.actor is Some,
    ensures
        ({
            let actor = w.actor.unwrap();
            let y2 = sat_add_spec(actor.y as int, actor.velocity.y as int);
            let next = tick_spec(w, input).0;
            if y2 >= crate::ready::entry_threshold_spec(
                input.viewport_w as int, input.viewport_h as int) {
                next.phase == Phase::Active && next.actor.unwrap().velocity.y == 0
            } else {
                next.phase == Phase::Entry && next.actor.unwrap().velocity == actor.velocity
            }
        }),
{
}

} // verus!
