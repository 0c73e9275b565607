//! The entry/active phase machine and match setup.
//!
//! A match begins in the entry phase: the actor spawns at a fixed off-screen
//! position below the viewport and drifts upward under a constant entry
//! velocity. Once its vertical position crosses the threshold computed from
//! the playable-area geometry, the inherited entry velocity is zeroed and the
//! match transitions to the active phase, exactly once.

use vstd::prelude::*;
use crate::{sat_add, sat_add_spec};
use crate::geometry::{bottom_edge_spec, bottom_out_edge_spec, get_bottom_edge,
    get_bottom_out_edge, get_spaceship_size, spaceship_size_spec};
use crate::spaceship::{Spaceship, Velocity};
use crate::world::{ControlledActor, EntityKind, EntityRecord, PlayerRecord, World, WorldModel};

verus! {

/// Coarse match state gating which update routines run each tick.
#[derive(Clone, Copy, Debug, PartialEq, Eq, Structural)]
pub enum Phase {
    /// Initial phase: the actor drifts in from below the viewport.
    Entry,
    /// Play phase: movement, firing and collision resolution run.
    Active,
}

/// Health a player record starts the match with.
pub const INITIAL_HEALTH: i32 = 3;

/// Upward speed of the actor during the entry phase.
pub const ENTRY_SPEED: i32 = 5;

/// The match-setup routine's player record: full health, zero score.
pub fn setup_score_and_health(owner: u8) -> (record: PlayerRecord)
    ensures
        record == (PlayerRecord { owner, health: INITIAL_HEALTH, score: 0 }),
{
    PlayerRecord { owner, health: INITIAL_HEALTH, score: 0 }
}

/// The actor as it spawns on phase entry: centered horizontally, fully below
/// the viewport, moving upward at the entry speed, ready to fire.
pub open spec fn spawn_spaceship_spec(handle: u64, owner: u8, viewport_w: int, viewport_h: int)
    -> ControlledActor {
    ControlledActor {
        handle,
        owner,
        x: 0,
        y: bottom_out_edge_spec(viewport_h, spaceship_size_spec(viewport_w)) as i32,
        velocity: Velocity { x: 0, y: ENTRY_SPEED },
        spaceship: Spaceship { bullet_cd: None },
    }
}

pub fn spawn_spaceship(handle: u64, owner: u8, viewport_w: i32, viewport_h: i32)
    -> (actor: ControlledActor)
    ensures
        actor == spawn_spaceship_spec(handle, owner, viewport_w as int, viewport_h as int),
{
    let size = get_spaceship_size(viewport_w);
    ControlledActor {
        handle,
        owner,
        x: 0,
        y: get_bottom_out_edge(viewport_h, size),
        velocity: Velocity { x: 0, y: ENTRY_SPEED },
        spaceship: Spaceship { bullet_cd: None },
    }
}

/// Vertical threshold whose crossing ends the entry phase: the bottom
/// boundary of the playable area.
pub open spec fn entry_threshold_spec(viewport_w: int, viewport_h: int) -> int {
    bottom_edge_spec(viewport_h, spaceship_size_spec(viewport_w))
}

/// The phase and velocity after one entry-phase position check: crossing the
/// threshold zeroes the inherited vertical entry velocity and moves the match
/// to the active phase; anywhere else, or in any other phase, nothing changes.
pub open spec fn check_spaceship_position_spec(
    phase: Phase,
    y: int,
    viewport_w: int,
    viewport_h: int,
    velocity: Velocity,
) -> (Phase, Velocity) {
    if phase == Phase::Entry && y >= entry_threshold_spec(viewport_w, viewport_h) {
        (Phase::Active, Velocity { x: velocity.x, y: 0 })
    } else {
        (phase, velocity)
    }
}

/// Entry-phase position check; the transition is idempotent-guarded by the
/// authoritative current phase, so it fires at most once per match.
pub fn check_spaceship_position(
    phase: Phase,
    y: i32,
    viewport_w: i32,
    viewport_h: i32,
    velocity: &mut Velocity,
) -> (next: Phase)
    ensures
        (next, *final(velocity)) == check_spaceship_position_spec(
            phase, y as int, viewport_w as int, viewport_h as int, *old(velocity)),
{
    if phase == Phase::Entry {
        let threshold = get_bottom_edge(viewport_h, get_spaceship_size(viewport_w));
        if y >= threshold {
            velocity.y = 0;
            return Phase::Active;
        }
    }
    phase
}

/// The world as the match-setup routines leave it on entering the entry
/// phase: the freshly spawned actor, its ship registered under its handle,
/// one player record at full health and zero score, and nothing queued.
pub open spec fn initial_world_spec(handle: u64, owner: u8, viewport_w: int, viewport_h: int)
    -> WorldModel {
    WorldModel {
        phase: Phase::Entry,
        actor: Some(spawn_spaceship_spec(handle, owner, viewport_w, viewport_h)),
        registry: seq![
            EntityRecord { handle, kind: EntityKind::PlayerShip { owner, invulnerable: false } },
        ],
        players: seq![PlayerRecord { owner, health: INITIAL_HEALTH, score: 0 }],
        explosions: Seq::empty(),
    }
}

/// The world after one entry-phase tick: the actor drifts by its entry
/// velocity and the position check fires the transition if the threshold is
/// crossed. With no actor present the tick's entry work is skipped.
pub open spec fn entry_tick_spec(w: WorldModel, viewport_w: int, viewport_h: int) -> WorldModel {
    match w.actor {
        None => w,
        Some(actor) => {
            let x2 = sat_add_spec(actor.x as int, actor.velocity.x as int) as i32;
            let y2 = sat_add_spec(actor.y as int, actor.velocity.y as int) as i32;
            let checked = check_spaceship_position_spec(
                w.phase, y2 as int, viewport_w, viewport_h, actor.velocity);
            WorldModel {
                phase: checked.0,
                actor: Some(ControlledActor { x: x2, y: y2, velocity: checked.1, ..actor }),
                ..w
            }
        },
    }
}

/// The entry-phase systems: match setup on entry, drift and the position
/// check each tick.
pub struct ReadyPlugin;

impl ReadyPlugin {
    /// Builds the world the match starts with.
    pub fn on_enter(handle: u64, owner: u8, viewport_w: i32, viewport_h: i32) -> (world: World)
        ensures
            world@ == initial_world_spec(handle, owner, viewport_w as int, viewport_h as int),
    {
        let actor = spawn_spaceship(handle, owner, viewport_w, viewport_h);
        let mut registry: Vec<EntityRecord> = Vec::new();
        registry.push(EntityRecord {
            handle,
            kind: EntityKind::PlayerShip { owner, invulnerable: false },
        });
        let mut players: Vec<PlayerRecord> = Vec::new();
        players.push(setup_score_and_health(owner));
        let world = World {
            phase: Phase::Entry,
            actor: Some(actor),
            registry,
            players,
            explosions: Vec::new(),
        };
        assert(world@ =~= initial_world_spec(
            handle, owner, viewport_w as int, viewport_h as int));
        world
    }

    /// Runs one entry-phase tick over the world.
    pub fn update(world: &mut World, viewport_w: i32, viewport_h: i32)
        ensures
            final(world)@ == entry_tick_spec(old(world)@, viewport_w as int, viewport_h as int),
    {
        match world.actor {
            None => {},
            Some(actor) => {
                let x2 = sat_add(actor.x, actor.velocity.x);
                let y2 = sat_add(actor.y, actor.velocity.y);
                let mut velocity = actor.velocity;
                let phase = check_spaceship_position(
                    world.phase, y2, viewport_w, viewport_h, &mut velocity);
                world.phase = phase;
                world.actor = Some(ControlledActor { x: x2, y: y2, velocity, ..actor });
            },
        }
    }
}

} // verus!
