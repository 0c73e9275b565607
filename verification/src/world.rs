//! The per-match world state and the side-effect dispatcher.
//!
//! Resolvers never mutate shared state directly: they emit [`Command`]s, and
//! the dispatcher applies the full queued batch after the tick's resolution
//! pass completes. Entity removal is deferred-safe: a command aimed at a
//! handle that is already gone is a silent no-op.

use vstd::prelude::*;
use crate::ready::Phase;
use crate::spaceship::{Spaceship, Velocity};

verus! {

/// Role and role-specific data of a registered entity.
#[derive(Clone, Copy, Debug, PartialEq, Eq, Structural)]
pub enum EntityKind {
    /// The player-controlled ship; `invulnerable` marks temporary exemption
    /// from contact damage.
    PlayerShip { owner: u8, invulnerable: bool },
    /// A hostile saucer at its last known center position.
    Ufo { x: i32, y: i32 },
}

/// A registry entry: a stable opaque handle with the entity's role.
#[derive(Clone, Copy, Debug, PartialEq, Eq, Structural)]
pub struct EntityRecord {
    pub handle: u64,
    pub kind: EntityKind,
}

/// Per-player counters, keyed by the owner tag.
#[derive(Clone, Copy, Debug, PartialEq, Eq, Structural)]
pub struct PlayerRecord {
    pub owner: u8,
    pub health: i32,
    pub score: i32,
}

/// A queued explosion effect at the position where a hostile was destroyed.
#[derive(Clone, Copy, Debug, PartialEq, Eq, Structural)]
pub struct Explosion {
    pub x: i32,
    pub y: i32,
}

/// The one controlled actor of the match.
#[derive(Clone, Copy, Debug, PartialEq, Eq, Structural)]
pub struct ControlledActor {
    pub handle: u64,
    pub owner: u8,
    pub x: i32,
    pub y: i32,
    pub velocity: Velocity,
    pub spaceship: Spaceship,
}

/// A deferred side effect emitted by the collision resolver.
#[derive(Clone, Copy, Debug, PartialEq, Eq, Structural)]
pub enum Command {
    /// Decrement the health counter of every record with this owner tag.
    ReduceHealth { owner: u8 },
    /// Flag the player ship behind this handle as briefly damage-exempt.
    MarkInvulnerable { handle: u64 },
    /// Queue an explosion effect at this position.
    SpawnExplosion { x: i32, y: i32 },
    /// Delete the entity behind this handle; a stale handle is a no-op.
    RemoveEntity { handle: u64 },
}

/// The single authoritative state passed by reference into each tick.
pub struct World {
    pub phase: Phase,
    pub actor: Option<ControlledActor>,
    pub registry: Vec<EntityRecord>,
    pub players: Vec<PlayerRecord>,
    pub explosions: Vec<Explosion>,
}

/// Mathematical model of a [`World`].
#[verifier::ext_equal]
pub struct WorldModel {
    pub phase: Phase,
    pub actor: Option<ControlledActor>,
    pub registry: Seq<EntityRecord>,
    pub players: Seq<PlayerRecord>,
    pub explosions: Seq<Explosion>,
}

impl View for World {
    type V = WorldModel;

    open spec fn view(&self) -> WorldModel {
        WorldModel {
            phase: self.phase,
            actor: self.actor,
            registry: self.registry@,
            players: self.players@,
            explosions: self.explosions@,
        }
    }
}

/// One health decrement; the counter bottoms out at the representable
/// minimum rather than wrapping.
pub open spec fn reduce_health_record(r: PlayerRecord) -> PlayerRecord {
    if r.health == i32::MIN {
        r
    } else {
        PlayerRecord { health: (r.health - 1) as i32, ..r }
    }
}

/// Health reduction applied to every record carrying the owner tag.
pub open spec fn reduce_health_spec(players: Seq<PlayerRecord>, owner: u8) -> Seq<PlayerRecord> {
    players.map_values(
        |r: PlayerRecord| if r.owner == owner {
            reduce_health_record(r)
        } else {
            r
        },
    )
}

/// The invulnerability flag raised on a player ship, other roles unchanged.
pub open spec fn mark_invulnerable_kind(kind: EntityKind) -> EntityKind {
    match kind {
        EntityKind::PlayerShip { owner, invulnerable } => (EntityKind::PlayerShip {
            owner,
            invulnerable: true,
        }),
        other => other,
    }
}

/// Invulnerability marking applied to every registry entry with the handle.
pub open spec fn mark_invulnerable_spec(registry: Seq<EntityRecord>, handle: u64)
    -> Seq<EntityRecord> {
    registry.map_values(
        |e: EntityRecord| if e.handle == handle {
            EntityRecord { handle: e.handle, kind: mark_invulnerable_kind(e.kind) }
        } else {
            e
        },
    )
}

/// The registry with every entry carrying `handle` removed; removing an
/// absent handle leaves the registry as it is.
pub open spec fn remove_entity_spec(registry: Seq<EntityRecord>, handle: u64)
    -> Seq<EntityRecord>
    decreases registry.len(),
{
    if registry.len() == 0 {
        Seq::empty()
    } else {
        let rest = remove_entity_spec(registry.drop_last(), handle);
        if registry.last().handle == handle {
            rest
        } else {
            rest.push(registry.last())
        }
    }
}

/// The world after one command is applied.
pub open spec fn apply_command_spec(w: WorldModel, c: Command) -> WorldModel {
    match c {
        Command::ReduceHealth { owner } => (WorldModel {
            players: reduce_health_spec(w.players, owner),
            ..w
        }),
        Command::MarkInvulnerable { handle } => (WorldModel {
            registry: mark_invulnerable_spec(w.registry, handle),
            ..w
        }),
        Command::SpawnExplosion { x, y } => (WorldModel {
            explosions: w.explosions.push(Explosion { x, y }),
            ..w
        }),
        Command::RemoveEntity { handle } => (WorldModel {
            registry: remove_entity_spec(w.registry, handle),
            ..w
        }),
    }
}

/// The world after a whole command batch is applied, front to back.
pub open spec fn apply_all_spec(w: WorldModel, commands: Seq<Command>) -> WorldModel
    decreases commands.len(),
{
    if commands.len() == 0 {
        w
    } else {
        apply_all_spec(apply_command_spec(w, commands[0]), commands.drop_first())
    }
}

/// Applies one deferred command to the world.
pub fn apply_command(world: &mut World, command: &Command)
    ensures
        final(world)@ == apply_command_spec(old(world)@, *command),
{
    match *command {
        Command::ReduceHealth { owner } => {
            let ghost orig = world.players@;
            let mut updated: Vec<PlayerRecord> = Vec::new();
            let mut i: usize = 0;
            while i < world.players.len()
                invariant
                    i <= world.players.len(),
                    world.players@ == orig,
                    updated.len() == i,
                    forall|j: int| 0 <= j < i ==> updated@[j] == (
                        if orig[j].owner == owner {
                            reduce_health_record(orig[j])
                        } else {
                            orig[j]
                        }),
                decreases world.players.len() - i,
            {
                let r = world.players[i];
                if r.owner == owner {
                    if r.health == i32::MIN {
                        updated.push(r);
                    } else {
                        updated.push(PlayerRecord { health: r.health - 1, ..r });
                    }
                } else {
                    updated.push(r);
                }
                i = i + 1;
            }
            world.players = updated;
            assert(world.players@ =~= reduce_health_spec(orig, owner));
        },
        Command::MarkInvulnerable { handle } => {
            let ghost orig = world.registry@;
            let mut updated: Vec<EntityRecord> = Vec::new();
            let mut i: usize = 0;
            while i < world.registry.len()
                invariant
                    i <= world.registry.len(),
                    world.registry@ == orig,
                    updated.len() == i,
                    forall|j: int| 0 <= j < i ==> updated@[j] == (
                        if orig[j].handle == handle {
                            EntityRecord {
                                handle: orig[j].handle,
                                kind: mark_invulnerable_kind(orig[j].kind),
                            }
                        } else {
                            orig[j]
                        }),
                decreases world.registry.len() - i,
            {
                let e = world.registry[i];
                if e.handle == handle {
                    let kind = match e.kind {
                        EntityKind::PlayerShip { owner, invulnerable: _ } => EntityKind::PlayerShip {
                            owner,
                            invulnerable: true,
                        },
                        other => other,
                    };
                    updated.push(EntityRecord { handle: e.handle, kind });
                } else {
                    updated.push(e);
                }
                i = i + 1;
            }
            world.registry = updated;
            assert(world.registry@ =~= mark_invulnerable_spec(orig, handle));
        },
        Command::SpawnExplosion { x, y } => {
            world.explosions.push(Explosion { x, y });
        },
        Command::RemoveEntity { handle } => {
            let ghost orig = world.registry@;
            let mut kept: Vec<EntityRecord> = Vec::new();
            let mut i: usize = 0;
            while i < world.registry.len()
                invariant
                    i <= world.registry.len(),
                    world.registry@ == orig,
                    kept@ == remove_entity_spec(orig.take(i as int), handle),
                decreases world.registry.len() - i,
            {
                let e = world.registry[i];
                assert(orig.take(i as int + 1).drop_last() =~= orig.take(i as int));
                assert(orig.take(i as int + 1).last() == orig[i as int]);
                if e.handle != handle {
                    kept.push(e);
                }
                i = i + 1;
            }
            assert(orig.take(orig.len() as int) =~= orig);
            world.registry = kept;
        },
    }
}

/// Applies the full queued batch of the tick, in queue order.
pub fn apply_commands(world: &mut World, commands: &Vec<Command>)
    ensures
        final(world)@ == apply_all_spec(old(world)@, commands@),
{
    let ghost start = world@;
    assert(commands@.skip(0) =~= commands@);
    let mut i: usize = 0;
    while i < commands.len()
        invariant
            i <= commands.len(),
            apply_all_spec(start, commands@) == apply_all_spec(world@, commands@.skip(i as int)),
        decreases commands.len() - i,
    {
        assert(commands@.skip(i as int)[0] == commands@[i as int]);
        assert(commands@.skip(i as int).drop_first() =~= commands@.skip(i as int + 1));
        apply_command(world, &commands[i]);
        i = i + 1;
    }
    assert(commands@.skip(commands@.len() as int) =~= Seq::<Command>::empty());
}

/// Removing the same handle twice has the effect of removing it once:
/// the second removal of an already absent handle is a no-op.
pub proof fn lemma_remove_entity_idempotent(registry: Seq<EntityRecord>, handle: u64)
    ensures
        remove_entity_spec(remove_entity_spec(registry, handle), handle)
            == remove_entity_spec(registry, handle),
    decreases registry.len(),
{
    if registry.len() == 0 {
    } else {
        let rest = registry.drop_last();
        lemma_remove_entity_idempotent(rest, handle);
        if registry.last().handle != handle {
            let inner = remove_entity_spec(rest, handle);
            assert(inner.push(registry.last()).drop_last() =~= inner);
            assert(inner.push(registry.last()).last() == registry.last());
        }
    }
}

/// A duplicate Remove-entity command in one batch leaves exactly one
/// removal's worth of effect on the world.
pub proof fn lemma_duplicate_removal_harmless(w: WorldModel, handle: u64)
    ensures
        apply_command_spec(
            apply_command_spec(w, Command::RemoveEntity { handle }),
            Command::RemoveEntity { handle },
        ) == apply_command_spec(w, Command::RemoveEntity { handle }),
{
    lemma_remove_entity_idempotent(w.registry, handle);
    assert(apply_command_spec(
        apply_command_spec(w, Command::RemoveEntity { handle }),
        Command::RemoveEntity { handle },
    ) =~= apply_command_spec(w, Command::RemoveEntity { handle }));
}

} // verus!
