//! Collision resolution and side-effect dispatch, including end-to-end ticks.

use shooter_core::collision::{handle_collisions, CollidedEvent, CollisionPlugin};
use shooter_core::ready::Phase;
use shooter_core::spaceship::{Spaceship, Velocity};
use shooter_core::world::{
    apply_command, apply_commands, Command, ControlledActor, EntityKind, EntityRecord, Explosion,
    PlayerRecord, World,
};
use shooter_core::{AppGamePlugin, TickInput};

const PLAYER: u64 = 1;
const UFO_A: u64 = 20;
const UFO_B: u64 = 21;

fn registry() -> Vec<EntityRecord> {
    vec![
        EntityRecord { handle: PLAYER, kind: EntityKind::PlayerShip { owner: 1, invulnerable: false } },
        EntityRecord { handle: UFO_A, kind: EntityKind::Ufo { x: 50, y: 60 } },
        EntityRecord { handle: UFO_B, kind: EntityKind::Ufo { x: -70, y: 80 } },
    ]
}

fn active_world() -> World {
    World {
        phase: Phase::Active,
        actor: Some(ControlledActor {
            handle: PLAYER,
            owner: 1,
            x: 0,
            y: 0,
            velocity: Velocity { x: 0, y: 0 },
            spaceship: Spaceship { bullet_cd: None },
        }),
        registry: registry(),
        players: vec![PlayerRecord { owner: 1, health: 3, score: 0 }],
        explosions: Vec::new(),
    }
}

fn hit_set(owner: u8, player: u64, x: i32, y: i32, ufo: u64) -> Vec<Command> {
    vec![
        Command::ReduceHealth { owner },
        Command::MarkInvulnerable { handle: player },
        Command::SpawnExplosion { x, y },
        Command::RemoveEntity { handle: ufo },
    ]
}

#[test]
fn both_orderings_emit_independent_command_sets() {
    // one pair reported hostile-first, the other player-first
    let contacts = vec![
        CollidedEvent { entity1: UFO_A, entity2: PLAYER },
        CollidedEvent { entity1: PLAYER, entity2: UFO_B },
    ];
    let commands = handle_collisions(&contacts, &registry());
    let mut expected = hit_set(1, PLAYER, 50, 60, UFO_A);
    expected.extend(hit_set(1, PLAYER, -70, 80, UFO_B));
    assert_eq!(commands, expected);
}

#[test]
fn unrelated_pairs_emit_nothing() {
    let contacts = vec![
        CollidedEvent { entity1: UFO_A, entity2: UFO_B },
        CollidedEvent { entity1: UFO_B, entity2: 999 },
        CollidedEvent { entity1: 999, entity2: PLAYER },
        CollidedEvent { entity1: PLAYER, entity2: PLAYER },
    ];
    let commands = handle_collisions(&contacts, &registry());
    assert!(commands.is_empty());
}

#[test]
fn dispatcher_applies_one_hit_end_to_end() {
    let mut world = active_world();
    let contacts = vec![CollidedEvent { entity1: PLAYER, entity2: UFO_A }];
    let commands = handle_collisions(&contacts, &world.registry);
    apply_commands(&mut world, &commands);
    // health decremented by one
    assert_eq!(world.players, vec![PlayerRecord { owner: 1, health: 2, score: 0 }]);
    // hostile removed, player marked invulnerable
    assert_eq!(
        world.registry,
        vec![
            EntityRecord { handle: PLAYER, kind: EntityKind::PlayerShip { owner: 1, invulnerable: true } },
            EntityRecord { handle: UFO_B, kind: EntityKind::Ufo { x: -70, y: 80 } },
        ]
    );
    // one explosion queued at the hostile's last position
    assert_eq!(world.explosions, vec![Explosion { x: 50, y: 60 }]);
}

#[test]
fn duplicate_removal_is_a_silent_no_op() {
    let mut world = active_world();
    let batch = vec![
        Command::RemoveEntity { handle: UFO_A },
        Command::RemoveEntity { handle: UFO_A },
    ];
    apply_commands(&mut world, &batch);
    assert_eq!(
        world.registry,
        vec![
            EntityRecord { handle: PLAYER, kind: EntityKind::PlayerShip { owner: 1, invulnerable: false } },
            EntityRecord { handle: UFO_B, kind: EntityKind::Ufo { x: -70, y: 80 } },
        ]
    );
    // removing a handle that never existed is also a no-op
    apply_command(&mut world, &Command::RemoveEntity { handle: 12345 });
    assert_eq!(world.registry.len(), 2);
}

#[test]
fn duplicate_contact_pair_decrements_twice_but_removes_once() {
    // the same pair reported twice in one batch: two independent command
    // sets, but the second removal finds the handle already gone
    let mut world = active_world();
    let contacts = vec![
        CollidedEvent { entity1: PLAYER, entity2: UFO_A },
        CollidedEvent { entity1: UFO_A, entity2: PLAYER },
    ];
    CollisionPlugin::update(&mut world, &contacts);
    assert_eq!(world.players[0].health, 1);
    assert_eq!(world.registry.len(), 2);
    assert_eq!(world.explosions.len(), 2);
}

#[test]
fn batch_order_does_not_change_the_outcome() {
    let contacts_ab = vec![
        CollidedEvent { entity1: PLAYER, entity2: UFO_A },
        CollidedEvent { entity1: UFO_B, entity2: PLAYER },
    ];
    let contacts_ba = vec![
        CollidedEvent { entity1: UFO_B, entity2: PLAYER },
        CollidedEvent { entity1: PLAYER, entity2: UFO_A },
    ];
    let mut world_ab = active_world();
    let mut world_ba = active_world();
    CollisionPlugin::update(&mut world_ab, &contacts_ab);
    CollisionPlugin::update(&mut world_ba, &contacts_ba);
    assert_eq!(world_ab.players, world_ba.players);
    assert_eq!(world_ab.registry, world_ba.registry);
    let mut explosions_ab = world_ab.explosions.clone();
    let mut explosions_ba = world_ba.explosions.clone();
    explosions_ab.sort_by_key(|e| (e.x, e.y));
    explosions_ba.sort_by_key(|e| (e.x, e.y));
    assert_eq!(explosions_ab, explosions_ba);
}

#[test]
fn reduce_health_misses_other_owners() {
    let mut world = active_world();
    world.players.push(PlayerRecord { owner: 2, health: 3, score: 7 });
    apply_command(&mut world, &Command::ReduceHealth { owner: 2 });
    assert_eq!(
        world.players,
        vec![
            PlayerRecord { owner: 1, health: 3, score: 0 },
            PlayerRecord { owner: 2, health: 2, score: 7 },
        ]
    );
}

#[test]
fn stale_invulnerability_mark_is_a_no_op() {
    let mut world = active_world();
    let before = world.registry.clone();
    apply_command(&mut world, &Command::MarkInvulnerable { handle: 777 });
    assert_eq!(world.registry, before);
    // marking a hostile changes nothing either: only player ships carry it
    apply_command(&mut world, &Command::MarkInvulnerable { handle: UFO_A });
    assert_eq!(world.registry, before);
}

#[test]
fn missing_actor_skips_the_ticks_work() {
    let mut world = active_world();
    world.actor = None;
    let input = TickInput {
        up: true,
        down: false,
        left: false,
        right: false,
        fire: true,
        hover_mode: true,
        delta_ms: 16,
        viewport_w: 648,
        viewport_h: 800,
        contacts: vec![CollidedEvent { entity1: PLAYER, entity2: UFO_A }],
    };
    let shot = AppGamePlugin::update(&mut world, &input);
    // no crash, no spawn, and nothing in the world changed
    assert_eq!(shot, None);
    assert_eq!(world.phase, Phase::Active);
    assert_eq!(world.registry, registry());
    assert_eq!(world.players, vec![PlayerRecord { owner: 1, health: 3, score: 0 }]);
    assert!(world.explosions.is_empty());
}

#[test]
fn full_tick_resolves_contacts_after_movement_and_fire() {
    let mut world = active_world();
    let input = TickInput {
        up: false,
        down: false,
        left: false,
        right: false,
        fire: true,
        hover_mode: false,
        delta_ms: 16,
        viewport_w: 648,
        viewport_h: 800,
        contacts: vec![CollidedEvent { entity1: PLAYER, entity2: UFO_A }],
    };
    let shot = AppGamePlugin::update(&mut world, &input);
    // the actor was ready to fire: one spawn at its (unmoved) position
    assert_eq!(shot.map(|s| (s.x, s.y)), Some((0, 0)));
    let actor = world.actor.unwrap();
    assert_eq!(actor.spaceship.bullet_cd, Some(100));
    // the contact resolved into the full command set
    assert_eq!(world.players[0].health, 2);
    assert_eq!(world.explosions, vec![Explosion { x: 50, y: 60 }]);
    assert_eq!(world.registry.len(), 2);
    match world.registry[0].kind {
        EntityKind::PlayerShip { invulnerable, .. } => assert!(invulnerable),
        _ => panic!("player ship expected first in the registry"),
    }
}
