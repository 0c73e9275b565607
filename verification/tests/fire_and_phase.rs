//! Fire-cooldown gating and the entry-to-active phase transition.

use shooter_core::ready::{
    check_spaceship_position, setup_score_and_health, spawn_spaceship, Phase, ReadyPlugin,
    ENTRY_SPEED, INITIAL_HEALTH,
};
use shooter_core::spaceship::{
    handle_bullet_cooldown, handle_shoot_bullet, ShootBulletEvent, Spaceship, Velocity,
};
use shooter_core::{AppGamePlugin, TickInput};

fn quiet_input(vw: i32, vh: i32) -> TickInput {
    TickInput {
        up: false,
        down: false,
        left: false,
        right: false,
        fire: false,
        hover_mode: false,
        delta_ms: 16,
        viewport_w: vw,
        viewport_h: vh,
        contacts: Vec::new(),
    }
}

#[test]
fn fire_spawns_once_and_starts_cooldown() {
    let mut ship = Spaceship { bullet_cd: None };
    let shot = handle_shoot_bullet(true, false, 12, -34, &mut ship);
    assert_eq!(shot, Some(ShootBulletEvent { x: 12, y: -34 }));
    assert_eq!(ship.bullet_cd, Some(100));
    // holding fire during the cooldown produces nothing
    let shot = handle_shoot_bullet(true, false, 12, -34, &mut ship);
    assert_eq!(shot, None);
    assert_eq!(ship.bullet_cd, Some(100));
}

#[test]
fn hover_mode_asserts_fire_unconditionally() {
    let mut ship = Spaceship { bullet_cd: None };
    let shot = handle_shoot_bullet(false, true, 0, 0, &mut ship);
    assert_eq!(shot, Some(ShootBulletEvent { x: 0, y: 0 }));
    // no fire input at all: nothing spawns, nothing changes
    let mut ready = Spaceship { bullet_cd: None };
    assert_eq!(handle_shoot_bullet(false, false, 0, 0, &mut ready), None);
    assert_eq!(ready.bullet_cd, None);
}

#[test]
fn cooldown_elapses_over_repeated_ticks() {
    let mut ship = Spaceship { bullet_cd: Some(100) };
    handle_bullet_cooldown(&mut ship, 40);
    assert_eq!(ship.bullet_cd, Some(60));
    assert_eq!(handle_shoot_bullet(true, false, 1, 2, &mut ship), None);
    handle_bullet_cooldown(&mut ship, 40);
    assert_eq!(ship.bullet_cd, Some(20));
    // the tick that reaches the duration clears the timer
    handle_bullet_cooldown(&mut ship, 20);
    assert_eq!(ship.bullet_cd, None);
    // the next eligible tick fires exactly once and restarts the cooldown
    let shot = handle_shoot_bullet(true, false, 1, 2, &mut ship);
    assert_eq!(shot, Some(ShootBulletEvent { x: 1, y: 2 }));
    assert_eq!(ship.bullet_cd, Some(100));
}

#[test]
fn cooldown_without_timer_is_a_no_op() {
    let mut ship = Spaceship { bullet_cd: None };
    handle_bullet_cooldown(&mut ship, 1000);
    assert_eq!(ship.bullet_cd, None);
}

#[test]
fn match_setup_initializes_health_and_score() {
    let record = setup_score_and_health(1);
    assert_eq!(record.owner, 1);
    assert_eq!(record.health, INITIAL_HEALTH);
    assert_eq!(record.score, 0);
}

#[test]
fn spawn_starts_below_viewport_with_entry_velocity() {
    let actor = spawn_spaceship(7, 1, 648, 800);
    assert_eq!(actor.handle, 7);
    assert_eq!(actor.x, 0);
    // fully below an 800-high viewport with a 48-high ship: -(800+48)/2
    assert_eq!(actor.y, -424);
    assert_eq!(actor.velocity, Velocity { x: 0, y: ENTRY_SPEED });
    assert_eq!(actor.spaceship.bullet_cd, None);
}

#[test]
fn position_check_transitions_exactly_at_threshold() {
    // threshold for a 648x800 viewport, 48-high ship: bottom edge -376
    let mut v = Velocity { x: 2, y: 5 };
    let phase = check_spaceship_position(Phase::Entry, -377, 648, 800, &mut v);
    assert_eq!(phase, Phase::Entry);
    assert_eq!(v, Velocity { x: 2, y: 5 });
    let phase = check_spaceship_position(Phase::Entry, -376, 648, 800, &mut v);
    assert_eq!(phase, Phase::Active);
    assert_eq!(v, Velocity { x: 2, y: 0 });
    // in the active phase the check never fires again
    let phase = check_spaceship_position(Phase::Active, 400, 648, 800, &mut v);
    assert_eq!(phase, Phase::Active);
    assert_eq!(v, Velocity { x: 2, y: 0 });
}

#[test]
fn entry_phase_transitions_once_over_full_ticks() {
    let mut world = ReadyPlugin::on_enter(7, 1, 648, 800);
    assert_eq!(world.phase, Phase::Entry);
    let input = quiet_input(648, 800);
    let mut transitions = 0;
    for _ in 0..40 {
        let was = world.phase;
        let shot = AppGamePlugin::update(&mut world, &input);
        assert_eq!(shot, None);
        if was == Phase::Entry && world.phase == Phase::Active {
            transitions += 1;
            // the inherited entry velocity is zeroed immediately
            let actor = world.actor.unwrap();
            assert_eq!(actor.velocity.y, 0);
            assert!(actor.y >= -376);
        }
    }
    assert_eq!(transitions, 1);
    assert_eq!(world.phase, Phase::Active);
    // the actor drifted up from -424 and stopped at the first tick at or
    // past the -376 threshold
    assert_eq!(world.actor.unwrap().y, -374);
}
