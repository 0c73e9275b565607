//! The controlled spaceship: directional-input decoding, per-tick velocity
//! resolution with boundary clamping and window-size speed tiers, and the
//! cooldown-gated fire controller.

use vstd::prelude::*;
use crate::{sat_add, sat_add_spec, TickInput};
use crate::world::ControlledActor;
use crate::geometry::{
    FULL_WINDOW_WIDTH, bottom_edge_spec, get_bottom_edge, get_left_edge, get_right_edge,
    get_spaceship_size, get_top_edge, left_edge_spec, right_edge_spec, spaceship_size_spec,
    top_edge_spec,
};

verus! {

/// Full-tier speed magnitude on a full-size viewport.
pub const FULL_SPEED_LARGE: i32 = 10;

/// Full-tier speed magnitude below the full-size viewport width.
pub const FULL_SPEED_SMALL: i32 = 7;

/// Half-tier (diagonal) speed magnitude on a full-size viewport.
pub const HALF_SPEED_LARGE: i32 = 7;

/// Half-tier (diagonal) speed magnitude below the full-size viewport width.
pub const HALF_SPEED_SMALL: i32 = 5;

/// Cooldown between projectile spawns, in milliseconds.
pub const BULLET_COOLDOWN_MS: u64 = 100;

/// A per-tick velocity in viewport coordinates.
#[derive(Clone, Copy, Debug, PartialEq, Eq, Structural)]
pub struct Velocity {
    pub x: i32,
    pub y: i32,
}

/// The controlled actor's fire state: `bullet_cd` holds the milliseconds
/// still to wait before the next shot, or `None` when ready to fire.
#[derive(Clone, Copy, Debug, PartialEq, Eq, Structural)]
pub struct Spaceship {
    pub bullet_cd: Option<u64>,
}

/// Command to spawn a projectile at the actor's current position.
#[derive(Clone, Copy, Debug, PartialEq, Eq, Structural)]
pub struct ShootBulletEvent {
    pub x: i32,
    pub y: i32,
}

/// The nine motion classes: eight compass directions plus rest.
#[derive(Clone, Copy, Debug, PartialEq, Eq, Structural)]
pub enum SpaceShipMovement {
    Up,
    UpRight,
    Right,
    DownRight,
    Down,
    DownLeft,
    Left,
    UpLeft,
    Rest,
}

/// A movement request for the current tick.
#[derive(Clone, Copy, Debug, PartialEq, Eq, Structural)]
pub struct SpaceShipMovementEvent(pub SpaceShipMovement);

/// Priority decoding of the four raw directional flags: diagonals first,
/// then vertical, then horizontal; an opposing pair cancels its axis.
pub open spec fn decode_input_spec(up: bool, down: bool, left: bool, right: bool)
    -> SpaceShipMovement {
    if up && !down && left && !right {
        SpaceShipMovement::UpLeft
    } else if up && !down && !left && right {
        SpaceShipMovement::UpRight
    } else if !up && down && left && !right {
        SpaceShipMovement::DownLeft
    } else if !up && down && !left && right {
        SpaceShipMovement::DownRight
    } else if up && !down {
        SpaceShipMovement::Up
    } else if !up && down {
        SpaceShipMovement::Down
    } else if left && !right {
        SpaceShipMovement::Left
    } else if !left && right {
        SpaceShipMovement::Right
    } else {
        SpaceShipMovement::Rest
    }
}

/// Turns the raw directional flags sampled this tick into a movement request.
pub fn handle_spaceship_keyboard_interaction(up: bool, down: bool, left: bool, right: bool)
    -> (ev: SpaceShipMovementEvent)
    ensures
        ev.0 == decode_input_spec(up, down, left, right),
{
    let movement = match (up, down, left, right) {
        (true, false, true, false) => SpaceShipMovement::UpLeft,
        (true, false, false, true) => SpaceShipMovement::UpRight,
        (false, true, true, false) => SpaceShipMovement::DownLeft,
        (false, true, false, true) => SpaceShipMovement::DownRight,
        (true, false, _, _) => SpaceShipMovement::Up,
        (false, true, _, _) => SpaceShipMovement::Down,
        (_, _, true, false) => SpaceShipMovement::Left,
        (_, _, false, true) => SpaceShipMovement::Right,
        _ => SpaceShipMovement::Rest,
    };
    SpaceShipMovementEvent(movement)
}

/// Speed magnitude for straight motion under the tier that `viewport_w` selects.
pub open spec fn full_speed_spec(viewport_w: int) -> int {
    if viewport_w >= FULL_WINDOW_WIDTH {
        FULL_SPEED_LARGE as int
    } else {
        FULL_SPEED_SMALL as int
    }
}

/// Speed magnitude used on each axis of diagonal motion under the tier that
/// `viewport_w` selects. Deliberately not normalized: both axes move at this
/// magnitude simultaneously.
pub open spec fn half_speed_spec(viewport_w: int) -> int {
    if viewport_w >= FULL_WINDOW_WIDTH {
        HALF_SPEED_LARGE as int
    } else {
        HALF_SPEED_SMALL as int
    }
}

pub fn get_full_speed(viewport_w: i32) -> (speed: i32)
    ensures
        speed == full_speed_spec(viewport_w as int),
{
    if viewport_w >= FULL_WINDOW_WIDTH {
        FULL_SPEED_LARGE
    } else {
        FULL_SPEED_SMALL
    }
}

pub fn get_half_speed(viewport_w: i32) -> (speed: i32)
    ensures
        speed == half_speed_spec(viewport_w as int),
{
    if viewport_w >= FULL_WINDOW_WIDTH {
        HALF_SPEED_LARGE
    } else {
        HALF_SPEED_SMALL
    }
}

/// The actor's center has reached or passed the top boundary.
pub open spec fn meet_top_edge_spec(y: int, viewport_w: int, viewport_h: int) -> bool {
    y >= top_edge_spec(viewport_h, spaceship_size_spec(viewport_w))
}

/// The actor's center has reached or passed the bottom boundary.
pub open spec fn meet_bottom_edge_spec(y: int, viewport_w: int, viewport_h: int) -> bool {
    y <= bottom_edge_spec(viewport_h, spaceship_size_spec(viewport_w))
}

/// The actor's center has reached or passed the left boundary.
pub open spec fn meet_left_edge_spec(x: int, viewport_w: int) -> bool {
    x <= left_edge_spec(viewport_w, spaceship_size_spec(viewport_w))
}

/// The actor's center has reached or passed the right boundary.
pub open spec fn meet_right_edge_spec(x: int, viewport_w: int) -> bool {
    x >= right_edge_spec(viewport_w, spaceship_size_spec(viewport_w))
}

pub fn meet_top_edge(position: i32, viewport_w: i32, viewport_h: i32) -> (met: bool)
    ensures
        met == meet_top_edge_spec(position as int, viewport_w as int, viewport_h as int),
{
    position >= get_top_edge(viewport_h, get_spaceship_size(viewport_w))
}

pub fn meet_bottom_edge(position: i32, viewport_w: i32, viewport_h: i32) -> (met: bool)
    ensures
        met == meet_bottom_edge_spec(position as int, viewport_w as int, viewport_h as int),
{
    position <= get_bottom_edge(viewport_h, get_spaceship_size(viewport_w))
}

pub fn meet_left_edge(position: i32, viewport_w: i32) -> (met: bool)
    ensures
        met == meet_left_edge_spec(position as int, viewport_w as int),
{
    position <= get_left_edge(viewport_w, get_spaceship_size(viewport_w))
}

pub fn meet_right_edge(position: i32, viewport_w: i32) -> (met: bool)
    ensures
        met == meet_right_edge_spec(position as int, viewport_w as int),
{
    position >= get_right_edge(viewport_w, get_spaceship_size(viewport_w))
}

/// Horizontal velocity component resolved for movement `m` at position `x`:
/// motion toward a met boundary is suppressed to zero.
pub open spec fn velocity_x_spec(m: SpaceShipMovement, x: int, viewport_w: int) -> int {
    if (m == SpaceShipMovement::Left) && !meet_left_edge_spec(x, viewport_w) {
        -full_speed_spec(viewport_w)
    } else if (m == SpaceShipMovement::UpLeft || m == SpaceShipMovement::DownLeft)
        && !meet_left_edge_spec(x, viewport_w) {
        -half_speed_spec(viewport_w)
    } else if (m == SpaceShipMovement::Right) && !meet_right_edge_spec(x, viewport_w) {
        full_speed_spec(viewport_w)
    } else if (m == SpaceShipMovement::UpRight || m == SpaceShipMovement::DownRight)
        && !meet_right_edge_spec(x, viewport_w) {
        half_speed_spec(viewport_w)
    } else {
        0
    }
}

/// Vertical velocity component resolved for movement `m` at position `y`.
pub open spec fn velocity_y_spec(m: SpaceShipMovement, y: int, viewport_w: int, viewport_h: int)
    -> int {
    if (m == SpaceShipMovement::Up) && !meet_top_edge_spec(y, viewport_w, viewport_h) {
        full_speed_spec(viewport_w)
    } else if (m == SpaceShipMovement::UpLeft || m == SpaceShipMovement::UpRight)
        && !meet_top_edge_spec(y, viewport_w, viewport_h) {
        half_speed_spec(viewport_w)
    } else if (m == SpaceShipMovement::Down) && !meet_bottom_edge_spec(y, viewport_w, viewport_h) {
        -full_speed_spec(viewport_w)
    } else if (m == SpaceShipMovement::DownLeft || m == SpaceShipMovement::DownRight)
        && !meet_bottom_edge_spec(y, viewport_w, viewport_h) {
        -half_speed_spec(viewport_w)
    } else {
        0
    }
}

/// The velocity the resolver assigns for movement `m` at position `(x, y)`:
/// rest forces exact zero on both axes, bypassing the edge logic.
pub open spec fn movement_velocity_spec(
    m: SpaceShipMovement,
    x: int,
    y: int,
    viewport_w: int,
    viewport_h: int,
) -> Velocity {
    if m == SpaceShipMovement::Rest {
        (Velocity { x: 0, y: 0 })
    } else {
        (Velocity {
            x: velocity_x_spec(m, x, viewport_w) as i32,
            y: velocity_y_spec(m, y, viewport_w, viewport_h) as i32,
        })
    }
}

/// Resolves this tick's velocity from the movement request, the actor's
/// current center position and the current viewport dimensions.
pub fn handle_spaceship_movement(
    event: &SpaceShipMovementEvent,
    x: i32,
    y: i32,
    viewport_w: i32,
    viewport_h: i32,
    velocity: &mut Velocity,
)
    ensures
        *final(velocity) == movement_velocity_spec(
            event.0, x as int, y as int, viewport_w as int, viewport_h as int),
{
    if event.0 == SpaceShipMovement::Rest {
        velocity.x = 0;
        velocity.y = 0;
        return;
    }

    let full_velocity = get_full_speed(viewport_w);
    let half_velocity = get_half_speed(viewport_w);

    let m = event.0;

    velocity.x = if m == SpaceShipMovement::Left && !meet_left_edge(x, viewport_w) {
        -full_velocity
    } else if (m == SpaceShipMovement::UpLeft || m == SpaceShipMovement::DownLeft)
        && !meet_left_edge(x, viewport_w) {
        -half_velocity
    } else if m == SpaceShipMovement::Right && !meet_right_edge(x, viewport_w) {
        full_velocity
    } else if (m == SpaceShipMovement::UpRight || m == SpaceShipMovement::DownRight)
        && !meet_right_edge(x, viewport_w) {
        half_velocity
    } else {
        0
    };

    velocity.y = if m == SpaceShipMovement::Up && !meet_top_edge(y, viewport_w, viewport_h) {
        full_velocity
    } else if (m == SpaceShipMovement::UpLeft || m == SpaceShipMovement::UpRight)
        && !meet_top_edge(y, viewport_w, viewport_h) {
        half_velocity
    } else if m == SpaceShipMovement::Down && !meet_bottom_edge(y, viewport_w, viewport_h) {
        -full_velocity
    } else if (m == SpaceShipMovement::DownLeft || m == SpaceShipMovement::DownRight)
        && !meet_bottom_edge(y, viewport_w, viewport_h) {
        -half_velocity
    } else {
        0
    };
}

/// Fire input is asserted this tick: the fire button is held, or the
/// alternate control mode asserts fire unconditionally.
pub open spec fn fire_asserted(fire_pressed: bool, hover_mode: bool) -> bool {
    fire_pressed || hover_mode
}

/// What the fire controller does on one tick: a spawn command at the actor's
/// position and a fresh cooldown when fire is asserted and no cooldown runs,
/// otherwise nothing.
pub open spec fn shoot_spec(
    fire_pressed: bool,
    hover_mode: bool,
    x: int,
    y: int,
    ship: Spaceship,
) -> (Option<ShootBulletEvent>, Spaceship) {
    if fire_asserted(fire_pressed, hover_mode) && ship.bullet_cd is None {
        (
            Some(ShootBulletEvent { x: x as i32, y: y as i32 }),
            Spaceship { bullet_cd: Some(BULLET_COOLDOWN_MS) },
        )
    } else {
        (None, ship)
    }
}

/// How a running cooldown advances by `delta_ms` elapsed milliseconds: it
/// clears once the remaining time is used up, and an absent cooldown stays
/// absent.
pub open spec fn cooldown_spec(ship: Spaceship, delta_ms: u64) -> Spaceship {
    match ship.bullet_cd {
        None => ship,
        Some(remaining) => if delta_ms >= remaining {
            Spaceship { bullet_cd: None }
        } else {
            Spaceship { bullet_cd: Some((remaining - delta_ms) as u64) }
        },
    }
}

/// Emits at most one projectile-spawn command per cooldown cycle: only when
/// fire is asserted and the ship is off cooldown does it spawn, and it then
/// restarts the fixed cooldown.
pub fn handle_shoot_bullet(
    fire_pressed: bool,
    hover_mode: bool,
    x: i32,
    y: i32,
    spaceship: &mut Spaceship,
) -> (shot: Option<ShootBulletEvent>)
    ensures
        (shot, *final(spaceship)) == shoot_spec(
            fire_pressed, hover_mode, x as int, y as int, *old(spaceship)),
{
    if (fire_pressed || hover_mode) && spaceship.bullet_cd.is_none() {
        spaceship.bullet_cd = Some(BULLET_COOLDOWN_MS);
        Some(ShootBulletEvent { x, y })
    } else {
        None
    }
}

/// Advances the cooldown timer by this tick's elapsed time, clearing it when
/// it has fully elapsed so that fire becomes available again.
pub fn handle_bullet_cooldown(spaceship: &mut Spaceship, delta_ms: u64)
    ensures
        *final(spaceship) == cooldown_spec(*old(spaceship), delta_ms),
{
    match spaceship.bullet_cd {
        None => {},
        Some(remaining) => {
            if delta_ms >= remaining {
                spaceship.bullet_cd = None;
            } else {
                spaceship.bullet_cd = Some(remaining - delta_ms);
            }
        },
    }
}

/// An opposing directional pair held simultaneously cancels to no motion on
/// that axis: holding both vertical flags decodes as if neither were held,
/// and likewise for the horizontal pair. Together with the decoder's
/// totality, every one of the sixteen raw input combinations yields exactly
/// one of the nine motion classes.
pub proof fn lemma_opposing_inputs_cancel(up: bool, down: bool, left: bool, right: bool)
    ensures
        decode_input_spec(true, true, left, right) == decode_input_spec(false, false, left, right),
        decode_input_spec(up, down, true, true) == decode_input_spec(up, down, false, false),
{
}

/// At or beyond a boundary the velocity component toward that edge is forced
/// to zero, while the component along the other axis is unaffected: it does
/// not depend on the clamped coordinate at all.
pub proof fn lemma_edge_clamps_velocity(
    m: SpaceShipMovement,
    x: int,
    y: int,
    viewport_w: int,
    viewport_h: int,
)
    ensures
        meet_left_edge_spec(x, viewport_w)
            ==> movement_velocity_spec(m, x, y, viewport_w, viewport_h).x >= 0,
        meet_right_edge_spec(x, viewport_w)
            ==> movement_velocity_spec(m, x, y, viewport_w, viewport_h).x <= 0,
        meet_top_edge_spec(y, viewport_w, viewport_h)
            ==> movement_velocity_spec(m, x, y, viewport_w, viewport_h).y <= 0,
        meet_bottom_edge_spec(y, viewport_w, viewport_h)
            ==> movement_velocity_spec(m, x, y, viewport_w, viewport_h).y >= 0,
        forall|x2: int| movement_velocity_spec(m, x, y, viewport_w, viewport_h).y
            == #[trigger] movement_velocity_spec(m, x2, y, viewport_w, viewport_h).y,
        forall|y2: int| movement_velocity_spec(m, x, y, viewport_w, viewport_h).x
            == #[trigger] movement_velocity_spec(m, x, y2, viewport_w, viewport_h).x,
{
}

/// Total elapsed time of a run of ticks, in milliseconds.
pub open spec fn sum_deltas(deltas: Seq<u64>) -> int
    decreases deltas.len(),
{
    if deltas.len() == 0 {
        0
    } else {
        deltas[0] + sum_deltas(deltas.drop_first())
    }
}

/// The fire state after a run of cooldown ticks with the given elapsed times.
pub open spec fn tick_cooldowns_spec(ship: Spaceship, deltas: Seq<u64>) -> Spaceship
    decreases deltas.len(),
{
    if deltas.len() == 0 {
        ship
    } else {
        tick_cooldowns_spec(cooldown_spec(ship, deltas[0]), deltas.drop_first())
    }
}

/// A ship that is ready to fire stays ready under cooldown ticks alone.
pub proof fn lemma_ready_ship_stays_ready(ship: Spaceship, deltas: Seq<u64>)
    requires
        ship.bullet_cd is None,
    ensures
        tick_cooldowns_spec(ship, deltas) == ship,
    decreases deltas.len(),
{
    if deltas.len() > 0 {
        lemma_ready_ship_stays_ready(cooldown_spec(ship, deltas[0]), deltas.drop_first());
    }
}

/// Once at least one tick has passed and the elapsed times sum to the
/// remaining cooldown or more, the cooldown has cleared.
pub proof fn lemma_cooldown_elapses(ship: Spaceship, deltas: Seq<u64>)
    requires
        ship.bullet_cd is Some,
        deltas.len() > 0,
        sum_deltas(deltas) >= ship.bullet_cd.unwrap(),
    ensures
        tick_cooldowns_spec(ship, deltas).bullet_cd is None,
    decreases deltas.len(),
{
    let remaining = ship.bullet_cd.unwrap();
    let ticked = cooldown_spec(ship, deltas[0]);
    let rest = deltas.drop_first();
    if deltas[0] >= remaining {
        lemma_ready_ship_stays_ready(ticked, rest);
    } else {
        assert(sum_deltas(rest) >= remaining - deltas[0]);
        assert(rest.len() > 0) by {
            if rest.len() == 0 {
                assert(sum_deltas(rest) == 0);
            }
        }
        lemma_cooldown_elapses(ticked, rest);
    }
}

/// The fire controller's cooldown cycle: while a cooldown is active, firing
/// produces no spawn command and changes nothing; after cooldown ticks whose
/// elapsed times sum to at least the remaining duration, the next asserted
/// fire produces exactly one spawn command and restarts the full cooldown.
pub proof fn lemma_fire_cooldown_cycle(
    ship: Spaceship,
    deltas: Seq<u64>,
    x: i32,
    y: i32,
    fire_pressed: bool,
    hover_mode: bool,
)
    requires
        ship.bullet_cd is Some,
        deltas.len() > 0,
        sum_deltas(deltas) >= ship.bullet_cd.unwrap(),
        fire_asserted(fire_pressed, hover_mode),
    ensures
        shoot_spec(fire_pressed, hover_mode, x as int, y as int, ship)
            == (None::<ShootBulletEvent>, ship),
        shoot_spec(fire_pressed, hover_mode, x as int, y as int,
            tick_cooldowns_spec(ship, deltas))
            == (
                Some(ShootBulletEvent { x, y }),
                Spaceship { bullet_cd: Some(BULLET_COOLDOWN_MS) },
            ),
{
    lemma_cooldown_elapses(ship, deltas);
}

/// The controlled actor after one active-phase resolution pass, with the
/// projectile-spawn command it emits, if any: input decoding, velocity
/// resolution, position integration, cooldown advance, then the fire gate at
/// the integrated position.
pub open spec fn active_actor_spec(actor: ControlledActor, input: TickInput)
    -> (ControlledActor, Option<ShootBulletEvent>) {
    let movement = decode_input_spec(input.up, input.down, input.left, input.right);
    let velocity = movement_velocity_spec(
        movement, actor.x as int, actor.y as int,
        input.viewport_w as int, input.viewport_h as int);
    let x2 = sat_add_spec(actor.x as int, velocity.x as int) as i32;
    let y2 = sat_add_spec(actor.y as int, velocity.y as int) as i32;
    let cooled = cooldown_spec(actor.spaceship, input.delta_ms);
    let fired = shoot_spec(input.fire, input.hover_mode, x2 as int, y2 as int, cooled);
    (ControlledActor { x: x2, y: y2, velocity, spaceship: fired.1, ..actor }, fired.0)
}

/// The active-phase systems of the controlled actor, in tick order.
pub struct SpaceshipPlugin;

impl SpaceshipPlugin {
    /// Runs the actor's active-phase update for one tick: resolves this
    /// tick's velocity from the directional input, integrates the position,
    /// advances the fire cooldown and applies the fire gate.
    pub fn update(actor: &mut ControlledActor, input: &TickInput)
        -> (shot: Option<ShootBulletEvent>)
        ensures
            (*final(actor), shot) == active_actor_spec(*old(actor), *input),
    {
        let event = handle_spaceship_keyboard_interaction(
            input.up, input.down, input.left, input.right);
        let mut velocity = actor.velocity;
        handle_spaceship_movement(
            &event, actor.x, actor.y, input.viewport_w, input.viewport_h, &mut velocity);
        actor.velocity = velocity;
        actor.x = sat_add(actor.x, velocity.x);
        actor.y = sat_add(actor.y, velocity.y);
        let mut ship = actor.spaceship;
        handle_bullet_cooldown(&mut ship, input.delta_ms);
        let shot = handle_shoot_bullet(input.fire, input.hover_mode, actor.x, actor.y, &mut ship);
        actor.spaceship = ship;
        shot
    }
}

} // verus!
