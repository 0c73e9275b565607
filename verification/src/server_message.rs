//! Outbound message shapes of the optional network transport.
//!
//! The core may emit these toward a transport collaborator; nothing here is
//! consumed back into the collision logic except as new contacts or hostiles
//! fed through the normal interfaces. Positions and velocities are in the
//! same integer viewport coordinates the core simulates in.

use vstd::prelude::*;

verus! {

/// A message from the hosting player's core toward the transport.
#[derive(Debug, PartialEq, Eq)]
pub enum ServerMessage {
    /// A player joined and was assigned a tag.
    Joined { player_tag: u8 },
    /// All players joined; the match may be prepared.
    GameReady,
    /// The match starts now.
    GameStart,
    /// The owner's position and active projectile positions this tick.
    UpdatePosition { player_tag: u8, position: (i32, i32), bullets: Vec<(i32, i32)> },
    /// A hostile spawned, to be mirrored by peers.
    SpawnEnemy { tag: u16, position: (i32, i32), velocity: (i32, i32) },
    /// A collision resolved locally into confirmed damage.
    ConfirmDamaged { player_tag: u8, enemy_tag: u16 },
}

} // verus!
