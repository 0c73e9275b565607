//! Playable-area boundaries computed from viewport and entity dimensions.
//!
//! Coordinates are centered: the viewport spans `-width/2 .. width/2`
//! horizontally and `-height/2 .. height/2` vertically. A boundary is the
//! extreme center position at which an entity of the given size still lies
//! fully inside the viewport. Degenerate (non-positive or oversized entity)
//! dimensions clamp to the zero boundary instead of failing.

use vstd::prelude::*;

verus! {

/// Viewport width at or above which the game runs in its full-size tier.
pub const FULL_WINDOW_WIDTH: i32 = 1280;

/// Side length of the square spaceship sprite in the full-size tier.
pub const SPACESHIP_SIZE_FULL: i32 = 64;

/// Side length of the square spaceship sprite below the full-size tier.
pub const SPACESHIP_SIZE_SMALL: i32 = 48;

/// True when the dimensions admit no playable area: the boundary clamps to 0.
pub open spec fn degenerate(viewport: int, entity: int) -> bool {
    viewport <= 0 || entity <= 0 || entity > viewport
}

/// Highest center position keeping an entity of height `entity_h` fully
/// inside a viewport of height `viewport_h`.
pub open spec fn top_edge_spec(viewport_h: int, entity_h: int) -> int {
    if degenerate(viewport_h, entity_h) {
        0
    } else {
        (viewport_h - entity_h) / 2
    }
}

/// Lowest such center position: the mirror image of the top edge.
pub open spec fn bottom_edge_spec(viewport_h: int, entity_h: int) -> int {
    -top_edge_spec(viewport_h, entity_h)
}

/// Rightmost center position keeping an entity of width `entity_w` fully
/// inside a viewport of width `viewport_w`.
pub open spec fn right_edge_spec(viewport_w: int, entity_w: int) -> int {
    if degenerate(viewport_w, entity_w) {
        0
    } else {
        (viewport_w - entity_w) / 2
    }
}

/// Leftmost such center position: the mirror image of the right edge.
pub open spec fn left_edge_spec(viewport_w: int, entity_w: int) -> int {
    -right_edge_spec(viewport_w, entity_w)
}

/// Center position at which an entity of height `entity_h` sits fully below
/// the viewport, used as the off-screen spawn point of the entry phase.
pub open spec fn bottom_out_edge_spec(viewport_h: int, entity_h: int) -> int {
    if viewport_h <= 0 || entity_h <= 0 {
        0
    } else {
        -((viewport_h + entity_h) / 2)
    }
}

/// Spaceship sprite side length for the tier selected by the viewport width.
pub open spec fn spaceship_size_spec(viewport_w: int) -> int {
    if viewport_w >= FULL_WINDOW_WIDTH {
        SPACESHIP_SIZE_FULL as int
    } else {
        SPACESHIP_SIZE_SMALL as int
    }
}

pub fn get_spaceship_size(viewport_w: i32) -> (size: i32)
    ensures
        size == spaceship_size_spec(viewport_w as int),
{
    if viewport_w >= FULL_WINDOW_WIDTH {
        SPACESHIP_SIZE_FULL
    } else {
        SPACESHIP_SIZE_SMALL
    }
}

pub fn get_top_edge(viewport_h: i32, entity_h: i32) -> (edge: i32)
    ensures
        edge == top_edge_spec(viewport_h as int, entity_h as int),
{
    if viewport_h <= 0 || entity_h <= 0 || entity_h > viewport_h {
        0
    } else {
        (viewport_h - entity_h) / 2
    }
}

pub fn get_bottom_edge(viewport_h: i32, entity_h: i32) -> (edge: i32)
    ensures
        edge == bottom_edge_spec(viewport_h as int, entity_h as int),
{
    let top = get_top_edge(viewport_h, entity_h);
    -top
}

pub fn get_right_edge(viewport_w: i32, entity_w: i32) -> (edge: i32)
    ensures
        edge == right_edge_spec(viewport_w as int, entity_w as int),
{
    if viewport_w <= 0 || entity_w <= 0 || entity_w > viewport_w {
        0
    } else {
        (viewport_w - entity_w) / 2
    }
}

pub fn get_left_edge(viewport_w: i32, entity_w: i32) -> (edge: i32)
    ensures
        edge == left_edge_spec(viewport_w as int, entity_w as int),
{
    let right = get_right_edge(viewport_w, entity_w);
    -right
}

pub fn get_bottom_out_edge(viewport_h: i32, entity_h: i32) -> (edge: i32)
    ensures
        edge == bottom_out_edge_spec(viewport_h as int, entity_h as int),
{
    if viewport_h <= 0 || entity_h <= 0 {
        0
    } else {
        let sum: i64 = viewport_h as i64 + entity_h as i64;
        -((sum / 2) as i32)
    }
}

} // verus!
