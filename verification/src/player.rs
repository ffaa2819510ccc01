//! Cooldown-gated grid movement for the player.

use vstd::prelude::*;

use crate::components::MovementCooldown;
use crate::components::TILE_SIZE;
use crate::components::TilePosition;

verus! {

/// Which movement keys are held this frame.
#[derive(Clone, Copy, Debug, PartialEq, Eq, Structural)]
pub struct MoveInput {
    pub up: bool,
    pub down: bool,
    pub left: bool,
    pub right: bool,
}

/// One step of grid movement along a single axis.
#[derive(Clone, Copy, Debug, PartialEq, Eq, Structural)]
pub enum MoveDirection {
    Up,
    Down,
    Left,
    Right,
}

/// The direction the held keys select. Up wins over down, down over left,
/// left over right, so no two keys ever move the player diagonally in one
/// frame.
pub open spec fn chosen_direction(input: MoveInput) -> Option<MoveDirection> {
    if input.up {
        Some(MoveDirection::Up)
    } else if input.down {
        Some(MoveDirection::Down)
    } else if input.left {
        Some(MoveDirection::Left)
    } else if input.right {
        Some(MoveDirection::Right)
    } else {
        None
    }
}

/// Picks at most one movement direction from the held keys, with the
/// priority that `chosen_direction` states.
pub fn direction_from_input(input: &MoveInput) -> (r: Option<MoveDirection>)
    ensures
        r == chosen_direction(*input),
{
    if input.up {
        Some(MoveDirection::Up)
    } else if input.down {
        Some(MoveDirection::Down)
    } else if input.left {
        Some(MoveDirection::Left)
    } else if input.right {
        Some(MoveDirection::Right)
    } else {
        None
    }
}

/// The position one tile away from `pos` in direction `dir`, saturating at
/// the edges of the grid so the player can never leave it.
pub open spec fn stepped(pos: TilePosition, dir: MoveDirection) -> TilePosition {
    match dir {
        MoveDirection::Up => TilePosition {
            x: pos.x,
            y: if pos.y == u32::MAX { pos.y } else { (pos.y + 1) as u32 },
        },
        MoveDirection::Down => TilePosition {
            x: pos.x,
            y: if pos.y == 0 { 0 } else { (pos.y - 1) as u32 },
        },
        MoveDirection::Left => TilePosition {
            x: if pos.x == 0 { 0 } else { (pos.x - 1) as u32 },
            y: pos.y,
        },
        MoveDirection::Right => TilePosition {
            x: if pos.x == u32::MAX { pos.x } else { (pos.x + 1) as u32 },
            y: pos.y,
        },
    }
}

impl TilePosition {
    /// Moves one tile in the given direction, saturating at the grid edges.
    pub fn step(&self, dir: MoveDirection) -> (r: TilePosition)
        ensures
            r == stepped(*self, dir),
    {
        match dir {
            MoveDirection::Up => TilePosition {
                x: self.x,
                y: if self.y == u32::MAX { self.y } else { self.y + 1 },
            },
            MoveDirection::Down => TilePosition {
                x: self.x,
                y: if self.y == 0 { 0 } else { self.y - 1 },
            },
            MoveDirection::Left => TilePosition {
                x: if self.x == 0 { 0 } else { self.x - 1 },
                y: self.y,
            },
            MoveDirection::Right => TilePosition {
                x: if self.x == u32::MAX { self.x } else { self.x + 1 },
                y: self.y,
            },
        }
    }
}

/// A step moves along exactly one axis, and by at most one tile: movement
/// is never diagonal and never jumps.
pub proof fn lemma_step_single_axis(pos: TilePosition, dir: MoveDirection)
    ensures
        stepped(pos, dir).x == pos.x || stepped(pos, dir).y == pos.y,
        -1 <= stepped(pos, dir).x - pos.x <= 1,
        -1 <= stepped(pos, dir).y - pos.y <= 1,
{
}

/// Whether a cooldown that has waited `c.elapsed()` microseconds will be
/// finished once ticked by another `delta_micros`.
pub open spec fn cooldown_ready(c: MovementCooldown, delta_micros: u64) -> bool {
    c.elapsed() + delta_micros >= c.duration()
}

/// One frame of grid movement.
///
/// The cooldown is first advanced by `delta_micros`. If the wait is not yet
/// over, nothing moves and the cooldown keeps its progress. Otherwise, if
/// the held keys select a direction, the player steps one tile that way and
/// the cooldown starts over; with no key held the player stays put and the
/// cooldown stays finished, so the next key press acts at once.
pub fn move_player(
    pos: &mut TilePosition,
    cooldown: &mut MovementCooldown,
    delta_micros: u64,
    input: &MoveInput,
) -> (moved: bool)
    requires
        old(cooldown).wf(),
    ensures
        final(cooldown).wf(),
        final(cooldown).duration() == old(cooldown).duration(),
        moved == (cooldown_ready(*old(cooldown), delta_micros) && chosen_direction(*input)
            is Some),
        moved ==> *final(pos) == stepped(*old(pos), chosen_direction(*input)->Some_0),
        !moved ==> *final(pos) == *old(pos),
        moved ==> final(cooldown).elapsed() == 0,
        !cooldown_ready(*old(cooldown), delta_micros) ==> final(cooldown).elapsed() == old(
            cooldown,
        ).elapsed() + delta_micros,
        cooldown_ready(*old(cooldown), delta_micros) && !moved ==> final(cooldown).elapsed()
            == old(cooldown).duration(),
{
    cooldown.tick(delta_micros);
    if !cooldown.is_finished() {
        return false;
    }
    match direction_from_input(input) {
        Some(dir) => {
            *pos = pos.step(dir);
            cooldown.reset();
            true
        },
        None => false,
    }
}

/// The pixel coordinates of the centre of a tile: the tile's origin on the
/// pixel grid plus half a tile on each axis.
pub fn tile_pixel_center(pos: &TilePosition) -> (r: (u32, u32))
    requires
        pos.x * TILE_SIZE + TILE_SIZE / 2 <= u32::MAX,
        pos.y * TILE_SIZE + TILE_SIZE / 2 <= u32::MAX,
    ensures
        r.0 == pos.x * TILE_SIZE + TILE_SIZE / 2,
        r.1 == pos.y * TILE_SIZE + TILE_SIZE / 2,
{
    (pos.x * TILE_SIZE + TILE_SIZE / 2, pos.y * TILE_SIZE + TILE_SIZE / 2)
}

} // verus!
