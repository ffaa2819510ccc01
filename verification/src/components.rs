//! Core gameplay data: tile positions, tile groups, building entrances,
//! and the movement cooldown.

use vstd::prelude::*;

verus! {

/// Width and height of one square map tile, in pixels.
pub const TILE_SIZE: u32 = 32;

/// A discrete position on the tile grid.
#[derive(Clone, Copy, Debug, PartialEq, Eq, Structural)]
pub struct TilePosition {
    pub x: u32,
    pub y: u32,
}

/// An axis-aligned rectangle of tiles, inclusive of all four edges.
#[derive(Clone, Copy, Debug, PartialEq, Eq, Structural)]
pub struct RectangleTileGroup {
    pub bottom_left: TilePosition,
    pub top_right: TilePosition,
}

impl RectangleTileGroup {
    /// A rectangle is well formed when its corners are ordered on both axes,
    /// so that it covers at least one tile.
    pub open spec fn wf(self) -> bool {
        self.bottom_left.x <= self.top_right.x && self.bottom_left.y <= self.top_right.y
    }

    /// Whether `pos` lies inside the rectangle, all four edges included.
    pub open spec fn spec_contains(self, pos: TilePosition) -> bool {
        self.bottom_left.x <= pos.x <= self.top_right.x
            && self.bottom_left.y <= pos.y <= self.top_right.y
    }

    /// Inclusive containment test for a tile position.
    pub fn contains(&self, pos: &TilePosition) -> (r: bool)
        ensures
            r == self.spec_contains(*pos),
    {
        pos.x >= self.bottom_left.x && pos.x <= self.top_right.x
            && pos.y >= self.bottom_left.y && pos.y <= self.top_right.y
    }
}

/// The shape of a group of tiles that acts as one region.
#[derive(Clone, Copy, Debug, PartialEq, Eq, Structural)]
pub enum TileGroup {
    Rectangle(RectangleTileGroup),
}

impl TileGroup {
    /// A group is well formed when its shape is.
    pub open spec fn wf(self) -> bool {
        match self {
            TileGroup::Rectangle(rect) => rect.wf(),
        }
    }

    /// Whether `pos` lies inside the group.
    pub open spec fn spec_contains(self, pos: TilePosition) -> bool {
        match self {
            TileGroup::Rectangle(rect) => rect.spec_contains(pos),
        }
    }

    /// Containment test for a tile position.
    pub fn contains(&self, pos: &TilePosition) -> (r: bool)
        ensures
            r == self.spec_contains(*pos),
    {
        match self {
            TileGroup::Rectangle(rect) => rect.contains(pos),
        }
    }
}

/// The building, if any, whose entrance a map object or the player stands on.
#[derive(Clone, Copy, Debug, PartialEq, Eq, Structural)]
pub enum BuildingEntrance {
    NoEntrance,
    NutritionHouse,
}

impl Default for BuildingEntrance {
    /// The default is no entrance at all.
    fn default() -> (r: Self)
        ensures
            r == BuildingEntrance::NoEntrance,
    {
        BuildingEntrance::NoEntrance
    }
}

/// A once-only cooldown that gates how often the player may move.
///
/// Time is kept in whole microseconds. The cooldown is finished when the
/// elapsed time has reached its duration; ticking past the duration clamps
/// the elapsed time there, and a reset starts the wait over.
#[derive(Clone, Copy, Debug)]
pub struct MovementCooldown {
    elapsed_micros: u64,
    duration_micros: u64,
}

impl MovementCooldown {
    /// The elapsed time, in microseconds.
    pub closed spec fn elapsed(self) -> int {
        self.elapsed_micros as int
    }

    /// The full duration of the cooldown, in microseconds.
    pub closed spec fn duration(self) -> int {
        self.duration_micros as int
    }

    /// The elapsed time never runs past the duration.
    pub open spec fn wf(self) -> bool {
        self.elapsed() <= self.duration()
    }

    /// Whether the wait is over.
    pub open spec fn spec_is_finished(self) -> bool {
        self.elapsed() >= self.duration()
    }

    /// The elapsed time after ticking by `delta_micros`, clamped at the
    /// duration.
    pub open spec fn spec_ticked_elapsed(self, delta_micros: u64) -> int {
        if self.elapsed() + delta_micros >= self.duration() {
            self.duration()
        } else {
            self.elapsed() + delta_micros
        }
    }

    /// A fresh cooldown of the given duration, with the whole wait ahead.
    pub fn new(duration_micros: u64) -> (r: Self)
        ensures
            r.wf(),
            r.elapsed() == 0,
            r.duration() == duration_micros,
    {
        MovementCooldown { elapsed_micros: 0, duration_micros }
    }

    /// Advances the cooldown by `delta_micros`, clamping at the duration.
    pub fn tick(&mut self, delta_micros: u64)
        requires
            old(self).wf(),
        ensures
            final(self).wf(),
            final(self).duration() == old(self).duration(),
            final(self).elapsed() == old(self).spec_ticked_elapsed(delta_micros),
    {
        if delta_micros >= self.duration_micros - self.elapsed_micros {
            self.elapsed_micros = self.duration_micros;
        } else {
            self.elapsed_micros = self.elapsed_micros + delta_micros;
        }
    }

    /// Whether the wait is over.
    pub fn is_finished(&self) -> (r: bool)
        ensures
            r == self.spec_is_finished(),
    {
        self.elapsed_micros >= self.duration_micros
    }

    /// The elapsed time so far, in microseconds.
    pub fn elapsed_micros(&self) -> (r: u64)
        ensures
            r == self.elapsed(),
    {
        self.elapsed_micros
    }

    /// The full duration of the cooldown, in microseconds.
    pub fn duration_micros(&self) -> (r: u64)
        ensures
            r == self.duration(),
    {
        self.duration_micros
    }

    /// Starts the wait over.
    pub fn reset(&mut self)
        ensures
            final(self).wf(),
            final(self).elapsed() == 0,
            final(self).duration() == old(self).duration(),
    {
        self.elapsed_micros = 0;
    }
}

} // verus!
