//! Grid-based gameplay rules for a small 2D tile-map prototype.
//!
//! The library holds the game's verified logic: discrete tile positions,
//! rectangular tile groups with inclusive containment, validation and
//! snapping of pixel-space map objects onto the tile grid, cooldown-gated
//! grid movement, and the decisions that attach or detach a building
//! entrance to the player. Rendering, input devices, asset loading and
//! scheduling belong to the host program, which feeds this library plain
//! values and acts on what it returns.

pub mod components;
pub mod entrance;
pub mod player;
