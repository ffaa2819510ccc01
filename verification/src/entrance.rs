//! Building-entrance geometry: snapping map objects onto the tile grid and
//! deciding when the player enters or leaves an entrance.

use vstd::prelude::*;
use vstd::arithmetic::div_mod::lemma_fundamental_div_mod;
use vstd::arithmetic::div_mod::lemma_sub_mod_noop;

use crate::components::BuildingEntrance;
use crate::components::RectangleTileGroup;
use crate::components::TILE_SIZE;
use crate::components::TileGroup;
use crate::components::TilePosition;

verus! {

/// Raised when the player steps onto a tile of a building entrance.
#[derive(Clone, Copy, Debug, PartialEq, Eq, Structural)]
pub struct PlayerEnteredBuildingEvent {
    pub entrance: BuildingEntrance,
}

/// Raised when the player stands outside a building entrance it was in.
#[derive(Clone, Copy, Debug, PartialEq, Eq, Structural)]
pub struct PlayerExitedBuildingEvent {
    pub entrance: BuildingEntrance,
}

/// Why a map object cannot be snapped onto the tile grid.
#[derive(Clone, Copy, Debug, PartialEq, Eq, Structural)]
pub enum MapIntegrityError {
    /// The object's position does not sit on the pixel grid of tiles.
    MisalignedPosition,
    /// The object's width or height is not a whole number of tiles.
    DimensionsNotTileMultiple,
}

/// The tile rectangle covered by a rectangular map object.
///
/// The object's anchor `(x, y)` is its top-left corner in pixels, measured
/// from the map's bottom-left origin, so the object spans the pixel columns
/// `x..x + width` and the pixel rows `y - height..y`. An object whose body
/// reaches below the origin is clamped to the bottom row of tiles.
pub open spec fn snapped_group(x: u32, y: u32, width: u32, height: u32) -> RectangleTileGroup {
    let grid_x = (x / TILE_SIZE) as u32;
    let grid_y = (if y >= height {
        (y - height) / (TILE_SIZE as int)
    } else {
        0
    }) as u32;
    RectangleTileGroup {
        bottom_left: TilePosition { x: grid_x, y: grid_y },
        top_right: TilePosition {
            x: (grid_x + width / TILE_SIZE - 1) as u32,
            y: (grid_y + height / TILE_SIZE - 1) as u32,
        },
    }
}

/// Checks a rectangular map object against the tile grid and, when it fits,
/// converts its pixel-space bounds into the inclusive tile rectangle it
/// covers.
///
/// The object's anchor must sit on the pixel grid of tiles and its
/// dimensions must be whole numbers of tiles; each fault is reported as its
/// own error, the position checked first.
pub fn validate_and_snap_entrance(x: u32, y: u32, width: u32, height: u32) -> (r: Result<
    RectangleTileGroup,
    MapIntegrityError,
>)
    requires
        width > 0,
        height > 0,
    ensures
        r is Ok <==> x % TILE_SIZE == 0 && y % TILE_SIZE == 0 && width % TILE_SIZE == 0
            && height % TILE_SIZE == 0,
        x % TILE_SIZE != 0 || y % TILE_SIZE != 0 ==> r == Result::<
            RectangleTileGroup,
            MapIntegrityError,
        >::Err(MapIntegrityError::MisalignedPosition),
        x % TILE_SIZE == 0 && y % TILE_SIZE == 0 && (width % TILE_SIZE != 0 || height % TILE_SIZE
            != 0) ==> r == Result::<RectangleTileGroup, MapIntegrityError>::Err(
            MapIntegrityError::DimensionsNotTileMultiple,
        ),
        r is Ok ==> r->Ok_0 == snapped_group(x, y, width, height),
        r is Ok ==> r->Ok_0.wf(),
{
    if x % TILE_SIZE != 0 || y % TILE_SIZE != 0 {
        return Err(MapIntegrityError::MisalignedPosition);
    }
    if width % TILE_SIZE != 0 || height % TILE_SIZE != 0 {
        return Err(MapIntegrityError::DimensionsNotTileMultiple);
    }
    let grid_x = x / TILE_SIZE;
    let grid_y = if y >= height {
        (y - height) / TILE_SIZE
    } else {
        0
    };
    let width_in_tiles = width / TILE_SIZE;
    let height_in_tiles = height / TILE_SIZE;
    Ok(
        RectangleTileGroup {
            bottom_left: TilePosition { x: grid_x, y: grid_y },
            top_right: TilePosition {
                x: grid_x + width_in_tiles - 1,
                y: grid_y + height_in_tiles - 1,
            },
        },
    )
}

/// The tile rectangle that `validate_and_snap_entrance` accepts covers
/// exactly the object's pixel extent: a tile lies in the group if and only
/// if the tile's pixel origin falls inside the object's pixel bounds, on
/// both axes.
pub proof fn lemma_snapped_group_pixel_bounds(
    x: u32,
    y: u32,
    width: u32,
    height: u32,
    tile: TilePosition,
)
    requires
        x % TILE_SIZE == 0,
        y % TILE_SIZE == 0,
        width % TILE_SIZE == 0,
        height % TILE_SIZE == 0,
        width > 0,
        height > 0,
        height <= y,
    ensures
        snapped_group(x, y, width, height).spec_contains(tile) <==> (x <= tile.x * TILE_SIZE
            < x + width && y - height <= tile.y * TILE_SIZE < y),
{
    lemma_fundamental_div_mod(x as int, TILE_SIZE as int);
    lemma_fundamental_div_mod((y - height) as int, TILE_SIZE as int);
    lemma_fundamental_div_mod(width as int, TILE_SIZE as int);
    lemma_fundamental_div_mod(height as int, TILE_SIZE as int);
    lemma_sub_mod_noop(y as int, height as int, TILE_SIZE as int);
}

/// A player position yields no exit event for an entrance exactly when the
/// enter check would hand that entrance out: the two decisions are
/// complementary.
pub proof fn lemma_enter_exit_complementary(
    pos: TilePosition,
    group: TileGroup,
    entrance: BuildingEntrance,
)
    ensures
        spec_exited(pos, seq![(group, entrance)]).len() == 0 <==> group.spec_contains(pos),
        !group.spec_contains(pos) ==> spec_exited(pos, seq![(group, entrance)]) =~= seq![
            PlayerExitedBuildingEvent { entrance },
        ],
{
    let s = seq![(group, entrance)];
    assert(s.drop_last() =~= Seq::<(TileGroup, BuildingEntrance)>::empty());
    assert(spec_exited(pos, Seq::<(TileGroup, BuildingEntrance)>::empty()) =~= Seq::<
        PlayerExitedBuildingEvent,
    >::empty());
    assert(s.last() == (group, entrance));
    if !group.spec_contains(pos) {
        assert(spec_exited(pos, s) =~= seq![PlayerExitedBuildingEvent { entrance }]);
    }
}

/// The entrance the player steps into, if any: the entrance's component
/// value when its tile group contains the player's position, and nothing
/// otherwise.
pub fn check_player_enter_building(
    player_pos: &TilePosition,
    group: &TileGroup,
    entrance: &BuildingEntrance,
) -> (r: Option<BuildingEntrance>)
    ensures
        group.spec_contains(*player_pos) ==> r == Some(*entrance),
        !group.spec_contains(*player_pos) ==> r is None,
{
    if group.contains(player_pos) {
        Some(*entrance)
    } else {
        None
    }
}

/// The exit events due for a player position: one per listed entrance whose
/// tile group does not contain the position, in the order the entrances are
/// listed.
pub open spec fn spec_exited(pos: TilePosition, entrances: Seq<(TileGroup, BuildingEntrance)>) -> Seq<
    PlayerExitedBuildingEvent,
>
    decreases entrances.len(),
{
    if entrances.len() == 0 {
        Seq::empty()
    } else {
        let rest = spec_exited(pos, entrances.drop_last());
        let last = entrances.last();
        if !last.0.spec_contains(pos) {
            rest.push(PlayerExitedBuildingEvent { entrance: last.1 })
        } else {
            rest
        }
    }
}

/// Collects an exit event for every entrance whose tile group the player's
/// position lies outside of.
pub fn check_player_exit_building(
    player_pos: &TilePosition,
    entrances: &Vec<(TileGroup, BuildingEntrance)>,
) -> (r: Vec<PlayerExitedBuildingEvent>)
    ensures
        r@ == spec_exited(*player_pos, entrances@),
{
    let mut events: Vec<PlayerExitedBuildingEvent> = Vec::new();
    let mut i: usize = 0;
    while i < entrances.len()
        invariant
            i <= entrances.len(),
            events@ == spec_exited(*player_pos, entrances@.take(i as int)),
        decreases entrances.len() - i,
    {
        let (group, entrance) = entrances[i];
        if !group.contains(player_pos) {
            events.push(PlayerExitedBuildingEvent { entrance });
        }
        proof {
            assert(entrances@.take(i + 1 as int).drop_last() =~= entrances@.take(i as int));
            assert(entrances@.take(i + 1 as int).last() == entrances@[i as int]);
        }
        i = i + 1;
    }
    proof {
        assert(entrances@.take(entrances@.len() as int) =~= entrances@);
    }
    events
}

} // verus!
