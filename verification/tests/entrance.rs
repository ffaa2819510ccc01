use alveus_idle::components::BuildingEntrance;
use alveus_idle::components::RectangleTileGroup;
use alveus_idle::components::TileGroup;
use alveus_idle::components::TilePosition;
use alveus_idle::entrance::MapIntegrityError;
use alveus_idle::entrance::check_player_enter_building;
use alveus_idle::entrance::check_player_exit_building;
use alveus_idle::entrance::validate_and_snap_entrance;

fn two_by_two_group() -> RectangleTileGroup {
    RectangleTileGroup {
        bottom_left: TilePosition { x: 1, y: 1 },
        top_right: TilePosition { x: 2, y: 2 },
    }
}

#[test]
fn contains_is_inclusive_on_all_edges() {
    let rect = two_by_two_group();
    assert!(rect.contains(&TilePosition { x: 1, y: 1 }));
    assert!(rect.contains(&TilePosition { x: 2, y: 2 }));
    assert!(rect.contains(&TilePosition { x: 1, y: 2 }));
    assert!(rect.contains(&TilePosition { x: 2, y: 1 }));
}

#[test]
fn contains_rejects_positions_outside_each_edge() {
    let rect = two_by_two_group();
    assert!(!rect.contains(&TilePosition { x: 0, y: 1 }));
    assert!(!rect.contains(&TilePosition { x: 3, y: 1 }));
    assert!(!rect.contains(&TilePosition { x: 1, y: 0 }));
    assert!(!rect.contains(&TilePosition { x: 1, y: 3 }));
    assert!(!rect.contains(&TilePosition { x: 0, y: 0 }));
}

#[test]
fn tile_group_delegates_to_its_rectangle() {
    let group = TileGroup::Rectangle(two_by_two_group());
    assert!(group.contains(&TilePosition { x: 2, y: 1 }));
    assert!(!group.contains(&TilePosition { x: 3, y: 3 }));
}

#[test]
fn snap_converts_pixel_bounds_to_inclusive_tiles() {
    // A 64 x 64 pixel object anchored at (32, 96): its body spans pixel
    // rows 32..96, so it covers tiles (1, 1) through (2, 2).
    let group = validate_and_snap_entrance(32, 96, 64, 64).unwrap();
    assert_eq!(group.bottom_left, TilePosition { x: 1, y: 1 });
    assert_eq!(group.top_right, TilePosition { x: 2, y: 2 });
}

#[test]
fn snap_of_single_tile_object() {
    let group = validate_and_snap_entrance(0, 32, 32, 32).unwrap();
    assert_eq!(group.bottom_left, TilePosition { x: 0, y: 0 });
    assert_eq!(group.top_right, TilePosition { x: 0, y: 0 });
}

#[test]
fn snap_clamps_an_object_reaching_below_the_origin() {
    // The body would span pixel rows -32..32; the bottom is clamped to row 0.
    let group = validate_and_snap_entrance(64, 32, 32, 64).unwrap();
    assert_eq!(group.bottom_left, TilePosition { x: 2, y: 0 });
    assert_eq!(group.top_right, TilePosition { x: 2, y: 1 });
}

#[test]
fn snap_rejects_a_misaligned_anchor() {
    assert_eq!(
        validate_and_snap_entrance(33, 96, 64, 64),
        Err(MapIntegrityError::MisalignedPosition)
    );
    assert_eq!(
        validate_and_snap_entrance(32, 95, 64, 64),
        Err(MapIntegrityError::MisalignedPosition)
    );
}

#[test]
fn snap_rejects_dimensions_off_the_tile_grid() {
    assert_eq!(
        validate_and_snap_entrance(32, 96, 63, 64),
        Err(MapIntegrityError::DimensionsNotTileMultiple)
    );
    assert_eq!(
        validate_and_snap_entrance(32, 96, 64, 40),
        Err(MapIntegrityError::DimensionsNotTileMultiple)
    );
}

#[test]
fn snap_reports_the_anchor_before_the_dimensions() {
    assert_eq!(
        validate_and_snap_entrance(31, 96, 63, 64),
        Err(MapIntegrityError::MisalignedPosition)
    );
}

#[test]
fn snapped_group_matches_pixel_bounds() {
    // The scenario behind the pixel-bounds law: a tile lies in the snapped
    // group exactly when its pixel origin falls inside the object's extent.
    let group = validate_and_snap_entrance(32, 96, 64, 64).unwrap();
    for tx in 0u32..5 {
        for ty in 0u32..5 {
            let tile = TilePosition { x: tx, y: ty };
            let in_pixels = 32 <= tx * 32 && tx * 32 < 32 + 64 && 32 <= ty * 32 && ty * 32 < 96;
            assert_eq!(group.contains(&tile), in_pixels);
        }
    }
}

#[test]
fn entering_hands_out_the_entrance_inside_the_group() {
    let group = TileGroup::Rectangle(two_by_two_group());
    let entered = check_player_enter_building(
        &TilePosition { x: 2, y: 2 },
        &group,
        &BuildingEntrance::NutritionHouse,
    );
    assert_eq!(entered, Some(BuildingEntrance::NutritionHouse));
}

#[test]
fn entering_yields_nothing_outside_the_group() {
    let group = TileGroup::Rectangle(two_by_two_group());
    let entered = check_player_enter_building(
        &TilePosition { x: 0, y: 2 },
        &group,
        &BuildingEntrance::NutritionHouse,
    );
    assert_eq!(entered, None);
}

#[test]
fn exiting_reports_every_group_the_player_is_outside_of() {
    let near = TileGroup::Rectangle(two_by_two_group());
    let far = TileGroup::Rectangle(RectangleTileGroup {
        bottom_left: TilePosition { x: 10, y: 10 },
        top_right: TilePosition { x: 11, y: 12 },
    });
    let entrances = vec![
        (near, BuildingEntrance::NutritionHouse),
        (far, BuildingEntrance::NoEntrance),
    ];

    // Standing inside the first group, only the second is exited.
    let events = check_player_exit_building(&TilePosition { x: 1, y: 2 }, &entrances);
    assert_eq!(events.len(), 1);
    assert_eq!(events[0].entrance, BuildingEntrance::NoEntrance);

    // Standing outside both, both are exited, in listed order.
    let events = check_player_exit_building(&TilePosition { x: 5, y: 5 }, &entrances);
    assert_eq!(events.len(), 2);
    assert_eq!(events[0].entrance, BuildingEntrance::NutritionHouse);
    assert_eq!(events[1].entrance, BuildingEntrance::NoEntrance);

    // Inside the second group, only the first is exited.
    let events = check_player_exit_building(&TilePosition { x: 11, y: 11 }, &entrances);
    assert_eq!(events.len(), 1);
    assert_eq!(events[0].entrance, BuildingEntrance::NutritionHouse);
}

#[test]
fn exiting_an_empty_entrance_list_reports_nothing() {
    let events = check_player_exit_building(&TilePosition { x: 0, y: 0 }, &vec![]);
    assert!(events.is_empty());
}

#[test]
fn default_building_entrance_is_none() {
    assert_eq!(BuildingEntrance::default(), BuildingEntrance::NoEntrance);
}
