use bevy::ecs::entity::Entity;
use bevy::ecs::hierarchy::ChildOf;
use bevy::ecs::world::World;
use bevy_ecs_tilemap::map::TilemapId;
use bevy_ecs_tilemap::tiles::TilePos;
use gameplay_core::terrain::{spawn_terrain_tiles, TerrainTiles, LEVEL_TERRAIN_HEIGHT, LEVEL_TERRAIN_WIDTH};

fn spawn(width: u32, height: u32) -> (World, TerrainTiles) {
    let mut world = World::new();
    let terrain = {
        let mut commands = world.commands();
        spawn_terrain_tiles(&mut commands, width, height)
    };
    world.flush();
    (world, terrain)
}

fn check_grid(width: u32, height: u32) {
    let (world, terrain) = spawn(width, height);
    let tilemap = Entity::from_bits(terrain.tilemap);
    assert!(world.get_entity(tilemap).is_ok());
    assert_eq!(terrain.storage.size.x, width);
    assert_eq!(terrain.storage.size.y, height);
    let mut seen: Vec<Entity> = Vec::new();
    for x in 0..width {
        for y in 0..height {
            let pos = TilePos { x, y };
            let tile = terrain.storage.get(&pos).expect("every cell holds a tile");
            assert_eq!(world.get::<TilePos>(tile), Some(&pos));
            assert_eq!(world.get::<TilemapId>(tile).map(|id| id.0), Some(tilemap));
            assert_eq!(world.get::<ChildOf>(tile).map(|c| c.parent()), Some(tilemap));
            assert!(!seen.contains(&tile));
            seen.push(tile);
        }
    }
    assert_eq!(seen.len() as u32, width * height);
    assert_eq!(terrain.storage.iter().filter(|t| t.is_some()).count() as u32, width * height);
}

#[test]
fn level_terrain_fills_every_cell() {
    assert_eq!((LEVEL_TERRAIN_WIDTH, LEVEL_TERRAIN_HEIGHT), (10, 10));
    check_grid(LEVEL_TERRAIN_WIDTH, LEVEL_TERRAIN_HEIGHT);
}

#[test]
fn non_square_terrain_fills_every_cell() {
    check_grid(3, 2);
    check_grid(1, 4);
}

#[test]
fn empty_terrain_has_no_tiles() {
    let (world, terrain) = spawn(0, 5);
    assert!(world.get_entity(Entity::from_bits(terrain.tilemap)).is_ok());
    assert_eq!(terrain.storage.iter().count(), 0);
    assert_eq!(terrain.storage.size.y, 5);
    assert_eq!(world.entities().len(), 1);
}

#[test]
fn tilemap_is_parent_of_all_tiles() {
    let (world, terrain) = spawn(2, 2);
    let tilemap = Entity::from_bits(terrain.tilemap);
    let children = world.get::<bevy::ecs::hierarchy::Children>(tilemap).expect("tilemap has children");
    assert_eq!(children.len(), 4);
    assert_eq!(world.entities().len(), 5);
}

#[test]
fn two_by_three_spawns_seven_entities() {
    let (world, terrain) = spawn(2, 3);
    assert_eq!(world.entities().len(), 7);
    let tilemap = Entity::from_bits(terrain.tilemap);
    let mut positions: Vec<(u32, u32)> = Vec::new();
    for x in 0..2 {
        for y in 0..3 {
            let tile = terrain.storage.get(&TilePos { x, y }).expect("cell holds a tile");
            assert_ne!(tile, tilemap);
            let pos = world.get::<TilePos>(tile).expect("tile has a position");
            positions.push((pos.x, pos.y));
        }
    }
    assert_eq!(positions, vec![(0, 0), (0, 1), (0, 2), (1, 0), (1, 1), (1, 2)]);
    assert!(world.get::<ChildOf>(tilemap).is_none());
}

#[test]
fn existing_entities_are_left_alone() {
    let mut world = World::new();
    let before = world.spawn_empty().id();
    let terrain = {
        let mut commands = world.commands();
        spawn_terrain_tiles(&mut commands, 2, 2)
    };
    world.flush();
    assert_ne!(Entity::from_bits(terrain.tilemap), before);
    assert!(world.get::<ChildOf>(before).is_none());
    assert!(world.get::<TilePos>(before).is_none());
    assert!(world.get::<bevy::ecs::hierarchy::Children>(before).is_none());
    assert!(terrain.storage.iter().all(|t| *t != Some(before)));
    assert_eq!(world.entities().len(), 6);
}

#[test]
fn despawning_the_tilemap_despawns_its_tiles() {
    let (mut world, terrain) = spawn(3, 3);
    let tilemap = Entity::from_bits(terrain.tilemap);
    assert!(world.despawn(tilemap));
    assert_eq!(world.entities().len(), 0);
    for x in 0..3 {
        for y in 0..3 {
            let tile = terrain.storage.get(&TilePos { x, y }).expect("cell holds a tile");
            assert!(world.get_entity(tile).is_err());
        }
    }
}
