//! The terrain grid: one tile entity per cell, recorded in a tile storage.
use bevy::ecs::entity::Entity;
use bevy::ecs::system::Commands;
use bevy_ecs_tilemap::map::TilemapId;
use bevy_ecs_tilemap::tiles::{TileBundle, TilePos, TileStorage};
use vstd::prelude::*;

verus! {

#[verifier::external_type_specification]
#[verifier::external_body]
pub struct ExCommands<'w, 's>(Commands<'w, 's>);

#[verifier::external_type_specification]
#[verifier::external_body]
pub struct ExTileStorage(TileStorage);

/// Which `u64` values `Entity::from_bits` accepts: those whose low 32 bits
/// are not all zero (the row of an entity is stored as a non-zero word).
pub open spec fn is_entity_bits(bits: u64) -> bool {
    bits % 0x1_0000_0000 != 0
}

/// What a tile storage holds: for each occupied cell `(x, y)`, the bits of
/// the tile entity stored there.
pub uninterp spec fn tile_cells(storage: TileStorage) -> Map<(u32, u32), u64>;

/// The extent `(width, height)` that a tile storage was made for.
pub uninterp spec fn tile_extent(storage: TileStorage) -> (u32, u32);

/// The number of slots that a tile storage holds.
pub uninterp spec fn tile_slots(storage: TileStorage) -> nat;

/// Calls `TileStorage::empty`: a storage of `width * height` empty slots for a
/// map of that extent.
#[verifier::external_body]
fn new_tile_storage(width: u32, height: u32) -> (storage: TileStorage)
    requires
        width * height <= u32::MAX,
    ensures
        tile_cells(storage).is_empty(),
        tile_extent(storage) == (width, height),
        tile_slots(storage) == width * height,
{
    TileStorage::empty(bevy_ecs_tilemap::map::TilemapSize { x: width, y: height })
}

/// Calls `TileStorage::set`: the entity with the given bits now occupies cell
/// `(x, y)`, replacing whatever was there; no other cell changes.
#[verifier::external_body]
fn tile_storage_set(storage: &mut TileStorage, x: u32, y: u32, tile: u64)
    requires
        x < tile_extent(*old(storage)).0,
        y < tile_extent(*old(storage)).1,
        tile_slots(*old(storage)) == tile_extent(*old(storage)).0 * tile_extent(*old(storage)).1,
        is_entity_bits(tile),
    ensures
        tile_cells(*final(storage)) == tile_cells(*old(storage)).insert((x, y), tile),
        tile_extent(*final(storage)) == tile_extent(*old(storage)),
        tile_slots(*final(storage)) == tile_slots(*old(storage)),
{
    storage.set(&TilePos { x, y }, Entity::from_bits(tile))
}

/// A command that this library queues on a `Commands`, as the command queue
/// will apply it to the world.
#[derive(Clone, Copy, Debug, PartialEq, Eq, Structural)]
pub enum QueuedCommand {
    /// Spawn the reserved entity `entity` with no components.
    SpawnEmpty { entity: u64 },
    /// Spawn the reserved entity `tile` with a default `TileBundle` whose
    /// position is `(x, y)` and whose tilemap id is `tilemap`.
    SpawnTile { tile: u64, x: u32, y: u32, tilemap: u64 },
    /// Make `child` a child of `parent` (insert `ChildOf(parent)` on `child`).
    AddChild { parent: u64, child: u64 },
}

/// The commands queued on a `Commands` so far, oldest first.
pub uninterp spec fn queued_commands(commands: Commands) -> Seq<QueuedCommand>;

/// The bits of the entities that the world's entity allocator, as seen through
/// a `Commands`, will not hand out again: those alive and those reserved but
/// not yet flushed.
pub uninterp spec fn taken_entities(commands: Commands) -> Set<u64>;

/// Calls `Commands::spawn_empty`: reserves a fresh entity (`reserve_entity`
/// hands out an id that is neither alive nor reserved) and queues its spawn.
/// Hands back the new entity's bits, which `Entity::from_bits` accepts. Which
/// id is reserved depends on the world, and other systems may reserve ids at
/// the same time, so of the taken set only growth is stated.
#[verifier::external_body]
fn spawn_empty_entity(commands: &mut Commands) -> (entity: u64)
    ensures
        is_entity_bits(entity),
        !taken_entities(*old(commands)).contains(entity),
        taken_entities(*old(commands)).insert(entity).subset_of(taken_entities(*final(commands))),
        queued_commands(*final(commands)) == queued_commands(*old(commands)).push(
            QueuedCommand::SpawnEmpty { entity },
        ),
{
    commands.spawn_empty().id().to_bits()
}

/// Calls `Commands::spawn` with a default `TileBundle` placed at `(x, y)` of
/// the given tilemap: reserves a fresh entity and queues its spawn with that
/// bundle. Hands back the new tile's bits. Which id is reserved depends on the
/// world, and other systems may reserve ids at the same time, so of the taken
/// set only growth is stated.
#[verifier::external_body]
fn spawn_tile(commands: &mut Commands, x: u32, y: u32, tilemap: u64) -> (tile: u64)
    requires
        is_entity_bits(tilemap),
    ensures
        is_entity_bits(tile),
        !taken_entities(*old(commands)).contains(tile),
        taken_entities(*old(commands)).insert(tile).subset_of(taken_entities(*final(commands))),
        queued_commands(*final(commands)) == queued_commands(*old(commands)).push(
            QueuedCommand::SpawnTile { tile, x, y, tilemap },
        ),
{
    let tilemap_id = TilemapId(Entity::from_bits(tilemap));
    commands.spawn(TileBundle { position: TilePos { x, y }, tilemap_id, ..Default::default() }).id().to_bits()
}

/// Calls `Commands::entity` and `EntityCommands::add_child`: queues making
/// `child` a child of `parent`. Both must already be taken, so that the queued
/// command finds them.
#[verifier::external_body]
fn add_child(commands: &mut Commands, parent: u64, child: u64)
    requires
        is_entity_bits(parent),
        is_entity_bits(child),
        taken_entities(*old(commands)).contains(parent),
        taken_entities(*old(commands)).contains(child),
    ensures
        taken_entities(*old(commands)).subset_of(taken_entities(*final(commands))),
        queued_commands(*final(commands)) == queued_commands(*old(commands)).push(
            QueuedCommand::AddChild { parent, child },
        ),
{
    commands.entity(Entity::from_bits(parent)).add_child(Entity::from_bits(child));
}

/// The commands queued for the tiles of whole columns `0..x` and rows `0..y`
/// of column `x`, column by column: for each cell, the spawn of the tile that
/// `cells` holds there, then making it a child of the tilemap.
pub open spec fn tile_commands(tilemap: u64, cells: Map<(u32, u32), u64>, height: u32, x: u32, y: u32) -> Seq<QueuedCommand>
    decreases x, y,
{
    if y > 0 {
        let row = (y - 1) as u32;
        let tile = cells[(x, row)];
        tile_commands(tilemap, cells, height, x, row) + seq![
            QueuedCommand::SpawnTile { tile, x, y: row, tilemap },
            QueuedCommand::AddChild { parent: tilemap, child: tile },
        ]
    } else if x > 0 {
        tile_commands(tilemap, cells, height, (x - 1) as u32, height)
    } else {
        Seq::empty()
    }
}

/// The tile commands read only the cells of their prefix.
proof fn lemma_tile_commands_frame(
    tilemap: u64,
    a: Map<(u32, u32), u64>,
    b: Map<(u32, u32), u64>,
    height: u32,
    x: u32,
    y: u32,
)
    requires
        y <= height,
        forall|c: (u32, u32)| #[trigger] filled_prefix(x, y, height).contains(c) ==> a[c] == b[c],
    ensures
        tile_commands(tilemap, a, height, x, y) == tile_commands(tilemap, b, height, x, y),
    decreases x, y,
{
    if y > 0 {
        let row = (y - 1) as u32;
        assert(filled_prefix(x, y, height).contains((x, row)));
        assert forall|c: (u32, u32)| #[trigger] filled_prefix(x, row, height).contains(c) implies a[c] == b[c] by {
            assert(filled_prefix(x, y, height).contains(c));
        }
        lemma_tile_commands_frame(tilemap, a, b, height, x, row);
    } else if x > 0 {
        let col = (x - 1) as u32;
        assert forall|c: (u32, u32)| #[trigger] filled_prefix(col, height, height).contains(c) implies a[c] == b[c] by {
            assert(filled_prefix(x, y, height).contains(c));
        }
        lemma_tile_commands_frame(tilemap, a, b, height, col, height);
    }
}

/// Each cell of the prefix has its tile spawned there, with the tilemap's id,
/// and made a child of the tilemap; and the prefix queues two commands per cell.
pub proof fn lemma_tile_commands_cover(
    tilemap: u64,
    cells: Map<(u32, u32), u64>,
    height: u32,
    x: u32,
    y: u32,
)
    requires
        y <= height,
    ensures
        forall|c: (u32, u32)| #[trigger] filled_prefix(x, y, height).contains(c) ==> {
            &&& tile_commands(tilemap, cells, height, x, y).contains(
                QueuedCommand::SpawnTile { tile: cells[c], x: c.0, y: c.1, tilemap },
            )
            &&& tile_commands(tilemap, cells, height, x, y).contains(
                QueuedCommand::AddChild { parent: tilemap, child: cells[c] },
            )
        },
        tile_commands(tilemap, cells, height, x, y).len() == 2 * (x * height + y),
    decreases x, y,
{
    let q = tile_commands(tilemap, cells, height, x, y);
    if y > 0 {
        let row = (y - 1) as u32;
        let p = tile_commands(tilemap, cells, height, x, row);
        lemma_tile_commands_cover(tilemap, cells, height, x, row);
        let tile = cells[(x, row)];
        assert(q[p.len() as int] == QueuedCommand::SpawnTile { tile, x, y: row, tilemap });
        assert(q[p.len() + 1int] == QueuedCommand::AddChild { parent: tilemap, child: tile });
        assert(q.len() == 2 * (x * height + y));
        assert forall|c: (u32, u32)| #[trigger] filled_prefix(x, y, height).contains(c) implies {
            &&& q.contains(QueuedCommand::SpawnTile { tile: cells[c], x: c.0, y: c.1, tilemap })
            &&& q.contains(QueuedCommand::AddChild { parent: tilemap, child: cells[c] })
        } by {
            if c == (x, row) {
            } else {
                assert(filled_prefix(x, row, height).contains(c));
                let i = choose|i: int| 0 <= i < p.len() && p[i] == QueuedCommand::SpawnTile { tile: cells[c], x: c.0, y: c.1, tilemap };
                let j = choose|j: int| 0 <= j < p.len() && p[j] == QueuedCommand::AddChild { parent: tilemap, child: cells[c] };
                assert(q[i] == p[i]);
                assert(q[j] == p[j]);
            }
        }
    } else if x > 0 {
        let col = (x - 1) as u32;
        lemma_tile_commands_cover(tilemap, cells, height, col, height);
        assert forall|c: (u32, u32)| #[trigger] filled_prefix(x, y, height).contains(c) implies
            filled_prefix(col, height, height).contains(c) by {}
        assert(x * height == col * height + height) by (nonlinear_arith)
            requires col == x - 1;
        assert(q.len() == 2 * (x * height + y));
    } else {
        assert(x * height == 0) by (nonlinear_arith)
            requires x == 0;
    }
}

/// The cells of a `width` by `height` grid.
pub open spec fn grid_cells(width: u32, height: u32) -> Set<(u32, u32)> {
    Set::new(|c: (u32, u32)| c.0 < width && c.1 < height)
}

/// The cells filled after whole columns `0..x` and rows `0..y` of column `x`.
pub open spec fn filled_prefix(x: u32, y: u32, height: u32) -> Set<(u32, u32)> {
    Set::new(|c: (u32, u32)| (c.0 < x && c.1 < height) || (c.0 == x && c.1 < y))
}

/// The width of the level's terrain, in tiles.
pub const LEVEL_TERRAIN_WIDTH: u32 = 10;

/// The height of the level's terrain, in tiles.
pub const LEVEL_TERRAIN_HEIGHT: u32 = 10;

/// The tilemap entity and the storage of its tiles.
pub struct TerrainTiles {
    pub tilemap: u64,
    pub storage: TileStorage,
}

/// Whether distinct cells of a tile map hold distinct tiles.
pub open spec fn tiles_distinct(cells: Map<(u32, u32), u64>) -> bool {
    forall|c: (u32, u32), d: (u32, u32)|
        #![trigger cells[c], cells[d]]
        cells.contains_key(c) && cells.contains_key(d) && cells[c] == cells[d] ==> c == d
}

/// Spawns an empty tilemap entity and, column by column, one tile entity for
/// every cell of a `width` by `height` grid, each tile a child of the tilemap,
/// and records every tile in a storage of that extent.
///
/// The tilemap and every tile are fresh entities, all distinct; the commands
/// queued are exactly the tilemap's spawn, then for each cell in turn the
/// spawn of its tile at that position with the tilemap's id, and the tile made
/// a child of the tilemap, so that the tiles despawn with it. Nothing else is
/// queued, and no entity taken before the call is named.
pub fn spawn_terrain_tiles(commands: &mut Commands, width: u32, height: u32) -> (terrain: TerrainTiles)
    requires
        width * height <= u32::MAX,
    ensures
        is_entity_bits(terrain.tilemap),
        tile_extent(terrain.storage) == (width, height),
        tile_slots(terrain.storage) == width * height,
        tile_cells(terrain.storage).dom() == grid_cells(width, height),
        forall|c: (u32, u32)| #[trigger] tile_cells(terrain.storage).contains_key(c) ==> {
            &&& is_entity_bits(tile_cells(terrain.storage)[c])
            &&& tile_cells(terrain.storage)[c] != terrain.tilemap
            &&& !taken_entities(*old(commands)).contains(tile_cells(terrain.storage)[c])
            &&& taken_entities(*final(commands)).contains(tile_cells(terrain.storage)[c])
        },
        tiles_distinct(tile_cells(terrain.storage)),
        !taken_entities(*old(commands)).contains(terrain.tilemap),
        taken_entities(*old(commands)).insert(terrain.tilemap).subset_of(taken_entities(*final(commands))),
        queued_commands(*final(commands)) == queued_commands(*old(commands)).push(
            QueuedCommand::SpawnEmpty { entity: terrain.tilemap },
        ) + tile_commands(terrain.tilemap, tile_cells(terrain.storage), height, width, 0),
        queued_commands(*final(commands)).len() == queued_commands(*old(commands)).len() + 1 + 2 * (width * height),
        forall|c: (u32, u32)| #[trigger] grid_cells(width, height).contains(c) ==> {
            &&& queued_commands(*final(commands)).contains(
                QueuedCommand::SpawnTile {
                    tile: tile_cells(terrain.storage)[c],
                    x: c.0,
                    y: c.1,
                    tilemap: terrain.tilemap,
                },
            )
            &&& queued_commands(*final(commands)).contains(
                QueuedCommand::AddChild { parent: terrain.tilemap, child: tile_cells(terrain.storage)[c] },
            )
        },
{
    let ghost start_queue = queued_commands(*commands);
    let ghost start_taken = taken_entities(*commands);
    let tilemap = spawn_empty_entity(commands);
    let ghost head = start_queue.push(QueuedCommand::SpawnEmpty { entity: tilemap });
    let mut storage = new_tile_storage(width, height);
    assert(tile_cells(storage).dom() =~= filled_prefix(0, 0, height));
    assert(queued_commands(*commands) =~= head + tile_commands(tilemap, tile_cells(storage), height, 0, 0));
    let mut x: u32 = 0;
    while x < width
        invariant
            x <= width,
            width * height <= u32::MAX,
            is_entity_bits(tilemap),
            tile_extent(storage) == (width, height),
            tile_slots(storage) == width * height,
            tile_cells(storage).dom() == filled_prefix(x, 0, height),
            forall|c: (u32, u32)| #[trigger] tile_cells(storage).contains_key(c) ==> {
                &&& is_entity_bits(tile_cells(storage)[c])
                &&& tile_cells(storage)[c] != tilemap
                &&& !start_taken.contains(tile_cells(storage)[c])
                &&& taken_entities(*commands).contains(tile_cells(storage)[c])
            },
            tiles_distinct(tile_cells(storage)),
            !start_taken.contains(tilemap),
            start_taken.insert(tilemap).subset_of(taken_entities(*commands)),
            queued_commands(*commands) == head + tile_commands(tilemap, tile_cells(storage), height, x, 0),
        decreases width - x,
    {
        let mut y: u32 = 0;
        assert(filled_prefix(x, 0, height) =~= filled_prefix(x, 0, height));
        while y < height
            invariant
                x < width,
                y <= height,
                width * height <= u32::MAX,
                is_entity_bits(tilemap),
                tile_extent(storage) == (width, height),
                tile_slots(storage) == width * height,
                tile_cells(storage).dom() == filled_prefix(x, y, height),
                forall|c: (u32, u32)| #[trigger] tile_cells(storage).contains_key(c) ==> {
                    &&& is_entity_bits(tile_cells(storage)[c])
                    &&& tile_cells(storage)[c] != tilemap
                    &&& !start_taken.contains(tile_cells(storage)[c])
                    &&& taken_entities(*commands).contains(tile_cells(storage)[c])
                },
                tiles_distinct(tile_cells(storage)),
                !start_taken.contains(tilemap),
                start_taken.insert(tilemap).subset_of(taken_entities(*commands)),
                queued_commands(*commands) == head + tile_commands(tilemap, tile_cells(storage), height, x, y),
            decreases height - y,
        {
            let ghost before_cells = tile_cells(storage);
            let ghost before_queue = queued_commands(*commands);
            let tile = spawn_tile(commands, x, y, tilemap);
            tile_storage_set(&mut storage, x, y, tile);
            add_child(commands, tilemap, tile);
            proof {
                let cells = tile_cells(storage);
                assert(!before_cells.contains_key((x, y)));
                assert(cells.dom() =~= filled_prefix(x, (y + 1) as u32, height));
                assert forall|c: (u32, u32)| #[trigger] filled_prefix(x, y, height).contains(c) implies
                    cells[c] == before_cells[c] by {}
                lemma_tile_commands_frame(tilemap, cells, before_cells, height, x, y);
                assert(cells[(x, y)] == tile);
                let step = seq![
                    QueuedCommand::SpawnTile { tile, x, y, tilemap },
                    QueuedCommand::AddChild { parent: tilemap, child: tile },
                ];
                assert(tile_commands(tilemap, cells, height, x, (y + 1) as u32)
                    == tile_commands(tilemap, cells, height, x, y) + step);
                assert(queued_commands(*commands) =~= head + tile_commands(tilemap, cells, height, x, (y + 1) as u32));
                assert forall|c: (u32, u32), d: (u32, u32)|
                    #![trigger cells[c], cells[d]]
                    cells.contains_key(c) && cells.contains_key(d) && cells[c] == cells[d] implies c == d by {
                    if c != (x, y) && d != (x, y) {
                        assert(before_cells[c] == before_cells[d]);
                    }
                }
            }
            y = y + 1;
        }
        assert(filled_prefix(x, height, height) =~= filled_prefix((x + 1) as u32, 0, height));
        x = x + 1;
    }
    assert(filled_prefix(width, 0, height) =~= grid_cells(width, height));
    proof {
        let cells = tile_cells(storage);
        let tail = tile_commands(tilemap, cells, height, width, 0);
        lemma_tile_commands_cover(tilemap, cells, height, width, 0);
        assert forall|c: (u32, u32)| #[trigger] grid_cells(width, height).contains(c) implies {
            &&& (head + tail).contains(QueuedCommand::SpawnTile { tile: cells[c], x: c.0, y: c.1, tilemap })
            &&& (head + tail).contains(QueuedCommand::AddChild { parent: tilemap, child: cells[c] })
        } by {
            assert(filled_prefix(width, 0, height).contains(c));
            let i = choose|i: int| 0 <= i < tail.len()
                && tail[i] == QueuedCommand::SpawnTile { tile: cells[c], x: c.0, y: c.1, tilemap };
            let j = choose|j: int| 0 <= j < tail.len()
                && tail[j] == QueuedCommand::AddChild { parent: tilemap, child: cells[c] };
            assert((head + tail)[head.len() + i] == tail[i]);
            assert((head + tail)[head.len() + j] == tail[j]);
        }
    }
    TerrainTiles { tilemap, storage }
}

} // verus!
