use vstd::prelude::*;
use vstd::string::*;
use crate::components::{Tile, TileRecord};
use crate::coordinate::Coordinate;
use crate::grid::GridIndex;
use crate::marker_traits::TileTypeAble;

verus! {

/// The identity that the host gives a tile. The map keeps it and never
/// looks into it.
pub type Handle = u64;

/// What the map keeps for the tile at a cell.
#[derive(Debug)]
pub struct PlacedTile<T> {
    pub handle: Handle,
    pub orientation: u8,
    pub typ: T,
}

/// The extent of one tile along the three axes, in whole world units.
#[derive(Debug, Clone, Copy, PartialEq, Eq, Structural)]
pub struct TileSize {
    pub x: u32,
    pub y: u32,
    pub z: u32,
}

/// The settings of a map. They are made once and only read afterwards.
#[derive(Debug)]
pub struct TileMapConfig {
    pub tile_size: TileSize,
    /// The path of the map's files, without the ending.
    pub source_path: String,
    /// Whether the map's files are read when the map starts.
    pub load_from_source: bool,
    /// The neighbours that a tile can be attached at: the direction in which
    /// a neighbour lies, and the step from a cell to that neighbour.
    pub next_tile_dir: Vec<(Coordinate, Coordinate)>,
    /// The rotations a tile can have, each a turn about the vertical axis in
    /// whole degrees.
    pub possible_orientations: Vec<u16>,
}

/// The six neighbours along the axes, each with the step of one cell.
pub open spec fn axis_neighbours() -> Seq<(Coordinate, Coordinate)> {
    seq![
        (Coordinate { x: 1, y: 0, z: 0 }, Coordinate { x: 1, y: 0, z: 0 }),
        (Coordinate { x: 0, y: 0, z: 1 }, Coordinate { x: 0, y: 0, z: 1 }),
        (Coordinate { x: -1i32, y: 0, z: 0 }, Coordinate { x: -1i32, y: 0, z: 0 }),
        (Coordinate { x: 0, y: 0, z: -1i32 }, Coordinate { x: 0, y: 0, z: -1i32 }),
        (Coordinate { x: 0, y: 1, z: 0 }, Coordinate { x: 0, y: 1, z: 0 }),
        (Coordinate { x: 0, y: -1i32, z: 0 }, Coordinate { x: 0, y: -1i32, z: 0 }),
    ]
}

/// The four quarter turns.
pub open spec fn quarter_turns() -> Seq<u16> {
    seq![0u16, 90u16, 180u16, 270u16]
}

impl TileMapConfig {
    /// Whether two settings say the same.
    pub open spec fn same_as(&self, other: &TileMapConfig) -> bool {
        &&& self.tile_size == other.tile_size
        &&& self.source_path@ == other.source_path@
        &&& self.load_from_source == other.load_from_source
        &&& self.next_tile_dir@ == other.next_tile_dir@
        &&& self.possible_orientations@ == other.possible_orientations@
    }

    /// Whether these are the settings that a map has where none are given:
    /// tiles of one unit, the path `tile_map`, files read at the start, the
    /// six neighbours along the axes and the four quarter turns.
    pub open spec fn is_default(&self) -> bool {
        &&& self.tile_size == (TileSize { x: 1, y: 1, z: 1 })
        &&& self.source_path@ == "tile_map"@
        &&& self.load_from_source
        &&& self.next_tile_dir@ == axis_neighbours()
        &&& self.possible_orientations@ == quarter_turns()
    }

    pub fn with_tile_size(self, size: TileSize) -> (config: Self)
        ensures
            config.tile_size == size,
            config.source_path == self.source_path,
            config.load_from_source == self.load_from_source,
            config.next_tile_dir == self.next_tile_dir,
            config.possible_orientations == self.possible_orientations,
    {
        let mut config = self;
        config.tile_size = size;
        config
    }

    pub fn with_source_path(self, path: &str) -> (config: Self)
        ensures
            config.source_path@ == path@,
            config.tile_size == self.tile_size,
            config.load_from_source == self.load_from_source,
            config.next_tile_dir == self.next_tile_dir,
            config.possible_orientations == self.possible_orientations,
    {
        let mut config = self;
        config.source_path = String::from_str(path);
        config
    }

    /// The same settings for a map that starts empty: nothing is read when
    /// the map starts.
    pub fn fresh_world(self) -> (config: Self)
        ensures
            !config.load_from_source,
            config.tile_size == self.tile_size,
            config.source_path == self.source_path,
            config.next_tile_dir == self.next_tile_dir,
            config.possible_orientations == self.possible_orientations,
    {
        let mut config = self;
        config.load_from_source = false;
        config
    }

    /// A copy of these settings.
    pub fn duplicate(&self) -> (config: Self)
        ensures
            config.same_as(self),
    {
        let mut next_tile_dir: Vec<(Coordinate, Coordinate)> = Vec::new();
        let mut i: usize = 0;
        while i < self.next_tile_dir.len()
            invariant
                i <= self.next_tile_dir.len(),
                next_tile_dir@ == self.next_tile_dir@.subrange(0, i as int),
            decreases self.next_tile_dir.len() - i,
        {
            next_tile_dir.push(self.next_tile_dir[i]);
            i += 1;
        }
        let mut possible_orientations: Vec<u16> = Vec::new();
        let mut j: usize = 0;
        while j < self.possible_orientations.len()
            invariant
                j <= self.possible_orientations.len(),
                possible_orientations@ == self.possible_orientations@.subrange(0, j as int),
            decreases self.possible_orientations.len() - j,
        {
            possible_orientations.push(self.possible_orientations[j]);
            j += 1;
        }
        assert(next_tile_dir@ =~= self.next_tile_dir@);
        assert(possible_orientations@ =~= self.possible_orientations@);
        TileMapConfig {
            tile_size: self.tile_size,
            source_path: self.source_path.clone(),
            load_from_source: self.load_from_source,
            next_tile_dir,
            possible_orientations,
        }
    }
}

impl Default for TileMapConfig {
    /// Tiles of one unit, the path `tile_map`, files read at the start, the
    /// six neighbours along the axes and the four quarter turns.
    fn default() -> (config: Self)
        ensures
            config.is_default(),
    {
        let mut next_tile_dir: Vec<(Coordinate, Coordinate)> = Vec::new();
        next_tile_dir.push((Coordinate::new(1, 0, 0), Coordinate::new(1, 0, 0)));
        next_tile_dir.push((Coordinate::new(0, 0, 1), Coordinate::new(0, 0, 1)));
        next_tile_dir.push((Coordinate::new(-1, 0, 0), Coordinate::new(-1, 0, 0)));
        next_tile_dir.push((Coordinate::new(0, 0, -1), Coordinate::new(0, 0, -1)));
        next_tile_dir.push((Coordinate::new(0, 1, 0), Coordinate::new(0, 1, 0)));
        next_tile_dir.push((Coordinate::new(0, -1, 0), Coordinate::new(0, -1, 0)));
        let mut possible_orientations: Vec<u16> = Vec::new();
        possible_orientations.push(0);
        possible_orientations.push(90);
        possible_orientations.push(180);
        possible_orientations.push(270);
        assert(next_tile_dir@ =~= axis_neighbours());
        assert(possible_orientations@ =~= quarter_turns());
        TileMapConfig {
            tile_size: TileSize { x: 1, y: 1, z: 1 },
            source_path: String::from_str("tile_map"),
            load_from_source: true,
            next_tile_dir,
            possible_orientations,
        }
    }
}

/// A map: its settings and the tile at each occupied cell.
pub struct TileMap<T> {
    pub tiles: GridIndex<PlacedTile<T>>,
    pub config: TileMapConfig,
}

impl<T> View for TileMap<T> {
    type V = Map<Coordinate, PlacedTile<T>>;

    open spec fn view(&self) -> Map<Coordinate, PlacedTile<T>> {
        self.tiles@
    }
}

/// Whether `records` lists the tiles of a map: each tile once, with its
/// cell, its orientation and its type, in any order.
pub open spec fn lists_tiles<T>(
    records: Seq<TileRecord<T>>,
    tiles: Map<Coordinate, PlacedTile<T>>,
) -> bool {
    &&& forall|i: int|
        0 <= i < records.len() ==> {
            let cell = (#[trigger] records[i]).tile.map_pos;
            &&& tiles.contains_key(cell)
            &&& tiles[cell].orientation == records[i].tile.orientation
            &&& tiles[cell].typ == records[i].typ
        }
    &&& forall|i: int, j: int|
        0 <= i < j < records.len() ==> (#[trigger] records[i]).tile.map_pos != (
        #[trigger] records[j]).tile.map_pos
    &&& forall|cell: Coordinate| #[trigger]
        tiles.contains_key(cell) ==> exists|i: int|
            0 <= i < records.len() && (#[trigger] records[i]).tile.map_pos == cell
}

impl<T: TileTypeAble> TileMap<T> {
    /// Whether the map is in order. Every map that this library hands out is.
    pub open spec fn wf(&self) -> bool {
        self.tiles.wf()
    }

    /// An empty map with the given settings.
    pub fn new(config: TileMapConfig) -> (tile_map: Self)
        ensures
            tile_map.wf(),
            tile_map@ == Map::<Coordinate, PlacedTile<T>>::empty(),
            tile_map.config == config,
    {
        TileMap { tiles: GridIndex::new(), config }
    }

    /// The number of tiles on the map.
    pub fn len(&self) -> (count: usize)
        requires
            self.wf(),
        ensures
            self@.dom().finite(),
            count == self@.dom().len(),
    {
        self.tiles.len()
    }

    /// The handle of the tile at `position`, if a tile stands there.
    pub fn lookup(&self, position: &Coordinate) -> (handle: Option<Handle>)
        ensures
            handle == (if self@.contains_key(*position) {
                Some(self@[*position].handle)
            } else {
                None
            }),
    {
        match self.tiles.lookup(position) {
            Some(placed) => Some(placed.handle),
            None => None,
        }
    }

    /// Takes the tile at `position` off the map and hands it back. An empty
    /// cell is left as it is.
    pub fn despawn(&mut self, position: &Coordinate) -> (removed: Option<PlacedTile<T>>)
        requires
            old(self).wf(),
        ensures
            final(self).wf(),
            final(self).config == old(self).config,
            final(self)@ == old(self)@.remove(*position),
            removed == (if old(self)@.contains_key(*position) {
                Some(old(self)@[*position])
            } else {
                None
            }),
            !old(self)@.contains_key(*position) ==> final(self)@ == old(self)@,
    {
        let removed = self.tiles.remove(position);
        assert(!old(self)@.contains_key(*position) ==> self@ =~= old(self)@);
        removed
    }

    /// The tiles of a map after the given tiles were created on it one
    /// after the other, each under the handle at its place in `handles`. A
    /// tile that stands at the cell of a later one gives way to it.
    pub open spec fn spawned(
        tiles: Map<Coordinate, PlacedTile<T>>,
        records: Seq<TileRecord<T>>,
        handles: Seq<Handle>,
    ) -> Map<Coordinate, PlacedTile<T>>
        decreases records.len(),
    {
        if records.len() == 0 || handles.len() < records.len() {
            tiles
        } else {
            let last = records.last();
            Self::spawned(tiles, records.drop_last(), handles).insert(
                last.tile.map_pos,
                PlacedTile {
                    handle: handles[records.len() - 1],
                    orientation: last.tile.orientation,
                    typ: last.typ,
                },
            )
        }
    }

    /// Creates the given tiles on the map one after the other, each under
    /// the handle at its place in `handles`. Where there are fewer handles
    /// than tiles, nothing is created.
    pub fn spawn_all(&mut self, records: &Vec<TileRecord<T>>, handles: &Vec<Handle>)
        requires
            old(self).wf(),
        ensures
            final(self).wf(),
            final(self).config == old(self).config,
            final(self)@ == Self::spawned(old(self)@, records@, handles@),
    {
        if handles.len() < records.len() {
            return ;
        }
        let mut i: usize = 0;
        while i < records.len()
            invariant
                i <= records.len() <= handles.len(),
                self.wf(),
                self.config == old(self).config,
                self@ == Self::spawned(old(self)@, records@.subrange(0, i as int), handles@),
            decreases records.len() - i,
        {
            proof {
                let next = records@.subrange(0, i + 1);
                assert(next.drop_last() =~= records@.subrange(0, i as int));
                assert(next.last() == records@[i as int]);
            }
            let record = &records[i];
            let _ = record.tile.on_added(handles[i], record.typ.clone_type(), self);
            i += 1;
        }
        assert(records@.subrange(0, i as int) =~= records@);
    }

    /// Every tile of the map, each once, in no particular order.
    pub fn records(&self) -> (records: Vec<TileRecord<T>>)
        requires
            self.wf(),
        ensures
            lists_tiles(records@, self@),
    {
        let cells = self.tiles.positions();
        let mut records: Vec<TileRecord<T>> = Vec::new();
        let mut i: usize = 0;
        while i < cells.len()
            invariant
                i <= cells.len(),
                records@.len() == i,
                cells@.no_duplicates(),
                cells@.to_set() == self@.dom(),
                forall|k: int|
                    0 <= k < i ==> {
                        &&& (#[trigger] records@[k]).tile.map_pos == cells@[k]
                        &&& records@[k].tile.orientation == self@[cells@[k]].orientation
                        &&& records@[k].typ == self@[cells@[k]].typ
                    },
            decreases cells.len() - i,
        {
            let cell = cells[i];
            assert(cells@.to_set().contains(cell));
            match self.tiles.lookup(&cell) {
                Some(placed) => {
                    records.push(
                        TileRecord {
                            tile: Tile { map_pos: cell, orientation: placed.orientation },
                            typ: placed.typ.clone_type(),
                        },
                    );
                },
                None => {
                    assert(false);
                },
            }
            i += 1;
        }
        proof {
            assert forall|cell: Coordinate| #[trigger] self@.contains_key(cell) implies exists|
                k: int,
            |
                0 <= k < records@.len() && (#[trigger] records@[k]).tile.map_pos == cell by {
                assert(cells@.to_set().contains(cell));
                let k = choose|k: int| 0 <= k < cells@.len() && cells@[k] == cell;
                assert(records@[k].tile.map_pos == cell);
            }
            assert forall|k: int| 0 <= k < records@.len() implies self@.contains_key(
                (#[trigger] records@[k]).tile.map_pos,
            ) by {
                assert(cells@.to_set().contains(cells@[k]));
            }
        }
        records
    }
}

} // verus!
