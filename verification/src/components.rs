use vstd::prelude::*;
use crate::coordinate::Coordinate;
use crate::marker_traits::TileTypeAble;
use crate::resources::{Handle, PlacedTile, TileMap};

verus! {

/// Where a tile stands and how it is turned.
#[derive(Debug, Clone, Copy, PartialEq, Eq, Structural)]
pub struct Tile {
    /// The cell that the tile occupies.
    pub map_pos: Coordinate,
    /// The place of the tile's rotation in the configured list of orientations.
    pub orientation: u8,
}

/// One tile as it is written to a file or placed on a map: its cell, its
/// orientation and its type.
#[derive(Debug)]
pub struct TileRecord<T> {
    pub tile: Tile,
    pub typ: T,
}

impl Tile {
    pub fn new(map_pos: Coordinate, orientation: u8) -> (tile: Self)
        ensures
            tile == (Tile { map_pos, orientation }),
    {
        Tile { map_pos, orientation }
    }

    /// Enters a tile that was just created into the map, under the handle
    /// that its creator gave it. A tile that stood at the same cell gives
    /// way and is handed back.
    pub fn on_added<T: TileTypeAble>(
        &self,
        handle: Handle,
        typ: T,
        tile_map: &mut TileMap<T>,
    ) -> (superseded: Option<PlacedTile<T>>)
        requires
            old(tile_map).wf(),
        ensures
            final(tile_map).wf(),
            final(tile_map).config == old(tile_map).config,
            final(tile_map)@ == old(tile_map)@.insert(
                self.map_pos,
                PlacedTile { handle, orientation: self.orientation, typ },
            ),
            superseded == (if old(tile_map)@.contains_key(self.map_pos) {
                Some(old(tile_map)@[self.map_pos])
            } else {
                None
            }),
    {
        tile_map.tiles.insert(
            self.map_pos,
            PlacedTile { handle, orientation: self.orientation, typ },
        )
    }
}

} // verus!
