use vstd::prelude::*;
use crate::codec::{
    document_from_tiles, document_tiles, header_fields, header_row, row_from_tile, rows_tiles,
    tiles_document, tiles_from_document, tiles_from_rows, tiles_rows,
};
use crate::components::{Tile, TileRecord};
use crate::coordinate::Coordinate;
use crate::editor::TileHitBox;
use crate::json::{json_parsed, json_rendered, parse_document, render_document};
use crate::marker_traits::TileTypeAble;
use crate::resources::{Handle, PlacedTile, TileMap, TileMapConfig};
use crate::table::{
    csv_bytes, csv_records, csv_written, finish_writer, new_writer, read_records, texts,
    write_record,
};
use crate::utils::FileFormat;

verus! {

/// The request to read the tiles of a map from its file in one format.
#[derive(Debug, Clone, Copy, PartialEq, Eq, Structural)]
pub struct LoadMapEvent {
    pub format: FileFormat,
}

/// The bytes that a file holds, if there is a file.
pub open spec fn bytes_of(file: Option<Vec<u8>>) -> Option<Seq<u8>> {
    match file {
        Some(data) => Some(data@),
        None => None,
    }
}

/// The tiles that the bytes of a document stand for. Bytes that are no
/// document stand for no tiles.
pub open spec fn json_tiles<T: TileTypeAble>(data: Seq<u8>) -> Seq<TileRecord<T>> {
    match json_parsed(data) {
        Some(document) => document_tiles::<T>(document),
        None => Seq::empty(),
    }
}

/// The tiles that the bytes of a table stand for.
pub open spec fn csv_tiles<T: TileTypeAble>(data: Seq<u8>) -> Seq<TileRecord<T>> {
    rows_tiles::<T>(csv_records(data))
}

impl LoadMapEvent {
    pub fn new(format: FileFormat) -> (event: Self)
        ensures
            event.format == format,
    {
        LoadMapEvent { format }
    }

    /// The path of the file that this request reads.
    pub fn source_file(&self, config: &TileMapConfig) -> (path: String)
        ensures
            path@ == self.format.file_path_spec(config.source_path@),
    {
        self.format.file_path(config.source_path.as_str())
    }

    /// The tiles that this request reads from a file: `file` holds the bytes
    /// of the file, or nothing where there is no such file.
    pub open spec fn loaded<T: TileTypeAble>(self, file: Option<Seq<u8>>) -> Seq<TileRecord<T>> {
        match file {
            None => Seq::empty(),
            Some(data) => match self.format {
                FileFormat::Json => json_tiles::<T>(data),
                FileFormat::Csv => csv_tiles::<T>(data),
            },
        }
    }

    /// Answers the request: reads the tiles from the bytes of the file. A
    /// file that is not there gives no tiles, and so does one that cannot be
    /// read as a whole. Tiles that cannot be read are passed over.
    pub fn on<T: TileTypeAble>(&self, file: Option<&Vec<u8>>) -> (records: Vec<TileRecord<T>>)
        ensures
            records@ == self.loaded::<T>(
                match file {
                    Some(data) => Some(data@),
                    None => None,
                },
            ),
    {
        match file {
            None => Vec::new(),
            Some(data) => match self.format {
                FileFormat::Json => Self::load_json(data),
                FileFormat::Csv => Self::load_csv(data),
            },
        }
    }

    /// Reads the tiles of a map from the bytes of a document.
    pub fn load_json<T: TileTypeAble>(data: &Vec<u8>) -> (records: Vec<TileRecord<T>>)
        ensures
            records@ == json_tiles::<T>(data@),
    {
        match parse_document(data) {
            Some(document) => tiles_from_document(&document),
            None => Vec::new(),
        }
    }

    /// Reads the tiles of a map from the bytes of a table.
    pub fn load_csv<T: TileTypeAble>(data: &Vec<u8>) -> (records: Vec<TileRecord<T>>)
        ensures
            records@ == csv_tiles::<T>(data@),
    {
        let rows = read_records(data);
        tiles_from_rows(&rows)
    }
}

/// The request to write the tiles of a map to its file in one format.
#[derive(Debug, Clone, Copy, PartialEq, Eq, Structural)]
pub struct SaveMapEvent {
    pub format: FileFormat,
}

/// The rows of the table that stands for a list of tiles: the names of the
/// columns, then a row for each tile whose type can be written.
pub open spec fn table_rows<T: TileTypeAble>(records: Seq<TileRecord<T>>) -> Seq<Seq<Seq<char>>> {
    seq![header_row()] + tiles_rows(records)
}

impl SaveMapEvent {
    pub fn new(format: FileFormat) -> (event: Self)
        ensures
            event.format == format,
    {
        SaveMapEvent { format }
    }

    /// The path of the file that this request writes.
    pub fn source_file(&self, config: &TileMapConfig) -> (path: String)
        ensures
            path@ == self.format.file_path_spec(config.source_path@),
    {
        self.format.file_path(config.source_path.as_str())
    }

    /// Whether `data` is what this request writes for the given tiles: the
    /// bytes of their document, or nothing where the document cannot be
    /// written, or the bytes of their table.
    pub open spec fn saves<T: TileTypeAble>(
        self,
        records: Seq<TileRecord<T>>,
        data: Option<Seq<u8>>,
    ) -> bool {
        match self.format {
            FileFormat::Json => data == json_rendered(tiles_document(records)),
            FileFormat::Csv => data == Some(csv_bytes(table_rows(records))),
        }
    }

    /// Answers the request: the bytes to write to the file, for the tiles
    /// that stand on the map now, in some order.
    pub fn on<T: TileTypeAble>(&self, tile_map: &TileMap<T>) -> (data: Option<Vec<u8>>)
        requires
            tile_map.wf(),
        ensures
            exists|records: Seq<TileRecord<T>>|
                crate::resources::lists_tiles(records, tile_map@) && #[trigger] self.saves(
                    records,
                    bytes_of(data),
                ),
    {
        let records = tile_map.records();
        let data = match self.format {
            FileFormat::Json => Self::save_json(&records),
            FileFormat::Csv => Self::save_csv(&records),
        };
        assert(self.saves(records@, bytes_of(data)));
        data
    }

    /// The bytes of the document that stands for the given tiles, or `None`
    /// where the document cannot be written.
    pub fn save_json<T: TileTypeAble>(records: &Vec<TileRecord<T>>) -> (data: Option<Vec<u8>>)
        ensures
            match data {
                Some(bytes) => json_rendered(tiles_document(records@)) == Some(bytes@),
                None => json_rendered(tiles_document(records@)) is None,
            },
    {
        let document = document_from_tiles(records);
        render_document(&document)
    }

    /// The bytes of the table that stands for the given tiles: a row with
    /// the names of the columns, then a row for each tile, but for those
    /// whose type cannot be written.
    pub fn save_csv<T: TileTypeAble>(records: &Vec<TileRecord<T>>) -> (data: Option<Vec<u8>>)
        ensures
            data matches Some(bytes) && bytes@ == csv_bytes(table_rows(records@)),
    {
        let header = header_fields();
        let mut writer = match write_record(new_writer(), &header) {
            Some(writer) => writer,
            None => {
                return None;
            },
        };
        assert(csv_written(writer) =~= seq![header_row()] + tiles_rows(
            records@.subrange(0, 0),
        ));
        let mut i: usize = 0;
        while i < records.len()
            invariant
                i <= records.len(),
                csv_written(writer) == table_rows(records@.subrange(0, i as int)),
                csv_written(writer).len() > 0,
                csv_written(writer)[0].len() == 5,
            decreases records.len() - i,
        {
            proof {
                let next = records@.subrange(0, i + 1);
                assert(next.drop_last() =~= records@.subrange(0, i as int));
                assert(next.last() == records@[i as int]);
            }
            match row_from_tile(&records[i]) {
                Some(fields) => {
                    assert(texts(fields@).len() == 5);
                    writer = match write_record(writer, &fields) {
                        Some(writer) => writer,
                        None => {
                            return None;
                        },
                    };
                    assert(csv_written(writer) =~= table_rows(records@.subrange(0, i + 1)));
                },
                None => {},
            }
            i += 1;
        }
        assert(records@.subrange(0, i as int) =~= records@);
        finish_writer(writer)
    }
}

/// The request to take every tile off a map.
#[derive(Debug, Clone, Copy, PartialEq, Eq, Structural)]
pub struct ClearMapEvent {
    /// Whether a first tile is put at the origin afterwards, so that there
    /// is a surface to go on from.
    pub create_source_tile: bool,
}

/// Whether `surfaces` lists the tiles of a map: each tile once, with its
/// handle and its cell, in any order.
pub open spec fn lists_surfaces<T>(
    surfaces: Seq<TileHitBox>,
    tiles: Map<Coordinate, PlacedTile<T>>,
) -> bool {
    &&& forall|i: int|
        0 <= i < surfaces.len() ==> {
            &&& tiles.contains_key((#[trigger] surfaces[i]).map_pos)
            &&& tiles[surfaces[i].map_pos].handle == surfaces[i].parent
        }
    &&& forall|i: int, j: int|
        0 <= i < j < surfaces.len() ==> (#[trigger] surfaces[i]).map_pos != (
        #[trigger] surfaces[j]).map_pos
    &&& forall|cell: Coordinate| #[trigger]
        tiles.contains_key(cell) ==> exists|i: int|
            0 <= i < surfaces.len() && (#[trigger] surfaces[i]).map_pos == cell
}

impl ClearMapEvent {
    pub fn new() -> (event: Self)
        ensures
            !event.create_source_tile,
    {
        ClearMapEvent { create_source_tile: false }
    }

    pub fn with_source_tile(self) -> (event: Self)
        ensures
            event.create_source_tile,
    {
        ClearMapEvent { create_source_tile: true }
    }

    /// The tiles of a map after this request: none, or the one tile at the
    /// origin, of the default type and in the first orientation, under the
    /// handle `origin`.
    pub open spec fn cleared<T: TileTypeAble>(self, origin: Handle) -> Map<
        Coordinate,
        PlacedTile<T>,
    > {
        if self.create_source_tile {
            Map::<Coordinate, PlacedTile<T>>::empty().insert(
                Coordinate::origin(),
                PlacedTile { handle: origin, orientation: 0, typ: T::default_spec() },
            )
        } else {
            Map::<Coordinate, PlacedTile<T>>::empty()
        }
    }

    /// A request that asks for a first tile leaves one tile, at the origin,
    /// whatever stood on the map before.
    pub proof fn lemma_clear_leaves_origin<T: TileTypeAble>(self, origin: Handle)
        requires
            self.create_source_tile,
        ensures
            self.cleared::<T>(origin).dom() == set![Coordinate::origin()],
            self.cleared::<T>(origin).dom().len() == 1,
            self.cleared::<T>(origin)[Coordinate::origin()] == (PlacedTile {
                handle: origin,
                orientation: 0,
                typ: T::default_spec(),
            }),
    {
        assert(self.cleared::<T>(origin).dom() =~= set![Coordinate::origin()]);
    }

    /// Answers the request: takes every tile off the map and, where the
    /// request says so, puts a first tile at the origin under the handle
    /// `origin`. The tiles that were taken off are handed back, each with
    /// its handle and its cell, for the host to destroy them and the
    /// surfaces they are picked by.
    pub fn on<T: TileTypeAble>(&self, tile_map: &mut TileMap<T>, origin: Handle) -> (destroyed: Vec<
        TileHitBox,
    >)
        requires
            old(tile_map).wf(),
        ensures
            final(tile_map).wf(),
            final(tile_map).config == old(tile_map).config,
            final(tile_map)@ == self.cleared::<T>(origin),
            lists_surfaces(destroyed@, old(tile_map)@),
    {
        let cells = tile_map.tiles.positions();
        let mut destroyed: Vec<TileHitBox> = Vec::new();
        let mut i: usize = 0;
        while i < cells.len()
            invariant
                i <= cells.len(),
                destroyed@.len() == i,
                tile_map@ == old(tile_map)@,
                cells@.no_duplicates(),
                cells@.to_set() == tile_map@.dom(),
                forall|k: int|
                    0 <= k < i ==> {
                        &&& (#[trigger] destroyed@[k]).map_pos == cells@[k]
                        &&& destroyed@[k].parent == tile_map@[cells@[k]].handle
                    },
            decreases cells.len() - i,
        {
            let cell = cells[i];
            assert(cells@.to_set().contains(cell));
            match tile_map.lookup(&cell) {
                Some(handle) => {
                    destroyed.push(TileHitBox { parent: handle, map_pos: cell });
                },
                None => {
                    assert(false);
                },
            }
            i += 1;
        }
        proof {
            assert forall|cell: Coordinate| #[trigger] tile_map@.contains_key(cell) implies exists|
                k: int,
            |
                0 <= k < destroyed@.len() && (#[trigger] destroyed@[k]).map_pos == cell by {
                assert(cells@.to_set().contains(cell));
                let k = choose|k: int| 0 <= k < cells@.len() && cells@[k] == cell;
                assert(destroyed@[k].map_pos == cell);
            }
            assert forall|k: int| 0 <= k < destroyed@.len() implies tile_map@.contains_key(
                (#[trigger] destroyed@[k]).map_pos,
            ) by {
                assert(cells@.to_set().contains(cells@[k]));
            }
        }
        tile_map.tiles.clear();
        if self.create_source_tile {
            let _ = Tile::new(Coordinate::zero(), 0).on_added(origin, T::default_type(), tile_map);
        }
        destroyed
    }
}

} // verus!
