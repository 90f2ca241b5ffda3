use vstd::prelude::*;
use vstd::string::*;
use crate::components::{Tile, TileRecord};
use crate::coordinate::Coordinate;
use crate::decimal::{
    decimal, format_i32, format_u8, lemma_decimal_round_trip, parse_i32, parse_u8, parsed_i32,
    parsed_u8,
};
use crate::json::{
    find_member, json_text, json_text_parsed, parse_text, render_text, JsonModel, JsonValue,
};
use crate::marker_traits::TileTypeAble;
use crate::table::{rows_read, texts};

verus! {

/// The `i32` that a structured value stands for: the value is a number and
/// its text is that of an `i32`.
pub open spec fn number_i32(value: JsonModel) -> Option<i32> {
    match value {
        JsonModel::Number(text) => parsed_i32(text),
        _ => None,
    }
}

/// The `u8` that a structured value stands for.
pub open spec fn number_u8(value: JsonModel) -> Option<u8> {
    match value {
        JsonModel::Number(text) => parsed_u8(text),
        _ => None,
    }
}

/// The cell that a structured value stands for: the value is a list of
/// three numbers, each an `i32`.
pub open spec fn position_of(value: JsonModel) -> Option<Coordinate> {
    match value {
        JsonModel::Array(items) => if items.len() == 3 {
            match (number_i32(items[0]), number_i32(items[1]), number_i32(items[2])) {
                (Some(x), Some(y), Some(z)) => Some(Coordinate { x, y, z }),
                _ => None,
            }
        } else {
            None
        },
        _ => None,
    }
}

/// The tile that an entry of a document stands for: the entry has a cell
/// under `pos`, an orientation under `dir` and a type under `typ`. An entry
/// that lacks one of them, or holds something else there, stands for none.
pub open spec fn entry_tile<T: TileTypeAble>(entry: JsonModel) -> Option<TileRecord<T>> {
    match (entry.member("pos"@), entry.member("dir"@), entry.member("typ"@)) {
        (Some(pos), Some(dir), Some(typ)) => match (
            position_of(pos),
            number_u8(dir),
            T::decoded(typ),
        ) {
            (Some(map_pos), Some(orientation), Some(typ)) => Some(
                TileRecord { tile: Tile { map_pos, orientation }, typ },
            ),
            _ => None,
        },
        _ => None,
    }
}

/// The tiles that the entries of a document stand for, in their order.
/// Entries that stand for no tile are passed over.
pub open spec fn entries_tiles<T: TileTypeAble>(entries: Seq<JsonModel>) -> Seq<TileRecord<T>>
    decreases entries.len(),
{
    if entries.len() == 0 {
        Seq::empty()
    } else {
        let before = entries_tiles::<T>(entries.drop_last());
        match entry_tile::<T>(entries.last()) {
            Some(record) => before.push(record),
            None => before,
        }
    }
}

/// The tiles that a document stands for: those of the entries of the list
/// under `tiles`. A document without such a list stands for no tiles.
pub open spec fn document_tiles<T: TileTypeAble>(document: JsonModel) -> Seq<TileRecord<T>> {
    match document.member("tiles"@) {
        Some(JsonModel::Array(entries)) => entries_tiles::<T>(entries),
        _ => Seq::empty(),
    }
}

/// The structured value that stands for an integer.
pub open spec fn number_value(value: int) -> JsonModel {
    JsonModel::Number(decimal(value))
}

/// The structured value that stands for a cell.
pub open spec fn position_value(cell: Coordinate) -> JsonModel {
    JsonModel::Array(
        seq![number_value(cell.x as int), number_value(cell.y as int), number_value(cell.z as int)],
    )
}

/// The entry that stands for a tile in a document.
pub open spec fn tile_entry<T: TileTypeAble>(record: TileRecord<T>) -> JsonModel {
    JsonModel::Object(
        seq![
            ("dir"@, number_value(record.tile.orientation as int)),
            ("pos"@, position_value(record.tile.map_pos)),
            ("typ"@, record.typ.encoded()),
        ],
    )
}

/// The document that stands for a list of tiles.
pub open spec fn tiles_document<T: TileTypeAble>(records: Seq<TileRecord<T>>) -> JsonModel {
    JsonModel::Object(
        seq![
            (
                "tiles"@,
                JsonModel::Array(records.map_values(|record: TileRecord<T>| tile_entry(record))),
            ),
        ],
    )
}

/// Reads an `i32` from a structured value.
pub fn read_i32(value: &JsonValue) -> (number: Option<i32>)
    ensures
        number == number_i32(value@),
{
    match value.as_number() {
        Some(text) => parse_i32(text.as_str()),
        None => None,
    }
}

/// Reads a `u8` from a structured value.
pub fn read_u8(value: &JsonValue) -> (number: Option<u8>)
    ensures
        number == number_u8(value@),
{
    match value.as_number() {
        Some(text) => parse_u8(text.as_str()),
        None => None,
    }
}

/// Reads a cell from a structured value.
pub fn read_position(value: &JsonValue) -> (cell: Option<Coordinate>)
    ensures
        cell == position_of(value@),
{
    match value.as_array() {
        Some(items) => {
            if items.len() != 3 {
                return None;
            }
            match (read_i32(&items[0]), read_i32(&items[1]), read_i32(&items[2])) {
                (Some(x), Some(y), Some(z)) => Some(Coordinate { x, y, z }),
                _ => None,
            }
        },
        None => None,
    }
}

/// Reads a tile from an entry of a document.
pub fn tile_from_entry<T: TileTypeAble>(entry: &JsonValue) -> (record: Option<TileRecord<T>>)
    ensures
        record == entry_tile::<T>(entry@),
{
    let pos = match entry.get("pos") {
        Some(value) => read_position(value),
        None => None,
    };
    let dir = match entry.get("dir") {
        Some(value) => read_u8(value),
        None => None,
    };
    let typ = match entry.get("typ") {
        Some(value) => T::from_json(value),
        None => None,
    };
    match (pos, dir, typ) {
        (Some(map_pos), Some(orientation), Some(typ)) => Some(
            TileRecord { tile: Tile { map_pos, orientation }, typ },
        ),
        _ => None,
    }
}

/// Reads the tiles of a document. Entries that stand for no tile are passed
/// over, and the others are read all the same.
pub fn tiles_from_document<T: TileTypeAble>(document: &JsonValue) -> (records: Vec<TileRecord<T>>)
    ensures
        records@ == document_tiles::<T>(document@),
{
    let mut records: Vec<TileRecord<T>> = Vec::new();
    let entries = match document.get("tiles") {
        Some(value) => match value.as_array() {
            Some(entries) => entries,
            None => {
                return records;
            },
        },
        None => {
            return records;
        },
    };
    let ghost models = entries@.map_values(|item: JsonValue| item@);
    let mut i: usize = 0;
    while i < entries.len()
        invariant
            i <= entries.len(),
            models == entries@.map_values(|item: JsonValue| item@),
            records@ == entries_tiles::<T>(models.subrange(0, i as int)),
        decreases entries.len() - i,
    {
        proof {
            let next = models.subrange(0, i + 1);
            assert(next.drop_last() =~= models.subrange(0, i as int));
            assert(next.last() == entries@[i as int]@);
        }
        match tile_from_entry::<T>(&entries[i]) {
            Some(record) => {
                records.push(record);
            },
            None => {},
        }
        i += 1;
    }
    assert(models.subrange(0, i as int) =~= models);
    records
}

/// The structured value that stands for a cell.
pub fn position_to_value(cell: &Coordinate) -> (value: JsonValue)
    ensures
        value@ == position_value(*cell),
{
    let mut items: Vec<JsonValue> = Vec::new();
    items.push(JsonValue::Number(format_i32(cell.x)));
    items.push(JsonValue::Number(format_i32(cell.y)));
    items.push(JsonValue::Number(format_i32(cell.z)));
    assert(items@[0]@ == number_value(cell.x as int));
    assert(items@[1]@ == number_value(cell.y as int));
    assert(items@[2]@ == number_value(cell.z as int));
    let value = JsonValue::Array(items);
    assert(value@->Array_0 =~= position_value(*cell)->Array_0);
    value
}

/// The entry that stands for a tile in a document.
pub fn entry_from_tile<T: TileTypeAble>(record: &TileRecord<T>) -> (entry: JsonValue)
    ensures
        entry@ == tile_entry(*record),
{
    let mut members: Vec<(String, JsonValue)> = Vec::new();
    members.push(
        (String::from_str("dir"), JsonValue::Number(format_u8(record.tile.orientation))),
    );
    members.push((String::from_str("pos"), position_to_value(&record.tile.map_pos)));
    members.push((String::from_str("typ"), record.typ.to_json()));
    assert(members@[0].1@ == number_value(record.tile.orientation as int));
    assert(members@[1].1@ == position_value(record.tile.map_pos));
    assert(members@[2].1@ == record.typ.encoded());
    let entry = JsonValue::Object(members);
    assert(entry@->Object_0 =~= tile_entry(*record)->Object_0);
    entry
}

/// The document that stands for a list of tiles.
pub fn document_from_tiles<T: TileTypeAble>(records: &Vec<TileRecord<T>>) -> (document: JsonValue)
    ensures
        document@ == tiles_document(records@),
{
    let mut entries: Vec<JsonValue> = Vec::new();
    let mut i: usize = 0;
    while i < records.len()
        invariant
            i <= records.len(),
            entries@.len() == i,
            forall|k: int| 0 <= k < i ==> (#[trigger] entries@[k])@ == tile_entry(records@[k]),
        decreases records.len() - i,
    {
        entries.push(entry_from_tile(&records[i]));
        i += 1;
    }
    let list = JsonValue::Array(entries);
    assert(list@->Array_0 =~= records@.map_values(|record: TileRecord<T>| tile_entry(record)));
    let mut members: Vec<(String, JsonValue)> = Vec::new();
    members.push((String::from_str("tiles"), list));
    let document = JsonValue::Object(members);
    assert(document@->Object_0 =~= tiles_document(records@)->Object_0);
    document
}

/// Whether a tile type comes back from the structured value that stands
/// for it.
pub open spec fn type_round_trips<T: TileTypeAble>(typ: T) -> bool {
    T::decoded(typ.encoded()) == Some(typ)
}

/// The cell that the structured value of a cell stands for is that cell.
pub proof fn lemma_position_round_trip(cell: Coordinate)
    ensures
        position_of(position_value(cell)) == Some(cell),
{
    lemma_decimal_round_trip(cell.x as int, true);
    lemma_decimal_round_trip(cell.y as int, true);
    lemma_decimal_round_trip(cell.z as int, true);
}

/// The tile that the entry of a tile stands for is that tile, where the
/// tile's type comes back from its structured value.
pub proof fn lemma_entry_round_trip<T: TileTypeAble>(record: TileRecord<T>)
    requires
        type_round_trips(record.typ),
    ensures
        entry_tile::<T>(tile_entry(record)) == Some(record),
{
    reveal_strlit("dir");
    reveal_strlit("pos");
    reveal_strlit("typ");
    reveal_with_fuel(find_member, 4);
    let members = tile_entry(record)->Object_0;
    assert("dir"@[0] != "pos"@[0]);
    assert("dir"@[0] != "typ"@[0]);
    assert("pos"@[0] != "typ"@[0]);
    assert(members.drop_first()[0] == members[1]);
    assert(members.drop_first().drop_first()[0] == members[2]);
    assert(find_member(members, "dir"@) == Some(members[0].1));
    assert(find_member(members, "pos"@) == Some(members[1].1));
    assert(find_member(members, "typ"@) == Some(members[2].1));
    lemma_position_round_trip(record.tile.map_pos);
    lemma_decimal_round_trip(record.tile.orientation as int, false);
}

/// The tiles that the entries of a list of tiles stand for are those tiles.
pub proof fn lemma_entries_round_trip<T: TileTypeAble>(records: Seq<TileRecord<T>>)
    requires
        forall|i: int| 0 <= i < records.len() ==> type_round_trips(#[trigger] records[i].typ),
    ensures
        entries_tiles::<T>(records.map_values(|record: TileRecord<T>| tile_entry(record)))
            == records,
    decreases records.len(),
{
    let entries = records.map_values(|record: TileRecord<T>| tile_entry(record));
    if records.len() == 0 {
        assert(entries_tiles::<T>(entries) =~= records);
    } else {
        let before = records.drop_last();
        assert forall|i: int| 0 <= i < before.len() implies type_round_trips(
            #[trigger] before[i].typ,
        ) by {
            assert(before[i] == records[i]);
        }
        lemma_entries_round_trip(before);
        assert(entries.drop_last() =~= before.map_values(
            |record: TileRecord<T>| tile_entry(record),
        ));
        assert(type_round_trips(records[records.len() - 1].typ));
        lemma_entry_round_trip(records.last());
        assert(entries.last() == tile_entry(records.last()));
        assert(before.push(records.last()) =~= records);
    }
}

/// Reading the document of a list of tiles gives the list back, tile by
/// tile with cell, orientation and type, where the type of each tile comes
/// back from its structured value.
pub proof fn lemma_document_round_trip<T: TileTypeAble>(records: Seq<TileRecord<T>>)
    requires
        forall|i: int| 0 <= i < records.len() ==> type_round_trips(#[trigger] records[i].typ),
    ensures
        document_tiles::<T>(tiles_document(records)) == records,
{
    reveal_with_fuel(find_member, 2);
    lemma_entries_round_trip(records);
}

/// The tile type that the text of a field stands for: the text is that of
/// a structured value, and the value stands for a type.
pub open spec fn decoded_field<T: TileTypeAble>(text: Seq<char>) -> Option<T> {
    match json_text_parsed(text) {
        Some(value) => T::decoded(value),
        None => None,
    }
}

/// The text that stands for a tile type in a field: that of its structured
/// value, if the value can be written.
pub open spec fn encoded_field<T: TileTypeAble>(typ: T) -> Option<Seq<char>> {
    json_text(typ.encoded())
}

/// The tile that a row of a table stands for: the first three fields hold
/// the cell, the fourth the orientation and the fifth the type. A row with
/// fewer fields, or with a field that cannot be read, stands for none.
pub open spec fn row_tile<T: TileTypeAble>(fields: Seq<Seq<char>>) -> Option<TileRecord<T>> {
    if fields.len() < 5 {
        None
    } else {
        match (
            parsed_i32(fields[0]),
            parsed_i32(fields[1]),
            parsed_i32(fields[2]),
            parsed_u8(fields[3]),
            decoded_field::<T>(fields[4]),
        ) {
            (Some(x), Some(y), Some(z), Some(orientation), Some(typ)) => Some(
                TileRecord { tile: Tile { map_pos: Coordinate { x, y, z }, orientation }, typ },
            ),
            _ => None,
        }
    }
}

/// The tiles that the rows of a table stand for, in their order. Rows that
/// could not be read and rows that stand for no tile are passed over.
pub open spec fn rows_tiles<T: TileTypeAble>(rows: Seq<Option<Seq<Seq<char>>>>) -> Seq<
    TileRecord<T>,
>
    decreases rows.len(),
{
    if rows.len() == 0 {
        Seq::empty()
    } else {
        let before = rows_tiles::<T>(rows.drop_last());
        match rows.last() {
            Some(fields) => match row_tile::<T>(fields) {
                Some(record) => before.push(record),
                None => before,
            },
            None => before,
        }
    }
}

/// The first row of a table: the names of the columns.
pub open spec fn header_row() -> Seq<Seq<char>> {
    seq!["x"@, "y"@, "z"@, "dir"@, "typ"@]
}

/// The row that stands for a tile, if the tile's type can be written.
pub open spec fn tile_row<T: TileTypeAble>(record: TileRecord<T>) -> Option<Seq<Seq<char>>> {
    match encoded_field(record.typ) {
        Some(typ) => Some(
            seq![
                decimal(record.tile.map_pos.x as int),
                decimal(record.tile.map_pos.y as int),
                decimal(record.tile.map_pos.z as int),
                decimal(record.tile.orientation as int),
                typ,
            ],
        ),
        None => None,
    }
}

/// The rows that stand for a list of tiles, in their order. Tiles whose
/// type cannot be written are passed over.
pub open spec fn tiles_rows<T: TileTypeAble>(records: Seq<TileRecord<T>>) -> Seq<Seq<Seq<char>>>
    decreases records.len(),
{
    if records.len() == 0 {
        Seq::empty()
    } else {
        let before = tiles_rows(records.drop_last());
        match tile_row(records.last()) {
            Some(row) => before.push(row),
            None => before,
        }
    }
}

/// Reads a tile type from the text of a field.
pub fn decode_type_field<T: TileTypeAble>(text: &str) -> (typ: Option<T>)
    ensures
        typ == decoded_field::<T>(text@),
{
    match parse_text(text) {
        Some(value) => T::from_json(&value),
        None => None,
    }
}

/// Writes a tile type as the text of a field.
pub fn encode_type_field<T: TileTypeAble>(typ: &T) -> (text: Option<String>)
    ensures
        match text {
            Some(text) => encoded_field(*typ) == Some(text@),
            None => encoded_field(*typ) is None,
        },
{
    let value = typ.to_json();
    render_text(&value)
}

/// Reads a tile from the fields of a row.
pub fn tile_from_row<T: TileTypeAble>(fields: &Vec<String>) -> (record: Option<TileRecord<T>>)
    ensures
        record == row_tile::<T>(texts(fields@)),
{
    if fields.len() < 5 {
        return None;
    }
    let x = parse_i32(fields[0].as_str());
    let y = parse_i32(fields[1].as_str());
    let z = parse_i32(fields[2].as_str());
    let dir = parse_u8(fields[3].as_str());
    let typ = decode_type_field::<T>(fields[4].as_str());
    match (x, y, z, dir, typ) {
        (Some(x), Some(y), Some(z), Some(orientation), Some(typ)) => Some(
            TileRecord { tile: Tile { map_pos: Coordinate { x, y, z }, orientation }, typ },
        ),
        _ => None,
    }
}

/// Reads the tiles of the rows of a table. A row that could not be read, or
/// that stands for no tile, is passed over, and the others are read all the
/// same.
pub fn tiles_from_rows<T: TileTypeAble>(rows: &Vec<Option<Vec<String>>>) -> (records: Vec<
    TileRecord<T>,
>)
    ensures
        records@ == rows_tiles::<T>(rows_read(rows@)),
{
    let mut records: Vec<TileRecord<T>> = Vec::new();
    let ghost models = rows_read(rows@);
    let mut i: usize = 0;
    while i < rows.len()
        invariant
            i <= rows.len(),
            models == rows_read(rows@),
            records@ == rows_tiles::<T>(models.subrange(0, i as int)),
        decreases rows.len() - i,
    {
        proof {
            let next = models.subrange(0, i + 1);
            assert(next.drop_last() =~= models.subrange(0, i as int));
            assert(next.last() == models[i as int]);
        }
        match &rows[i] {
            Some(fields) => match tile_from_row::<T>(fields) {
                Some(record) => {
                    records.push(record);
                },
                None => {},
            },
            None => {},
        }
        i += 1;
    }
    assert(models.subrange(0, i as int) =~= models);
    records
}

/// The first row of a table: the names of the columns.
pub fn header_fields() -> (fields: Vec<String>)
    ensures
        texts(fields@) == header_row(),
{
    let mut fields: Vec<String> = Vec::new();
    fields.push(String::from_str("x"));
    fields.push(String::from_str("y"));
    fields.push(String::from_str("z"));
    fields.push(String::from_str("dir"));
    fields.push(String::from_str("typ"));
    assert(texts(fields@) =~= header_row());
    fields
}

/// The fields of the row that stands for a tile, or `None` where the tile's
/// type cannot be written.
pub fn row_from_tile<T: TileTypeAble>(record: &TileRecord<T>) -> (fields: Option<Vec<String>>)
    ensures
        match fields {
            Some(fields) => tile_row(*record) == Some(texts(fields@)),
            None => tile_row(*record) is None,
        },
{
    match encode_type_field(&record.typ) {
        Some(typ) => {
            let mut fields: Vec<String> = Vec::new();
            fields.push(format_i32(record.tile.map_pos.x));
            fields.push(format_i32(record.tile.map_pos.y));
            fields.push(format_i32(record.tile.map_pos.z));
            fields.push(format_u8(record.tile.orientation));
            fields.push(typ);
            assert(texts(fields@) =~= tile_row(*record).unwrap());
            Some(fields)
        },
        None => None,
    }
}

/// Whether a tile type comes back from the text that stands for it in a
/// field.
pub open spec fn field_round_trips<T: TileTypeAble>(typ: T) -> bool {
    match encoded_field(typ) {
        Some(text) => decoded_field::<T>(text) == Some(typ),
        None => false,
    }
}

/// The tile that the row of a tile stands for is that tile, where the
/// tile's type comes back from its text: the numbers are written as
/// decimal integers and read back as such.
pub proof fn lemma_row_round_trip<T: TileTypeAble>(record: TileRecord<T>)
    requires
        field_round_trips(record.typ),
    ensures
        tile_row(record) matches Some(fields) && row_tile::<T>(fields) == Some(record),
{
    lemma_decimal_round_trip(record.tile.map_pos.x as int, true);
    lemma_decimal_round_trip(record.tile.map_pos.y as int, true);
    lemma_decimal_round_trip(record.tile.map_pos.z as int, true);
    lemma_decimal_round_trip(record.tile.orientation as int, false);
}

/// Reading the rows of a list of tiles gives the list back, tile by tile
/// with cell, orientation and type, where the type of each tile comes back
/// from its text.
pub proof fn lemma_rows_round_trip<T: TileTypeAble>(records: Seq<TileRecord<T>>)
    requires
        forall|i: int| 0 <= i < records.len() ==> field_round_trips(#[trigger] records[i].typ),
    ensures
        rows_tiles::<T>(
            tiles_rows(records).map_values(|row: Seq<Seq<char>>| Some(row)),
        ) == records,
        tiles_rows(records).len() == records.len(),
    decreases records.len(),
{
    let rows = tiles_rows(records).map_values(|row: Seq<Seq<char>>| Some(row));
    if records.len() == 0 {
        assert(rows_tiles::<T>(rows) =~= records);
    } else {
        let before = records.drop_last();
        assert forall|i: int| 0 <= i < before.len() implies field_round_trips(
            #[trigger] before[i].typ,
        ) by {
            assert(before[i] == records[i]);
        }
        lemma_rows_round_trip(before);
        assert(field_round_trips(records[records.len() - 1].typ));
        lemma_row_round_trip(records.last());
        assert(rows.drop_last() =~= tiles_rows(before).map_values(
            |row: Seq<Seq<char>>| Some(row),
        ));
        assert(before.push(records.last()) =~= records);
    }
}

} // verus!
