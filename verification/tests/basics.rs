use grid_map::coordinate::Coordinate;
use grid_map::decimal::{format_i32, format_u8, parse_i32, parse_u8};
use grid_map::grid::GridIndex;
use grid_map::resources::{TileMapConfig, TileSize};
use grid_map::utils::FileFormat;

#[test]
fn file_format_defaults_to_the_table() {
    assert_eq!(FileFormat::default(), FileFormat::Csv);
}

#[test]
fn file_format_names_and_paths() {
    assert_eq!(FileFormat::Json.name(), "Json");
    assert_eq!(FileFormat::Csv.name(), "Csv");
    assert_eq!(FileFormat::Json.extension(), "json");
    assert_eq!(FileFormat::Csv.extension(), "csv");
    assert_eq!(FileFormat::Csv.file_path("tile_map"), "tile_map.csv");
    assert_eq!(FileFormat::Json.file_path("maps/one"), "maps/one.json");
}

#[test]
fn coordinate_keys_tell_cells_apart() {
    let cells = [
        Coordinate::new(0, 0, 0),
        Coordinate::new(1, 0, 0),
        Coordinate::new(0, 1, 0),
        Coordinate::new(0, 0, 1),
        Coordinate::new(-1, 0, 0),
        Coordinate::new(i32::MIN, i32::MIN, i32::MIN),
        Coordinate::new(i32::MAX, i32::MAX, i32::MAX),
        Coordinate::new(i32::MAX, i32::MIN, 0),
    ];
    for (i, a) in cells.iter().enumerate() {
        for (j, b) in cells.iter().enumerate() {
            assert_eq!(a.key() == b.key(), i == j);
        }
    }
    assert_eq!(Coordinate::new(i32::MIN, i32::MIN, i32::MIN).key(), 0);
    assert_eq!(Coordinate::new(0, 0, 0).key(), (1u128 << 95) + (1u128 << 63) + (1u128 << 31));
}

#[test]
fn coordinate_addition_is_checked() {
    let cell = Coordinate::new(2, 0, 3);
    assert_eq!(cell.checked_add(&Coordinate::new(0, 1, 0)), Some(Coordinate::new(2, 1, 3)));
    assert_eq!(cell.checked_add(&Coordinate::new(-5, -1, -3)), Some(Coordinate::new(-3, -1, 0)));
    assert_eq!(Coordinate::new(i32::MAX, 0, 0).checked_add(&Coordinate::new(1, 0, 0)), None);
    assert_eq!(Coordinate::new(0, i32::MIN, 0).checked_add(&Coordinate::new(0, -1, 0)), None);
    assert_eq!(Coordinate::new(0, 0, i32::MAX).checked_add(&Coordinate::new(0, 0, 1)), None);
    assert_eq!(Coordinate::zero(), Coordinate::new(0, 0, 0));
}

#[test]
fn grid_index_insert_overwrites() {
    let mut index: GridIndex<u64> = GridIndex::new();
    assert!(index.is_empty());
    let cell = Coordinate::new(4, -2, 9);
    assert_eq!(index.insert(cell, 7), None);
    assert_eq!(index.insert(cell, 8), Some(7));
    assert_eq!(index.len(), 1);
    assert_eq!(index.lookup(&cell), Some(&8));
    assert!(index.contains(&cell));
    assert!(!index.contains(&Coordinate::new(4, -2, 8)));
    assert_eq!(index.lookup(&Coordinate::new(-2, 4, 9)), None);
}

#[test]
fn grid_index_remove_of_an_empty_cell_changes_nothing() {
    let mut index: GridIndex<u64> = GridIndex::new();
    index.insert(Coordinate::new(1, 1, 1), 5);
    assert_eq!(index.remove(&Coordinate::new(2, 2, 2)), None);
    assert_eq!(index.len(), 1);
    assert_eq!(index.remove(&Coordinate::new(1, 1, 1)), Some(5));
    assert_eq!(index.len(), 0);
    assert_eq!(index.remove(&Coordinate::new(1, 1, 1)), None);
    assert!(index.is_empty());
}

#[test]
fn grid_index_lists_each_cell_once() {
    let mut index: GridIndex<u64> = GridIndex::new();
    for i in 0..50 {
        index.insert(Coordinate::new(i, -i, i * 2), i as u64);
    }
    index.insert(Coordinate::new(3, -3, 6), 99);
    let mut cells = index.positions();
    assert_eq!(cells.len(), 50);
    cells.sort_by_key(|cell| cell.x);
    for (i, cell) in cells.iter().enumerate() {
        assert_eq!(*cell, Coordinate::new(i as i32, -(i as i32), i as i32 * 2));
    }
    index.clear();
    assert!(index.positions().is_empty());
    assert_eq!(index.len(), 0);
}

#[test]
fn decimal_texts_of_integers() {
    assert_eq!(format_i32(0), "0");
    assert_eq!(format_i32(7), "7");
    assert_eq!(format_i32(-7), "-7");
    assert_eq!(format_i32(1203), "1203");
    assert_eq!(format_i32(i32::MAX), "2147483647");
    assert_eq!(format_i32(i32::MIN), "-2147483648");
    assert_eq!(format_u8(0), "0");
    assert_eq!(format_u8(90), "90");
    assert_eq!(format_u8(255), "255");
}

#[test]
fn decimal_texts_are_read_as_std_reads_them() {
    let texts = [
        "0", "7", "-7", "+7", "007", "-0", "+0", "2147483647", "2147483648", "-2147483648",
        "-2147483649", "", "+", "-", " 1", "1 ", "1.0", "1e3", "0x10", "12a", "--1", "+-1", "255",
        "256", "99999999999999999999999999", "0000000000000000000000000000000000001", "٣",
    ];
    for text in texts {
        assert_eq!(parse_i32(text), text.parse::<i32>().ok(), "i32 from {:?}", text);
        assert_eq!(parse_u8(text), text.parse::<u8>().ok(), "u8 from {:?}", text);
    }
}

#[test]
fn decimal_round_trip() {
    for value in [0, 1, -1, 9, 10, -10, 99, 100, 12345, -98765, i32::MAX, i32::MIN] {
        assert_eq!(parse_i32(&format_i32(value)), Some(value));
    }
    for value in 0..=255u8 {
        assert_eq!(parse_u8(&format_u8(value)), Some(value));
    }
}

#[test]
fn default_config() {
    let config = TileMapConfig::default();
    assert_eq!(config.tile_size, TileSize { x: 1, y: 1, z: 1 });
    assert_eq!(config.source_path, "tile_map");
    assert!(config.load_from_source);
    let steps: Vec<Coordinate> = config.next_tile_dir.iter().map(|entry| entry.1).collect();
    assert_eq!(
        steps,
        vec![
            Coordinate::new(1, 0, 0),
            Coordinate::new(0, 0, 1),
            Coordinate::new(-1, 0, 0),
            Coordinate::new(0, 0, -1),
            Coordinate::new(0, 1, 0),
            Coordinate::new(0, -1, 0),
        ]
    );
    for entry in &config.next_tile_dir {
        assert_eq!(entry.0, entry.1);
    }
    assert_eq!(config.possible_orientations, vec![0, 90, 180, 270]);
}

#[test]
fn config_builders() {
    let config = TileMapConfig::default()
        .with_tile_size(TileSize { x: 16, y: 8, z: 16 })
        .with_source_path("maps/island")
        .fresh_world();
    assert_eq!(config.tile_size, TileSize { x: 16, y: 8, z: 16 });
    assert_eq!(config.source_path, "maps/island");
    assert!(!config.load_from_source);
    assert_eq!(config.next_tile_dir.len(), 6);
    assert_eq!(config.possible_orientations, vec![0, 90, 180, 270]);
    let copy = config.duplicate();
    assert_eq!(copy.tile_size, config.tile_size);
    assert_eq!(copy.source_path, config.source_path);
    assert_eq!(copy.load_from_source, config.load_from_source);
    assert_eq!(copy.next_tile_dir, config.next_tile_dir);
    assert_eq!(copy.possible_orientations, config.possible_orientations);
}
