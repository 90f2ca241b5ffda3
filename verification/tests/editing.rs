use grid_map::components::Tile;
use grid_map::coordinate::Coordinate;
use grid_map::editor::{
    add_tile_map_hit_box, attach_position, nearest_direction, EditOutcome, EditorMode,
    EditorPanel, HitBoxPlacement, MapRequest, TileHitBox, TileMapEditor, TileMapEditorPlugin,
    TilePick, UiInput,
};
use grid_map::events::{ClearMapEvent, LoadMapEvent, SaveMapEvent};
use grid_map::json::JsonValue;
use grid_map::marker_traits::TileTypeAble;
use grid_map::resources::{TileMap, TileMapConfig, TileSize};
use grid_map::utils::FileFormat;

#[derive(Debug, Clone, Copy, PartialEq, Eq)]
enum Ground {
    Grass,
    Stone,
    Oil,
}

impl TileTypeAble for Ground {
    fn default_type() -> Self {
        Ground::Grass
    }

    fn clone_type(&self) -> Self {
        *self
    }

    fn to_json(&self) -> JsonValue {
        JsonValue::Text(format!("{:?}", self))
    }

    fn from_json(value: &JsonValue) -> Option<Self> {
        match value {
            JsonValue::Text(name) if name == "Grass" => Some(Ground::Grass),
            JsonValue::Text(name) if name == "Stone" => Some(Ground::Stone),
            JsonValue::Text(name) if name == "Oil" => Some(Ground::Oil),
            _ => None,
        }
    }
}

fn angle(direction: &Coordinate, normal: (f32, f32, f32)) -> u32 {
    let d = (direction.x as f32, direction.y as f32, direction.z as f32);
    let dot = d.0 * normal.0 + d.1 * normal.1 + d.2 * normal.2;
    let lengths = (d.0 * d.0 + d.1 * d.1 + d.2 * d.2).sqrt()
        * (normal.0 * normal.0 + normal.1 * normal.1 + normal.2 * normal.2).sqrt();
    (dot / lengths).clamp(-1.0, 1.0).acos().to_bits()
}

fn pick(tile_map: &TileMap<Ground>, parent: u64, cell: Coordinate, normal: (f32, f32, f32)) -> TilePick {
    TilePick {
        hit_box: TileHitBox { parent, map_pos: cell },
        angles: tile_map.config.next_tile_dir.iter().map(|entry| angle(&entry.0, normal)).collect(),
    }
}

fn editor(mode: EditorMode, typ: Ground, orientation: usize) -> TileMapEditor<Ground> {
    let mut editor = TileMapEditor::<Ground>::default();
    editor.mode = mode;
    editor.selected_tile_type = typ;
    editor.random_orientation = false;
    editor.selected_orientation = orientation;
    editor
}

fn map_with_origin() -> TileMap<Ground> {
    let mut tile_map = TileMap::new(TileMapConfig::default());
    assert!(TileMapEditor::<Ground>::setup(&mut tile_map, 1).is_none());
    tile_map
}

#[test]
fn editor_starts_painting_at_random() {
    let editor = TileMapEditor::<Ground>::default();
    assert_eq!(editor.mode, EditorMode::Paint);
    assert_eq!(editor.selected_tile_type, Ground::Grass);
    assert!(editor.random_orientation);
    assert_eq!(editor.selected_orientation, 0);
    assert!(!editor.show_tile_hit_box);
    let built = TileMapEditorPlugin::default().build::<Ground>();
    assert_eq!(built.mode, EditorMode::Paint);
    assert!(built.random_orientation);
}

#[test]
fn setup_puts_the_first_tile_at_the_origin() {
    let tile_map = map_with_origin();
    assert_eq!(tile_map.len(), 1);
    let placed = tile_map.tiles.lookup(&Coordinate::zero()).unwrap();
    assert_eq!(placed.handle, 1);
    assert_eq!(placed.orientation, 0);
    assert_eq!(placed.typ, Ground::Grass);
    assert_eq!(tile_map.lookup(&Coordinate::zero()), Some(1));
    assert_eq!(tile_map.lookup(&Coordinate::new(0, 1, 0)), None);
}

#[test]
fn nearest_direction_takes_the_first_of_the_least() {
    assert_eq!(nearest_direction(&vec![]), None);
    assert_eq!(nearest_direction(&vec![5]), Some(0));
    assert_eq!(nearest_direction(&vec![5, 3, 9]), Some(1));
    assert_eq!(nearest_direction(&vec![5, 3, 3, 9, 3]), Some(1));
    assert_eq!(nearest_direction(&vec![2, 2, 2]), Some(0));
    assert_eq!(nearest_direction(&vec![u32::MAX, 7, 0]), Some(2));
}

#[test]
fn attach_position_moves_by_the_nearest_step() {
    let config = TileMapConfig::default();
    let hit = Coordinate::new(2, 0, 3);
    assert_eq!(
        attach_position(&config.next_tile_dir, &hit, &vec![9, 9, 9, 2, 9, 9]),
        Some(Coordinate::new(2, 0, 2))
    );
    assert_eq!(attach_position(&config.next_tile_dir, &hit, &vec![9, 9, 9]), None);
    assert_eq!(attach_position(&vec![], &hit, &vec![]), None);
    let edge = Coordinate::new(i32::MAX, 0, 0);
    assert_eq!(attach_position(&config.next_tile_dir, &edge, &vec![0, 1, 1, 1, 1, 1]), None);
    assert_eq!(
        attach_position(&config.next_tile_dir, &edge, &vec![1, 1, 0, 1, 1, 1]),
        Some(Coordinate::new(i32::MAX - 1, 0, 0))
    );
}

#[test]
fn attach_puts_a_tile_on_the_side_that_was_hit() {
    let mut tile_map: TileMap<Ground> = TileMap::new(TileMapConfig::default());
    let hit = Coordinate::new(2, 0, 3);
    Tile::new(hit, 0).on_added(10, Ground::Grass, &mut tile_map);
    let editor = editor(EditorMode::Attach, Ground::Stone, 3);
    let pick = pick(&tile_map, 10, hit, (0.0, 1.0, 0.0));
    let outcome = editor.apply_pick(&mut tile_map, &pick, 0, 11);
    let target = Coordinate::new(2, 1, 3);
    assert_eq!(
        outcome,
        EditOutcome::Attached { handle: 11, tile: Tile::new(target, 3), superseded: None }
    );
    assert_eq!(tile_map.len(), 2);
    let placed = tile_map.tiles.lookup(&target).unwrap();
    assert_eq!((placed.handle, placed.orientation, placed.typ), (11, 3, Ground::Stone));
    let kept = tile_map.tiles.lookup(&hit).unwrap();
    assert_eq!((kept.handle, kept.orientation, kept.typ), (10, 0, Ground::Grass));
}

#[test]
fn attach_keeps_the_first_neighbour_where_two_are_as_near() {
    let mut tile_map = map_with_origin();
    let editor = editor(EditorMode::Attach, Ground::Oil, 0);
    let pick = pick(&tile_map, 1, Coordinate::zero(), (1.0, 0.0, 1.0));
    assert_eq!(pick.angles[0], pick.angles[1]);
    let outcome = editor.apply_pick(&mut tile_map, &pick, 0, 2);
    assert_eq!(
        outcome,
        EditOutcome::Attached {
            handle: 2,
            tile: Tile::new(Coordinate::new(1, 0, 0), 0),
            superseded: None
        }
    );
}

#[test]
fn attach_on_an_occupied_cell_supersedes() {
    let mut tile_map = map_with_origin();
    Tile::new(Coordinate::new(0, -1, 0), 2).on_added(5, Ground::Oil, &mut tile_map);
    let editor = editor(EditorMode::Attach, Ground::Stone, 1);
    let pick = pick(&tile_map, 1, Coordinate::zero(), (0.0, -1.0, 0.0));
    let outcome = editor.apply_pick(&mut tile_map, &pick, 0, 6);
    assert_eq!(
        outcome,
        EditOutcome::Attached {
            handle: 6,
            tile: Tile::new(Coordinate::new(0, -1, 0), 1),
            superseded: Some(5)
        }
    );
    assert_eq!(tile_map.len(), 2);
    assert_eq!(tile_map.lookup(&Coordinate::new(0, -1, 0)), Some(6));
}

#[test]
fn attach_without_a_cell_does_nothing() {
    let mut tile_map = map_with_origin();
    let editor = editor(EditorMode::Attach, Ground::Stone, 1);
    let no_angles = TilePick {
        hit_box: TileHitBox { parent: 1, map_pos: Coordinate::zero() },
        angles: vec![],
    };
    assert_eq!(editor.apply_pick(&mut tile_map, &no_angles, 0, 2), EditOutcome::Nothing);
    assert_eq!(tile_map.len(), 1);
}

#[test]
fn paint_replaces_in_place_and_the_last_stroke_wins() {
    let mut tile_map = map_with_origin();
    let origin = Coordinate::zero();
    let strokes = [(Ground::Stone, 1usize), (Ground::Oil, 3), (Ground::Grass, 2), (Ground::Oil, 0)];
    for (n, (typ, orientation)) in strokes.iter().enumerate() {
        let editor = editor(EditorMode::Paint, *typ, *orientation);
        let pick = pick(&tile_map, 1, origin, (0.0, 1.0, 0.0));
        let outcome = editor.apply_pick(&mut tile_map, &pick, 77, 100 + n as u64);
        assert_eq!(
            outcome,
            EditOutcome::Painted { handle: 1, tile: Tile::new(origin, *orientation as u8) }
        );
        assert_eq!(tile_map.len(), 1);
        let placed = tile_map.tiles.lookup(&origin).unwrap();
        assert_eq!((placed.handle, placed.orientation, placed.typ), (1, *orientation as u8, *typ));
    }
}

#[test]
fn paint_on_an_empty_cell_takes_the_fresh_handle() {
    let mut tile_map = map_with_origin();
    let cell = Coordinate::new(5, 5, 5);
    let editor = editor(EditorMode::Paint, Ground::Stone, 2);
    let pick = pick(&tile_map, 9, cell, (0.0, 1.0, 0.0));
    let outcome = editor.apply_pick(&mut tile_map, &pick, 0, 42);
    assert_eq!(outcome, EditOutcome::Painted { handle: 42, tile: Tile::new(cell, 2) });
    assert_eq!(tile_map.len(), 2);
}

#[test]
fn erase_takes_the_tile_away() {
    let mut tile_map = map_with_origin();
    let editor = editor(EditorMode::Erase, Ground::Stone, 0);
    let pick = pick(&tile_map, 1, Coordinate::zero(), (0.0, 1.0, 0.0));
    let outcome = editor.apply_pick(&mut tile_map, &pick, 0, 2);
    assert_eq!(outcome, EditOutcome::Erased { handle: 1, map_pos: Coordinate::zero() });
    assert_eq!(tile_map.len(), 0);
    assert_eq!(tile_map.lookup(&Coordinate::zero()), None);
}

#[test]
fn erase_on_an_empty_cell_is_a_no_op() {
    let mut tile_map = map_with_origin();
    let editor = editor(EditorMode::Erase, Ground::Stone, 0);
    let pick = pick(&tile_map, 9, Coordinate::new(3, 3, 3), (0.0, 1.0, 0.0));
    assert_eq!(editor.apply_pick(&mut tile_map, &pick, 0, 2), EditOutcome::Nothing);
    assert_eq!(tile_map.len(), 1);
    assert_eq!(tile_map.lookup(&Coordinate::zero()), Some(1));
    assert!(tile_map.despawn(&Coordinate::new(3, 3, 3)).is_none());
    assert_eq!(tile_map.len(), 1);
}

#[test]
fn orientation_is_drawn_or_selected() {
    let mut editor = TileMapEditor::<Ground>::default();
    assert_eq!(editor.choose_orientation(4, 0), Some(0));
    assert_eq!(editor.choose_orientation(4, 7), Some(3));
    assert_eq!(editor.choose_orientation(4, 255), Some(3));
    assert_eq!(editor.choose_orientation(1, 200), Some(0));
    assert_eq!(editor.choose_orientation(255, 255), Some(0));
    assert_eq!(editor.choose_orientation(256, 255), Some(255));
    assert_eq!(editor.choose_orientation(1000, 200), Some(200));
    assert_eq!(editor.choose_orientation(0, 9), None);
    editor.random_orientation = false;
    editor.selected_orientation = 2;
    assert_eq!(editor.choose_orientation(4, 7), Some(2));
    assert_eq!(editor.choose_orientation(0, 7), Some(2));
    editor.selected_orientation = 255;
    assert_eq!(editor.choose_orientation(4, 7), Some(255));
    editor.selected_orientation = 256;
    assert_eq!(editor.choose_orientation(4, 7), None);
}

#[test]
fn paint_without_an_orientation_does_nothing() {
    let mut tile_map = map_with_origin();
    let editor = editor(EditorMode::Paint, Ground::Stone, 300);
    let pick = pick(&tile_map, 1, Coordinate::zero(), (0.0, 1.0, 0.0));
    assert_eq!(editor.apply_pick(&mut tile_map, &pick, 0, 2), EditOutcome::Nothing);
    assert_eq!(tile_map.tiles.lookup(&Coordinate::zero()).unwrap().typ, Ground::Grass);
}

#[test]
fn only_a_primary_press_on_a_tile_edits() {
    let mut tile_map = map_with_origin();
    let editor = editor(EditorMode::Erase, Ground::Stone, 0);
    let pick = pick(&tile_map, 1, Coordinate::zero(), (0.0, 1.0, 0.0));
    assert_eq!(editor.user_input_system(&mut tile_map, false, Some(&pick), 2), EditOutcome::Nothing);
    assert_eq!(editor.user_input_system(&mut tile_map, true, None, 2), EditOutcome::Nothing);
    assert_eq!(tile_map.len(), 1);
    assert_eq!(
        editor.user_input_system(&mut tile_map, true, Some(&pick), 2),
        EditOutcome::Erased { handle: 1, map_pos: Coordinate::zero() }
    );
    assert_eq!(tile_map.len(), 0);
}

#[test]
fn random_orientations_stay_within_the_configured_ones() {
    let mut tile_map = map_with_origin();
    let mut editor = TileMapEditor::<Ground>::default();
    editor.selected_tile_type = Ground::Stone;
    let mut seen = [false; 4];
    for _ in 0..400 {
        let pick = pick(&tile_map, 1, Coordinate::zero(), (0.0, 1.0, 0.0));
        match editor.user_input_system(&mut tile_map, true, Some(&pick), 2) {
            EditOutcome::Painted { handle, tile } => {
                assert_eq!(handle, 1);
                assert_eq!(tile.map_pos, Coordinate::zero());
                assert!(tile.orientation < 4);
                seen[tile.orientation as usize] = true;
            }
            other => panic!("painted nothing: {:?}", other),
        }
    }
    assert_eq!(seen, [true; 4]);
}

#[test]
fn update_shows_or_hides_every_surface() {
    let mut editor = TileMapEditor::<Ground>::default();
    let mut shown = vec![true, false, true];
    editor.update(&mut shown);
    assert_eq!(shown, vec![false, false, false]);
    editor.show_tile_hit_box = true;
    editor.update(&mut shown);
    assert_eq!(shown, vec![true, true, true]);
    let mut none: Vec<bool> = vec![];
    editor.update(&mut none);
    assert!(none.is_empty());
}

#[test]
fn hit_box_stands_where_the_tile_stands() {
    let config = TileMapConfig::default().with_tile_size(TileSize { x: 16, y: 8, z: 16 });
    let mut editor = TileMapEditor::<Ground>::default();
    let tile = Tile::new(Coordinate::new(2, -3, 0), 1);
    assert_eq!(
        add_tile_map_hit_box(7, &tile, &config, &editor),
        HitBoxPlacement {
            hit_box: TileHitBox { parent: 7, map_pos: Coordinate::new(2, -3, 0) },
            translation: (32, -24, 0),
            size: TileSize { x: 16, y: 8, z: 16 },
            shown: false,
        }
    );
    editor.show_tile_hit_box = true;
    let far = Tile::new(Coordinate::new(i32::MIN, i32::MAX, 1), 0);
    let big = TileMapConfig::default().with_tile_size(TileSize { x: u32::MAX, y: u32::MAX, z: 0 });
    let placement = add_tile_map_hit_box(8, &far, &big, &editor);
    assert_eq!(
        placement.translation,
        (i32::MIN as i64 * u32::MAX as i64, i32::MAX as i64 * u32::MAX as i64, 0)
    );
    assert!(placement.shown);
}

#[test]
fn panel_takes_in_what_the_user_does() {
    let tile_map = map_with_origin();
    let mut editor = TileMapEditor::<Ground>::default();
    let (panel, request) = editor.ui_system(&tile_map, None);
    assert_eq!(request, None);
    assert_eq!(
        panel,
        EditorPanel {
            mode: EditorMode::Paint,
            show_tile_hit_box: false,
            random_orientation: true,
            selected_orientation: 0,
            orientation_range: None,
            tiles_placed: 1,
            tile_size: TileSize { x: 1, y: 1, z: 1 },
        }
    );
    let (panel, _) = editor.ui_system(&tile_map, Some(UiInput::Orientation(2)));
    assert_eq!(panel.selected_orientation, 0);
    let (panel, request) = editor.ui_system(&tile_map, Some(UiInput::RandomOrientation(false)));
    assert_eq!(request, None);
    assert_eq!(panel.orientation_range, Some((0, 3)));
    let (panel, _) = editor.ui_system(&tile_map, Some(UiInput::Orientation(2)));
    assert_eq!(panel.selected_orientation, 2);
    let (panel, _) = editor.ui_system(&tile_map, Some(UiInput::Orientation(9)));
    assert_eq!(panel.selected_orientation, 3);
    let (panel, _) = editor.ui_system(&tile_map, Some(UiInput::Mode(EditorMode::Attach)));
    assert_eq!(panel.mode, EditorMode::Attach);
    let (panel, _) = editor.ui_system(&tile_map, Some(UiInput::ShowTileBox(true)));
    assert!(panel.show_tile_hit_box);
    let (_, request) = editor.ui_system(&tile_map, Some(UiInput::TileType(Ground::Oil)));
    assert_eq!(request, None);
    assert_eq!(editor.selected_tile_type, Ground::Oil);
    assert_eq!(editor.mode, EditorMode::Attach);
    assert_eq!(editor.selected_orientation, 3);
    assert!(editor.show_tile_hit_box);
}

#[test]
fn panel_buttons_make_requests() {
    let tile_map = map_with_origin();
    let mut editor = TileMapEditor::<Ground>::default();
    let (_, request) = editor.ui_system(&tile_map, Some(UiInput::ClearMap));
    assert_eq!(request, Some(MapRequest::Clear(ClearMapEvent::new().with_source_tile())));
    let (_, request) = editor.ui_system(&tile_map, Some(UiInput::SaveMap));
    assert_eq!(request, Some(MapRequest::Save(SaveMapEvent::new(FileFormat::Csv))));
    let (_, request) = editor.ui_system(&tile_map, Some(UiInput::LoadMap));
    assert_eq!(request, Some(MapRequest::Load(LoadMapEvent::new(FileFormat::Csv))));
    assert_eq!(editor.mode, EditorMode::Paint);
}

#[test]
fn panel_offers_no_slider_without_orientations() {
    let mut config = TileMapConfig::default();
    config.possible_orientations.clear();
    let tile_map: TileMap<Ground> = TileMap::new(config);
    let mut editor = TileMapEditor::<Ground>::default();
    editor.random_orientation = false;
    editor.selected_orientation = 1;
    let (panel, _) = editor.ui_system(&tile_map, Some(UiInput::Orientation(5)));
    assert_eq!(panel.orientation_range, None);
    assert_eq!(panel.selected_orientation, 1);
    assert_eq!(panel.tiles_placed, 0);
}
