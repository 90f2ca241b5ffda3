use vstd::prelude::*;
use crate::components::Tile;
use crate::coordinate::Coordinate;
use crate::events::{ClearMapEvent, LoadMapEvent, SaveMapEvent};
use crate::marker_traits::TileTypeAble;
use crate::resources::{Handle, PlacedTile, TileMap, TileMapConfig, TileSize};
use crate::utils::FileFormat;

verus! {

/// What a press of the pointer does to the tile that it hits.
#[derive(Debug, Clone, Copy, PartialEq, Eq, Structural)]
pub enum EditorMode {
    /// The tile is replaced where it stands.
    Paint,
    /// A new tile is put beside the tile, on the side that was hit.
    Attach,
    /// The tile is taken away.
    Erase,
}

/// The surface that stands in for a tile when the pointer picks one.
#[derive(Debug, Clone, Copy, PartialEq, Eq, Structural)]
pub struct TileHitBox {
    /// The handle of the tile that the surface stands in for.
    pub parent: Handle,
    /// The cell of that tile.
    pub map_pos: Coordinate,
}

/// What the host reports of a pick: the surface that the pointer's ray hit,
/// and how far the hit side is turned away from each configured neighbour.
#[derive(Debug)]
pub struct TilePick {
    pub hit_box: TileHitBox,
    /// For each entry of the configured neighbours, in their order, the angle
    /// between its direction and the normal of the side that was hit. The
    /// unit is the host's choice: only the order of the angles is read.
    pub angles: Vec<u32>,
}

/// What an edit did to the map, for the host to repeat on its own side.
#[derive(Debug, Clone, Copy, PartialEq, Eq)]
pub enum EditOutcome {
    /// The map is as it was.
    Nothing,
    /// The tile at a cell was replaced. It is known by `handle`.
    Painted { handle: Handle, tile: Tile },
    /// A tile was put at a cell under `handle`. A tile that stood there gave
    /// way: `superseded` is its handle.
    Attached { handle: Handle, tile: Tile, superseded: Option<Handle> },
    /// The tile at a cell was taken away. It was known by `handle`.
    Erased { handle: Handle, map_pos: Coordinate },
}

/// The state of the editor.
#[derive(Debug)]
pub struct TileMapEditor<T> {
    pub mode: EditorMode,
    /// The type that new tiles get.
    pub selected_tile_type: T,
    /// Whether the orientation of a new tile is drawn at random.
    pub random_orientation: bool,
    /// The orientation of a new tile where it is not drawn at random.
    pub selected_orientation: usize,
    /// Whether the surfaces that tiles are picked by are shown.
    pub show_tile_hit_box: bool,
}

/// Whether `best` is the place of the first of the least entries of `angles`.
pub open spec fn is_first_least(angles: Seq<u32>, best: int) -> bool {
    &&& 0 <= best < angles.len()
    &&& forall|j: int| 0 <= j < angles.len() ==> angles[best] <= #[trigger] angles[j]
    &&& forall|j: int| 0 <= j < best ==> angles[best] < #[trigger] angles[j]
}

/// The place of the first of the least entries of `angles`.
pub open spec fn first_least(angles: Seq<u32>) -> int {
    choose|best: int| is_first_least(angles, best)
}

/// There is one first least entry at most.
pub proof fn lemma_first_least_unique(angles: Seq<u32>, a: int, b: int)
    requires
        is_first_least(angles, a),
        is_first_least(angles, b),
    ensures
        a == b,
{
    if a < b {
        assert(angles[b] < angles[a]);
    } else if b < a {
        assert(angles[a] < angles[b]);
    }
}

/// The place of the neighbour whose direction is nearest to the side that
/// was hit: that of the least angle, and of the first of them where several
/// are equal. `None` where there is no angle.
pub fn nearest_direction(angles: &Vec<u32>) -> (best: Option<usize>)
    ensures
        angles@.len() == 0 <==> best is None,
        best matches Some(i) ==> is_first_least(angles@, i as int) && i as int == first_least(
            angles@,
        ),
{
    if angles.len() == 0 {
        return None;
    }
    let mut best: usize = 0;
    let mut i: usize = 1;
    while i < angles.len()
        invariant
            1 <= i <= angles.len(),
            is_first_least(angles@.subrange(0, i as int), best as int),
        decreases angles.len() - i,
    {
        let ghost seen = angles@.subrange(0, i as int);
        let ghost next = angles@.subrange(0, i + 1);
        if angles[i] < angles[best] {
            assert forall|j: int| 0 <= j < next.len() implies next[i as int] <= #[trigger] next[j] by {
                if j < i {
                    assert(seen[best as int] <= seen[j]);
                }
            }
            assert forall|j: int| 0 <= j < i implies next[i as int] < #[trigger] next[j] by {
                assert(seen[best as int] <= seen[j]);
            }
            best = i;
        } else {
            assert forall|j: int| 0 <= j < next.len() implies next[best as int] <= #[trigger] next[j] by {
                if j < i {
                    assert(seen[best as int] <= seen[j]);
                }
            }
            assert forall|j: int| 0 <= j < best implies next[best as int] < #[trigger] next[j] by {
                assert(seen[best as int] < seen[j]);
            }
        }
        i += 1;
    }
    proof {
        assert(angles@.subrange(0, i as int) =~= angles@);
        lemma_first_least_unique(angles@, best as int, first_least(angles@));
    }
    Some(best)
}

/// The cell at which a tile is attached to the tile at `hit`: `hit` moved by
/// the step of the nearest neighbour. `None` where the angles are not one
/// for each neighbour, where there is no neighbour, and where the cell would
/// lie outside the grid.
pub open spec fn attach_target(
    neighbours: Seq<(Coordinate, Coordinate)>,
    hit: Coordinate,
    angles: Seq<u32>,
) -> Option<Coordinate> {
    if angles.len() != neighbours.len() || angles.len() == 0 {
        None
    } else {
        let step = neighbours[first_least(angles)].1;
        if Coordinate::fits(hit.offset_by(step)) {
            Some(
                Coordinate {
                    x: (hit.x + step.x) as i32,
                    y: (hit.y + step.y) as i32,
                    z: (hit.z + step.z) as i32,
                },
            )
        } else {
            None
        }
    }
}

/// The cell at which a tile is attached to the tile at `hit`.
pub fn attach_position(
    neighbours: &Vec<(Coordinate, Coordinate)>,
    hit: &Coordinate,
    angles: &Vec<u32>,
) -> (target: Option<Coordinate>)
    ensures
        target == attach_target(neighbours@, *hit, angles@),
{
    if angles.len() != neighbours.len() {
        return None;
    }
    match nearest_direction(angles) {
        None => None,
        Some(best) => {
            let step = neighbours[best].1;
            hit.checked_add(&step)
        },
    }
}

/// The orientation of a new tile. Where it is drawn at random it is
/// `draw` brought into the range of the `count` configured orientations,
/// and there is none where nothing is configured. Where it is fixed it is
/// the selected orientation, and there is none where that is no `u8`.
pub open spec fn chosen_orientation(
    random: bool,
    selected: usize,
    count: nat,
    draw: u8,
) -> Option<u8> {
    if random {
        if count == 0 {
            None
        } else {
            Some((draw as int % count as int) as u8)
        }
    } else if selected <= u8::MAX {
        Some(selected as u8)
    } else {
        None
    }
}

/// The tiles of a map after the tile at `position` was painted: the tile
/// there keeps its handle, and a tile on an empty cell gets `fresh`.
pub open spec fn painted<T>(
    tiles: Map<Coordinate, PlacedTile<T>>,
    position: Coordinate,
    orientation: u8,
    typ: T,
    fresh: Handle,
) -> Map<Coordinate, PlacedTile<T>> {
    let handle = if tiles.contains_key(position) {
        tiles[position].handle
    } else {
        fresh
    };
    tiles.insert(position, PlacedTile { handle, orientation, typ })
}

/// One stroke of paint: the orientation and the type that it gives the tile,
/// and the handle that it brings for a tile on an empty cell.
pub struct Stroke<T> {
    pub orientation: u8,
    pub typ: T,
    pub fresh: Handle,
}

/// The tiles of a map after the cell at `position` was painted with each of
/// `strokes`, one after the other.
pub open spec fn painted_all<T>(
    tiles: Map<Coordinate, PlacedTile<T>>,
    position: Coordinate,
    strokes: Seq<Stroke<T>>,
) -> Map<Coordinate, PlacedTile<T>>
    decreases strokes.len(),
{
    if strokes.len() == 0 {
        tiles
    } else {
        let last = strokes.last();
        painted(
            painted_all(tiles, position, strokes.drop_last()),
            position,
            last.orientation,
            last.typ,
            last.fresh,
        )
    }
}

/// The last stroke wins: however often a cell is painted, it holds one tile
/// afterwards, with the orientation and the type of the last stroke. The
/// tile keeps the handle of the tile that stood there before the first
/// stroke, or has that of the first stroke where the cell was empty. No
/// other cell changes.
pub proof fn lemma_last_paint_wins<T>(
    tiles: Map<Coordinate, PlacedTile<T>>,
    position: Coordinate,
    strokes: Seq<Stroke<T>>,
)
    requires
        strokes.len() > 0,
    ensures
        ({
            let after = painted_all(tiles, position, strokes);
            &&& after.contains_key(position)
            &&& after[position].orientation == strokes.last().orientation
            &&& after[position].typ == strokes.last().typ
            &&& after[position].handle == (if tiles.contains_key(position) {
                tiles[position].handle
            } else {
                strokes[0].fresh
            })
            &&& after.dom() == tiles.dom().insert(position)
            &&& after.remove(position) == tiles.remove(position)
        }),
    decreases strokes.len(),
{
    let after = painted_all(tiles, position, strokes);
    if strokes.len() == 1 {
        assert(strokes.drop_last().len() == 0);
        assert(painted_all(tiles, position, strokes.drop_last()) == tiles);
        assert(strokes.last() == strokes[0]);
    } else {
        lemma_last_paint_wins(tiles, position, strokes.drop_last());
        assert(strokes.drop_last()[0] == strokes[0]);
    }
    assert(after.dom() =~= tiles.dom().insert(position));
    assert(after.remove(position) =~= tiles.remove(position));
}

/// A byte drawn at random by `rand::random`. Nothing is said of its value: a
/// caller has to be right for each of the 256.
#[verifier::external_body]
fn random_byte() -> (draw: u8) {
    rand::random::<u8>()
}

impl<T: TileTypeAble> Default for TileMapEditor<T> {
    /// An editor that paints tiles of the default type with orientations
    /// drawn at random, and that does not show the surfaces it picks by.
    fn default() -> (editor: Self)
        ensures
            editor == Self::first(),
    {
        TileMapEditor {
            mode: EditorMode::Paint,
            selected_tile_type: T::default_type(),
            random_orientation: true,
            selected_orientation: 0,
            show_tile_hit_box: false,
        }
    }
}

impl<T: TileTypeAble> TileMapEditor<T> {
    /// The first state of an editor: it paints tiles of the default type
    /// with orientations drawn at random, and does not show the surfaces it
    /// picks by.
    pub open spec fn first() -> Self {
        TileMapEditor {
            mode: EditorMode::Paint,
            selected_tile_type: T::default_spec(),
            random_orientation: true,
            selected_orientation: 0,
            show_tile_hit_box: false,
        }
    }

    /// The orientation that this editor gives a new tile on a map with
    /// `count` orientations, where `draw` is the byte that was drawn.
    pub open spec fn orientation_spec(&self, count: nat, draw: u8) -> Option<u8> {
        chosen_orientation(self.random_orientation, self.selected_orientation, count, draw)
    }

    /// The orientation that this editor gives a new tile.
    pub fn choose_orientation(&self, count: usize, draw: u8) -> (orientation: Option<u8>)
        ensures
            orientation == self.orientation_spec(count as nat, draw),
    {
        if self.random_orientation {
            if count == 0 {
                None
            } else if count <= 255 {
                Some(draw % (count as u8))
            } else {
                proof {
                    vstd::arithmetic::div_mod::lemma_small_mod(draw as nat, count as nat);
                }
                Some(draw)
            }
        } else if self.selected_orientation <= 255 {
            Some(self.selected_orientation as u8)
        } else {
            None
        }
    }

    /// What a pick does to the tiles of a map, and what is reported of it.
    ///
    /// To erase takes the tile at the cell that was hit, and does nothing on
    /// an empty cell. To paint puts a tile of the selected type and the
    /// chosen orientation at the cell that was hit, under the handle of the
    /// tile that stood there. To attach puts such a tile, under the handle
    /// `fresh`, at the neighbouring cell on the side that was hit, where a
    /// tile that stands there gives way. Where no orientation can be chosen,
    /// or no cell can be attached at, nothing is done.
    pub open spec fn edited(
        &self,
        tile_map: &TileMap<T>,
        pick: &TilePick,
        draw: u8,
        fresh: Handle,
    ) -> (Map<Coordinate, PlacedTile<T>>, EditOutcome) {
        let tiles = tile_map@;
        let hit = pick.hit_box.map_pos;
        let orientation = self.orientation_spec(
            tile_map.config.possible_orientations@.len(),
            draw,
        );
        match self.mode {
            EditorMode::Erase => if tiles.contains_key(hit) {
                (tiles.remove(hit), EditOutcome::Erased { handle: tiles[hit].handle, map_pos: hit })
            } else {
                (tiles, EditOutcome::Nothing)
            },
            EditorMode::Paint => match orientation {
                None => (tiles, EditOutcome::Nothing),
                Some(orientation) => {
                    let after = painted(tiles, hit, orientation, self.selected_tile_type, fresh);
                    (
                        after,
                        EditOutcome::Painted {
                            handle: after[hit].handle,
                            tile: Tile { map_pos: hit, orientation },
                        },
                    )
                },
            },
            EditorMode::Attach => match (
                orientation,
                attach_target(tile_map.config.next_tile_dir@, hit, pick.angles@),
            ) {
                (Some(orientation), Some(target)) => (
                    tiles.insert(
                        target,
                        PlacedTile { handle: fresh, orientation, typ: self.selected_tile_type },
                    ),
                    EditOutcome::Attached {
                        handle: fresh,
                        tile: Tile { map_pos: target, orientation },
                        superseded: if tiles.contains_key(target) {
                            Some(tiles[target].handle)
                        } else {
                            None
                        },
                    },
                ),
                _ => (tiles, EditOutcome::Nothing),
            },
        }
    }

    /// To paint is one stroke: in the mode `Paint`, a pick leaves the tiles
    /// as `painted` says, with the chosen orientation and the selected type.
    pub proof fn lemma_paint_is_a_stroke(
        self,
        tile_map: &TileMap<T>,
        pick: &TilePick,
        draw: u8,
        fresh: Handle,
    )
        requires
            self.mode == EditorMode::Paint,
            self.orientation_spec(tile_map.config.possible_orientations@.len(), draw) is Some,
        ensures
            self.edited(tile_map, pick, draw, fresh).0 == painted(
                tile_map@,
                pick.hit_box.map_pos,
                self.orientation_spec(
                    tile_map.config.possible_orientations@.len(),
                    draw,
                ).unwrap(),
                self.selected_tile_type,
                fresh,
            ),
    {
    }

    /// To erase on an empty cell does nothing: the map holds the tiles it
    /// held, and as many.
    pub proof fn lemma_erase_on_empty_cell(
        self,
        tile_map: &TileMap<T>,
        pick: &TilePick,
        draw: u8,
        fresh: Handle,
    )
        requires
            self.mode == EditorMode::Erase,
            !tile_map@.contains_key(pick.hit_box.map_pos),
        ensures
            self.edited(tile_map, pick, draw, fresh) == (tile_map@, EditOutcome::Nothing),
            self.edited(tile_map, pick, draw, fresh).0.dom().len() == tile_map@.dom().len(),
    {
    }

    /// Carries out a pick on the map, with `draw` as the byte that was drawn
    /// for the orientation and `fresh` as the handle of a tile that is new.
    pub fn apply_pick(
        &self,
        tile_map: &mut TileMap<T>,
        pick: &TilePick,
        draw: u8,
        fresh: Handle,
    ) -> (outcome: EditOutcome)
        requires
            old(tile_map).wf(),
        ensures
            final(tile_map).wf(),
            final(tile_map).config == old(tile_map).config,
            (final(tile_map)@, outcome) == self.edited(old(tile_map), pick, draw, fresh),
    {
        let hit = pick.hit_box.map_pos;
        let orientation = self.choose_orientation(
            tile_map.config.possible_orientations.len(),
            draw,
        );
        match self.mode {
            EditorMode::Erase => match tile_map.despawn(&hit) {
                Some(removed) => EditOutcome::Erased { handle: removed.handle, map_pos: hit },
                None => {
                    assert(tile_map@ =~= old(tile_map)@);
                    EditOutcome::Nothing
                },
            },
            EditorMode::Paint => match orientation {
                None => EditOutcome::Nothing,
                Some(orientation) => {
                    let handle = match tile_map.lookup(&hit) {
                        Some(handle) => handle,
                        None => fresh,
                    };
                    let tile = Tile::new(hit, orientation);
                    let _ = tile.on_added(handle, self.selected_tile_type.clone_type(), tile_map);
                    EditOutcome::Painted { handle, tile }
                },
            },
            EditorMode::Attach => {
                let target = attach_position(&tile_map.config.next_tile_dir, &hit, &pick.angles);
                match (orientation, target) {
                    (Some(orientation), Some(target)) => {
                        let tile = Tile::new(target, orientation);
                        let superseded = match tile.on_added(
                            fresh,
                            self.selected_tile_type.clone_type(),
                            tile_map,
                        ) {
                            Some(placed) => Some(placed.handle),
                            None => None,
                        };
                        EditOutcome::Attached { handle: fresh, tile, superseded }
                    },
                    _ => EditOutcome::Nothing,
                }
            },
        }
    }

    /// Answers one press of the pointer. Only a press of the primary button
    /// that picked a tile changes the map: it is carried out as `apply_pick`
    /// does, with a byte drawn at random for the orientation.
    pub fn user_input_system(
        &self,
        tile_map: &mut TileMap<T>,
        primary_pressed: bool,
        pick: Option<&TilePick>,
        fresh: Handle,
    ) -> (outcome: EditOutcome)
        requires
            old(tile_map).wf(),
        ensures
            final(tile_map).wf(),
            final(tile_map).config == old(tile_map).config,
            !primary_pressed || pick is None ==> final(tile_map)@ == old(tile_map)@ && outcome
                == EditOutcome::Nothing,
            primary_pressed ==> (pick matches Some(pick) ==> exists|draw: u8|
                (final(tile_map)@, outcome) == #[trigger] self.edited(
                    old(tile_map),
                    pick,
                    draw,
                    fresh,
                )),
    {
        if !primary_pressed {
            return EditOutcome::Nothing;
        }
        match pick {
            None => EditOutcome::Nothing,
            Some(pick) => {
                let draw = random_byte();
                self.apply_pick(tile_map, pick, draw, fresh)
            },
        }
    }

    /// Puts the first tile on a map: a tile of the default type at the
    /// origin, in the first orientation, under `handle`.
    pub fn setup(tile_map: &mut TileMap<T>, handle: Handle) -> (superseded: Option<PlacedTile<T>>)
        requires
            old(tile_map).wf(),
        ensures
            final(tile_map).wf(),
            final(tile_map).config == old(tile_map).config,
            final(tile_map)@ == old(tile_map)@.insert(
                Coordinate::origin(),
                PlacedTile { handle, orientation: 0, typ: T::default_spec() },
            ),
            superseded == (if old(tile_map)@.contains_key(Coordinate::origin()) {
                Some(old(tile_map)@[Coordinate::origin()])
            } else {
                None
            }),
    {
        Tile::new(Coordinate::zero(), 0).on_added(handle, T::default_type(), tile_map)
    }

    /// Shows or hides each of the surfaces that tiles are picked by, as the
    /// editor is set: `shown` holds, for each surface, whether it is shown.
    pub fn update(&self, shown: &mut Vec<bool>)
        ensures
            final(shown)@.len() == old(shown)@.len(),
            forall|i: int|
                0 <= i < final(shown)@.len() ==> #[trigger] final(shown)@[i]
                    == self.show_tile_hit_box,
    {
        let mut i: usize = 0;
        while i < shown.len()
            invariant
                i <= shown.len(),
                shown@.len() == old(shown)@.len(),
                forall|k: int| 0 <= k < i ==> #[trigger] shown@[k] == self.show_tile_hit_box,
            decreases shown.len() - i,
        {
            shown.set(i, self.show_tile_hit_box);
            i += 1;
        }
    }
}

/// One thing that the user does on the editor's panel.
#[derive(Debug)]
pub enum UiInput<T> {
    /// A mode is selected.
    Mode(EditorMode),
    /// The box that shows the picking surfaces is set.
    ShowTileBox(bool),
    /// The button that clears the map is pressed.
    ClearMap,
    /// A tile type is selected.
    TileType(T),
    /// The box that has orientations drawn at random is set.
    RandomOrientation(bool),
    /// The slider of the orientation is moved.
    Orientation(usize),
    /// The button that saves the map is pressed.
    SaveMap,
    /// The button that loads the map is pressed.
    LoadMap,
}

/// A request that the panel makes of the map.
#[derive(Debug, Clone, Copy, PartialEq, Eq, Structural)]
pub enum MapRequest {
    Clear(ClearMapEvent),
    Save(SaveMapEvent),
    Load(LoadMapEvent),
}

/// What the editor's panel shows.
#[derive(Debug, Clone, Copy, PartialEq, Eq)]
pub struct EditorPanel {
    pub mode: EditorMode,
    pub show_tile_hit_box: bool,
    pub random_orientation: bool,
    pub selected_orientation: usize,
    /// The least and the greatest orientation that the slider offers. There
    /// is no slider while orientations are drawn at random, nor where no
    /// orientation is configured.
    pub orientation_range: Option<(usize, usize)>,
    /// The number of tiles on the map.
    pub tiles_placed: usize,
    pub tile_size: TileSize,
}

/// What is needed to put up the picking surface of a tile.
#[derive(Debug, Clone, Copy, PartialEq, Eq)]
pub struct HitBoxPlacement {
    pub hit_box: TileHitBox,
    /// Where the surface stands in the world: the tile's cell, scaled by the
    /// size of a tile.
    pub translation: (i64, i64, i64),
    /// The extent of the surface: that of a tile.
    pub size: TileSize,
    pub shown: bool,
}

/// The picking surface of the tile that was created under `handle`.
pub open spec fn hit_box_placed(
    handle: Handle,
    tile: Tile,
    tile_size: TileSize,
    shown: bool,
) -> HitBoxPlacement {
    HitBoxPlacement {
        hit_box: TileHitBox { parent: handle, map_pos: tile.map_pos },
        translation: (
            (tile.map_pos.x * tile_size.x) as i64,
            (tile.map_pos.y * tile_size.y) as i64,
            (tile.map_pos.z * tile_size.z) as i64,
        ),
        size: tile_size,
        shown,
    }
}

/// A component of a cell scaled by the extent of a tile.
fn scaled(component: i32, extent: u32) -> (product: i64)
    ensures
        product == component * extent,
{
    assert(-0x8000_0000 * 0x1_0000_0000 <= component * extent <= 0x7fff_ffff * 0x1_0000_0000)
        by (nonlinear_arith)
        requires
            -0x8000_0000 <= component <= 0x7fff_ffff,
            0 <= extent <= 0x1_0000_0000,
    ;
    (component as i64) * (extent as i64)
}

/// Answers the creation of a tile in the editor: the picking surface to put
/// up for it.
pub fn add_tile_map_hit_box<T: TileTypeAble>(
    handle: Handle,
    tile: &Tile,
    config: &TileMapConfig,
    editor: &TileMapEditor<T>,
) -> (placement: HitBoxPlacement)
    ensures
        placement == hit_box_placed(handle, *tile, config.tile_size, editor.show_tile_hit_box),
{
    HitBoxPlacement {
        hit_box: TileHitBox { parent: handle, map_pos: tile.map_pos },
        translation: (
            scaled(tile.map_pos.x, config.tile_size.x),
            scaled(tile.map_pos.y, config.tile_size.y),
            scaled(tile.map_pos.z, config.tile_size.z),
        ),
        size: config.tile_size,
        shown: editor.show_tile_hit_box,
    }
}

impl<T: TileTypeAble> TileMapEditor<T> {
    /// The editor after one thing was done on its panel, on a map with
    /// `count` orientations. The slider keeps the orientation within what
    /// is configured, and is not there while orientations are drawn at
    /// random. A button leaves the editor as it is.
    pub open spec fn after_input(self, count: nat, input: UiInput<T>) -> Self {
        match input {
            UiInput::Mode(mode) => TileMapEditor { mode, ..self },
            UiInput::ShowTileBox(shown) => TileMapEditor { show_tile_hit_box: shown, ..self },
            UiInput::TileType(typ) => TileMapEditor { selected_tile_type: typ, ..self },
            UiInput::RandomOrientation(random) => TileMapEditor {
                random_orientation: random,
                ..self
            },
            UiInput::Orientation(selected) => if self.random_orientation || count == 0 {
                self
            } else if selected < count {
                TileMapEditor { selected_orientation: selected, ..self }
            } else {
                TileMapEditor { selected_orientation: (count - 1) as usize, ..self }
            },
            UiInput::ClearMap | UiInput::SaveMap | UiInput::LoadMap => self,
        }
    }

    /// The request that one thing done on the panel makes of the map: the
    /// buttons ask for the map to be cleared down to a first tile, and to
    /// be saved or loaded in the default format.
    pub open spec fn requested(input: UiInput<T>) -> Option<MapRequest> {
        match input {
            UiInput::ClearMap => Some(
                MapRequest::Clear(ClearMapEvent { create_source_tile: true }),
            ),
            UiInput::SaveMap => Some(MapRequest::Save(SaveMapEvent { format: FileFormat::Csv })),
            UiInput::LoadMap => Some(MapRequest::Load(LoadMapEvent { format: FileFormat::Csv })),
            _ => None,
        }
    }

    /// What the panel shows of this editor and a map.
    pub open spec fn panel(self, tile_map: &TileMap<T>) -> EditorPanel {
        let count = tile_map.config.possible_orientations@.len();
        EditorPanel {
            mode: self.mode,
            show_tile_hit_box: self.show_tile_hit_box,
            random_orientation: self.random_orientation,
            selected_orientation: self.selected_orientation,
            orientation_range: if self.random_orientation || count == 0 {
                None
            } else {
                Some((0usize, (count - 1) as usize))
            },
            tiles_placed: tile_map@.dom().len() as usize,
            tile_size: tile_map.config.tile_size,
        }
    }

    /// One pass of the editor's panel: takes in what the user did, if
    /// anything, and hands back what the panel shows afterwards and the
    /// request that it makes of the map.
    pub fn ui_system(&mut self, tile_map: &TileMap<T>, input: Option<UiInput<T>>) -> (shown: (
        EditorPanel,
        Option<MapRequest>,
    ))
        requires
            tile_map.wf(),
        ensures
            *final(self) == (match input {
                Some(input) => old(self).after_input(
                    tile_map.config.possible_orientations@.len(),
                    input,
                ),
                None => *old(self),
            }),
            shown.0 == final(self).panel(tile_map),
            shown.1 == (match input {
                Some(input) => Self::requested(input),
                None => None,
            }),
    {
        let count = tile_map.config.possible_orientations.len();
        let request = match input {
            None => None,
            Some(UiInput::Mode(mode)) => {
                self.mode = mode;
                None
            },
            Some(UiInput::ShowTileBox(shown)) => {
                self.show_tile_hit_box = shown;
                None
            },
            Some(UiInput::TileType(typ)) => {
                self.selected_tile_type = typ;
                None
            },
            Some(UiInput::RandomOrientation(random)) => {
                self.random_orientation = random;
                None
            },
            Some(UiInput::Orientation(selected)) => {
                if !self.random_orientation && count > 0 {
                    self.selected_orientation = if selected < count {
                        selected
                    } else {
                        count - 1
                    };
                }
                None
            },
            Some(UiInput::ClearMap) => Some(
                MapRequest::Clear(ClearMapEvent::new().with_source_tile()),
            ),
            Some(UiInput::SaveMap) => Some(MapRequest::Save(SaveMapEvent::new(FileFormat::default()))),
            Some(UiInput::LoadMap) => Some(MapRequest::Load(LoadMapEvent::new(FileFormat::default()))),
        };
        let panel = EditorPanel {
            mode: self.mode,
            show_tile_hit_box: self.show_tile_hit_box,
            random_orientation: self.random_orientation,
            selected_orientation: self.selected_orientation,
            orientation_range: if self.random_orientation || count == 0 {
                None
            } else {
                Some((0usize, count - 1))
            },
            tiles_placed: tile_map.len(),
            tile_size: tile_map.config.tile_size,
        };
        (panel, request)
    }
}

/// The part of the map's plugin that brings the editor.
#[derive(Debug, Clone, Copy, PartialEq, Eq, Structural)]
pub struct TileMapEditorPlugin {}

impl Default for TileMapEditorPlugin {
    fn default() -> Self {
        TileMapEditorPlugin {  }
    }
}

impl TileMapEditorPlugin {
    /// What the plugin installs: an editor in its first state.
    pub fn build<T: TileTypeAble>(&self) -> (editor: TileMapEditor<T>)
        ensures
            editor == TileMapEditor::<T>::first(),
    {
        TileMapEditor::default()
    }
}

} // verus!
