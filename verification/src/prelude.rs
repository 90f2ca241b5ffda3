//! The items that a host of the map works with.

pub use crate::components::{Tile, TileRecord};
pub use crate::coordinate::Coordinate;
pub use crate::editor::{
    EditOutcome, EditorMode, EditorPanel, HitBoxPlacement, MapRequest, TileHitBox, TileMapEditor,
    TileMapEditorPlugin, TilePick, UiInput,
};
pub use crate::events::{ClearMapEvent, LoadMapEvent, SaveMapEvent};
pub use crate::grid::GridIndex;
pub use crate::json::JsonValue;
pub use crate::marker_traits::TileTypeAble;
pub use crate::resources::{Handle, PlacedTile, TileMap, TileMapConfig, TileSize};
pub use crate::utils::FileFormat;
pub use crate::{MapSetup, TileMapPlugin};
