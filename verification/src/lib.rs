//! A tile map on an integer grid: which tile stands at which cell, how tiles
//! are placed, replaced and erased while editing, and how a map is written
//! to and read from its two file formats.

use vstd::prelude::*;

pub mod codec;
pub mod components;
pub mod coordinate;
pub mod decimal;
pub mod editor;
pub mod events;
pub mod grid;
pub mod json;
pub mod marker_traits;
pub mod prelude;
pub mod resources;
pub mod table;
pub mod utils;

use crate::editor::{TileMapEditor, TileMapEditorPlugin};
use crate::events::LoadMapEvent;
use crate::marker_traits::TileTypeAble;
use crate::resources::{PlacedTile, TileMap, TileMapConfig};
use crate::coordinate::Coordinate;
use crate::utils::FileFormat;

verus! {

/// What a host sets a map up with.
#[derive(Debug)]
pub struct TileMapPlugin {
    /// Whether the map comes with its editor.
    pub edit: bool,
    pub config: TileMapConfig,
}

/// What the plugin installs in a host.
pub struct MapSetup<T> {
    /// The map, empty.
    pub tile_map: TileMap<T>,
    /// The editor, where the map comes with one.
    pub editor: Option<TileMapEditor<T>>,
    /// The requests to make once the host has started, in their order.
    pub startup: Vec<LoadMapEvent>,
}

/// The requests that a map makes at its start: to load the table and then
/// the document, where its files are to be read, and none otherwise.
pub open spec fn startup_requests(load_from_source: bool) -> Seq<LoadMapEvent> {
    if load_from_source {
        seq![
            LoadMapEvent { format: FileFormat::Csv },
            LoadMapEvent { format: FileFormat::Json },
        ]
    } else {
        Seq::empty()
    }
}

impl TileMapPlugin {
    /// A map without editor, with the settings that a map has where none
    /// are given.
    pub fn new() -> (plugin: Self)
        ensures
            !plugin.edit,
            plugin.config.is_default(),
    {
        TileMapPlugin { edit: false, config: TileMapConfig::default() }
    }

    /// The same map with its editor.
    pub fn in_edit_mod(self) -> (plugin: Self)
        ensures
            plugin.edit,
            plugin.config == self.config,
    {
        let mut plugin = self;
        plugin.edit = true;
        plugin
    }

    /// The same map with other settings.
    pub fn with_config(self, config: TileMapConfig) -> (plugin: Self)
        ensures
            plugin.edit == self.edit,
            plugin.config == config,
    {
        let mut plugin = self;
        plugin.config = config;
        plugin
    }

    /// What the plugin installs: an empty map with the plugin's settings,
    /// the editor in its first state where the map comes with one, and the
    /// requests to load the map's files where they are to be read.
    pub fn build<T: TileTypeAble>(&self) -> (setup: MapSetup<T>)
        ensures
            setup.tile_map.wf(),
            setup.tile_map@ == Map::<Coordinate, PlacedTile<T>>::empty(),
            setup.tile_map.config.same_as(&self.config),
            setup.editor is Some <==> self.edit,
            setup.editor matches Some(editor) ==> editor == TileMapEditor::<T>::first(),
            setup.startup@ == startup_requests(self.config.load_from_source),
    {
        let tile_map = TileMap::new(self.config.duplicate());
        let editor = if self.edit {
            Some(TileMapEditorPlugin::default().build())
        } else {
            None
        };
        let mut startup: Vec<LoadMapEvent> = Vec::new();
        if self.config.load_from_source {
            startup.push(LoadMapEvent::new(FileFormat::Csv));
            startup.push(LoadMapEvent::new(FileFormat::Json));
        }
        assert(startup@ =~= startup_requests(self.config.load_from_source));
        MapSetup { tile_map, editor, startup }
    }
}

} // verus!
