//! Simulation engine of a multiplayer programming game: bots run uploaded
//! firmware on a shared grid, and one world loop owns all of the state.

pub mod bot;
pub mod bots;
pub mod button;
pub mod clock;
pub mod dir;
pub mod map_view;
pub mod migrations;
pub mod policy;
pub mod pos;
pub mod request;
pub mod rng;
pub mod sandbox;
pub mod snapshot;
pub mod store;
pub mod tick;
pub mod tile;
pub mod tile_map;
pub mod ui;
pub mod uncover;
pub mod world;
pub mod world_loop;

pub use bot::{AliveBot, BotEntry, BotId, BotInfo, BotStatus, DeadBot, KillBot, QueuedBot};
pub use bots::{Bots, MoveError, PromoteError};
pub use button::{Button, ButtonResponse, RenderedButton, Span};
pub use clock::{Clock, Metronome, DEFAULT_INTERVAL};
pub use dir::Dir;
pub use map_view::{Cell, Cursor, Frame, MapView, ViewEvent, ViewState};
pub use migrations::{MigrationError, VERSION};
pub use policy::{Policy, MAX_BOTS};
pub use pos::Pos;
pub use request::{
    CreateBotError, Effect, Event, Flow, Incoming, Processed, Receive, Reply, Request,
};
pub use sandbox::{decode_opt_pos, find_prefab, prefab_order, Prefab, PrefabOrder};
pub use snapshot::{
    Snapshot, SnapshotAliveBot, SnapshotBots, SnapshotDeadBot, SnapshotQueuedBot,
};
pub use store::{
    frame, resume, unframe, FrameError, ResumeError, SerializedWorld, HEADER_LEN, MAGIC,
};
pub use tick::{Batch, BotUpdate, Fate, Turn, SIM_TICKS};
pub use tile::{Tile, TileBase};
pub use tile_map::TileMap;
pub use uncover::Uncover;
pub use ui::{Alignment, Color, Key, Mouse, Rect, Style, Ui};
pub use world::{
    create, Config, ConfigError, World, EVENT_STREAM_CAPACITY, REQUEST_STREAM_CAPACITY,
};
pub use world_loop::{Action, TickStart, SAVE_INTERVAL};
