//! Game logic of a small real-time strategy game: terrain maps, lobby
//! management, the wire framing and the rules the client and server share.

pub mod cli;
pub mod client_conn;
pub mod codec;
pub mod components;
pub mod defs;
pub mod editor;
pub mod font;
pub mod grid;
pub mod in_game;
pub mod input;
pub mod lobby;
pub mod lobby_screen;
pub mod manifest;
pub mod msg;
pub mod multiplayer;
pub mod net_client;
pub mod server_systems;
pub mod session;
pub mod systems;
pub mod text;
pub mod tilemap;
pub mod world;
