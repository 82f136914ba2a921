//! Core logic of a small networked dungeon game: the shared data model,
//! the wire messages exchanged between client and server, the client-side
//! connection state, and the server-side game rules.

pub mod text;
pub mod types;
pub mod base;
pub mod generator;
pub mod digest;
pub mod game;
pub mod server;
pub mod connector;
pub mod params;
pub mod framing;
