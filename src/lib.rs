//! Installation state of one configured game: the mods installed into it, the
//! runtime-patching mod loader, and the persisted record of both.
//!
//! The library decides; the program around it touches the disk, the network
//! and the user, and hands the outcomes back.

pub mod version;
pub mod table;
pub mod text;
pub mod model;
pub mod paths;
pub mod bindings;
pub mod installer;
pub mod loader;
pub mod cache;
pub mod state;
pub mod store;
pub mod laws;
pub mod server;
pub mod report;
pub mod routes;
