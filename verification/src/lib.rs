//! Verified core of the PTD Launcher: configuration model, path selection,
//! version extraction and update decisions.

pub mod platform;
pub mod text;
pub mod version;
pub mod numeric;
pub mod string_map;
pub mod path;
pub mod config;
pub mod updates;
pub mod transfer;
pub mod flash;
pub mod ruffle;
pub mod game;
