//! A settings-preset manager for a game engine's INI configuration:
//! a catalog of known configuration keys, value validation, an INI codec,
//! preset storage in an embedded database, and hardware-based
//! recommendations.

pub mod strutil;
pub mod numeric;
pub mod models;
pub mod system;
pub mod ini;
pub mod db;
pub mod migrations;
pub mod clock;
pub mod config;
