//! Creeps of the game Screeps.
//!
//! The game runs in JavaScript. A method of [`creep::Creep`] yields the request that JavaScript
//! is to carry out, and the request reads JavaScript's answer. What carries requests out is no
//! part of the library.
pub mod constants;
pub mod creep;
pub mod find;
pub mod laws;
pub mod local;
pub mod move_options;
pub mod objects;
pub mod reply;
pub mod request;
