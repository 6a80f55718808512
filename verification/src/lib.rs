//! Verified core of an audio-reactive desktop background daemon: the
//! configuration model and its merge rules, layer buffer geometry, pixel
//! buffer conversions, the bitmap font of the mode menu, and the decisions
//! taken from power-supply and lid readings.

pub mod config;
pub mod layer;
pub mod menu;
pub mod paths;
pub mod pixels;
pub mod power;
pub mod text;
