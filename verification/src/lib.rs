//! Compiles a two-track editing timeline into a single-pass processing graph
//! for an external media engine, and classifies what the engine reports back.
//!
//! Times are counted in whole microseconds and fractions in whole
//! millionths, so that everything the compiler computes is exact.
//!
//! - `timeline`: clips, tracks, placement and resolution, and what is
//!   admitted.
//! - `graph`: labelled streams, operations, and what makes a graph sound.
//! - `compile`: from an admitted timeline to its graph.
//! - `serialize`: from a graph to the engine's text.
//! - `theorems`: what holds of every compiled graph.
//! - `export`: from descriptors to the command that runs the engine.
//! - `engine`: where the engine is, and what its diagnostics mean.
//! - `session`: the states of one export.
//! - `report`: what the caller is told.
//! - `locks`: the output paths that are taken.
//! - `files`, `clock`, `media`, `words`: what goes on around an export.
//! - `text`: numerals and search in texts.

pub mod clock;
pub mod compile;
pub mod engine;
pub mod error;
pub mod export;
pub mod files;
pub mod graph;
pub mod locks;
pub mod media;
pub mod report;
pub mod serialize;
pub mod session;
pub mod text;
pub mod theorems;
pub mod timeline;
pub mod words;
