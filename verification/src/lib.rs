//! Core logic of an interactive PlantUML editor: a character-addressed text
//! buffer with a cursor, viewport scrolling, and a single-flight render
//! pipeline that publishes results to a shared state record.
pub mod area_separation;
pub mod args;
pub mod diagnostics;
pub mod event;
pub mod highlight;
pub mod pmu;
pub mod render;
pub mod text_input;
pub mod viewport;
