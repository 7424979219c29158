//! Navigation, character-grid and glyph-atlas logic of a fixed 100 × 28 cell,
//! CP437 textmode frontend.
pub mod atlas;
pub mod batched_renderer;
pub mod cp437;
pub mod cp437_grid;
pub mod glyphs;
pub mod grid_laws;
pub mod input;
pub mod navigation;
pub mod pixel_ui;
pub mod text;
pub mod theme;
pub mod ui;
