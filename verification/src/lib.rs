//! Bitmap-font text for GPU rendering: font sheets cut into a 16×16 grid of
//! glyph cells, the bindings that expose the loaded fonts to a draw call,
//! text packed into one word-addressed payload buffer, and the draw calls
//! that put glyphs on screen as quads.

pub mod bytes;
pub mod dispatch;
pub mod fonts;
pub mod grid;
pub mod payload;
pub mod random;
pub mod registry;
pub mod scene;
pub mod stats;
