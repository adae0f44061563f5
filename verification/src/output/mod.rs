//! What the machine shows: the glyph table and the display surface.

pub mod font;
pub mod graphics;
