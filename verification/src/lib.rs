//! A circular screen-magnifier renderer: fills a square cursor canvas with a
//! pixel-grid zoom of a screenshot sample, masks it to a circle with a border
//! ring, and burns a `#RRGGBB` hex label into the bottom of the canvas.

pub mod color;
pub mod pixel;
pub mod glyph;
pub mod draw;
