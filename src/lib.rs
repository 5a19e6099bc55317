//! The drawing-context core of an HTML canvas: style keywords, colour
//! stops of gradients, the graphics-state stack, text helpers and the
//! density metadata written into exported images.
pub mod strings;
pub mod keywords;
pub mod export;
pub mod ramp;
pub mod state;
pub mod color;
pub mod text;
pub mod fonts;
pub mod geometry;
