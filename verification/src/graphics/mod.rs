//! Graphics helpers: colours, the frame-rate counter and drawing primitives.
pub mod color;
pub mod fps;
pub mod primitives;
