//! A verified core for a terminal renderer that draws a rotating cube as
//! ASCII characters: fixed-point rotation and perspective projection,
//! z-buffered rasterization of the six cube faces, multi-buffered frame
//! output, and frame pacing.

pub mod double_buffer;
pub mod frame_buffer;
pub mod frame_stat;
pub mod math;
pub mod projector;
pub mod raster;
pub mod ring_buffer;
pub mod screen;
