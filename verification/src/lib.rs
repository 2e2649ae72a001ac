//! Fractal evaluation and tile bookkeeping for an interactive fractal viewer.
//!
//! - [`math`]: the numeric interfaces, complex numbers over them, and
//!   function expressions that know their own derivatives.
//! - [`fractal`]: the escape-time engine, the fractal families, and the
//!   mapping from values to colours.
//! - [`compute`]: the computation of a tile, pixel by pixel, into packed
//!   colours.
//! - [`quad_cell`] and [`tile_map`]: the addresses of tiles and the map of
//!   the tiles that are resident.
//! - [`app`]: the state of the viewer, with the rules that say which tiles
//!   are shown, which are kept, and which one a frame loads.
//! - [`render`] and [`color`]: what the renderer is told, and the transfer
//!   functions of sRGB.
pub mod app;
pub mod color;
pub mod compute;
pub mod fractal;
pub mod math;
pub mod quad_cell;
pub mod render;
pub mod tile_map;
