//! A window that shows memory and events while a program runs.

pub mod font;
pub mod laws;
pub mod live;
pub mod palette;
pub mod panels;
pub mod raster;
pub mod window;
