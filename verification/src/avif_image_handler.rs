//! Reading images of many formats into pixel buffers.
pub mod raster;
pub mod wczytywanie;
pub mod save;
