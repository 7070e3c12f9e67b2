//! Decoders, one per image format, and the choice between them.
pub mod check_extension;
pub mod ff;
pub mod png;
pub mod tga;
pub mod qoi;
pub mod jpg;
pub mod webp;
pub mod unknown;
pub mod main_wczytywanie;
pub mod exr;
