//! Command-line data: the plain values the commands are driven by.

pub mod focal;
pub mod image;
pub mod video;
pub mod waybar;
