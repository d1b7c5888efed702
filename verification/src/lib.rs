//! Capture screenshots and screen recordings on a Wayland desktop.
//!
//! The crate models the three core pieces of such a tool: a normalized
//! monitor model fed by several compositor backends, geometry resolution
//! from a selected screen region to an encoder crop filter, and a
//! lock-file-backed recording session lifecycle.

pub mod cli;
pub mod hyprland;
pub mod image;
pub mod mango;
pub mod monitor;
pub mod niri;
pub mod numstr;
pub mod rofi;
pub mod slurp;
pub mod strutil;
pub mod sway;
pub mod video;
pub mod wf_recorder;

pub use image::Screenshot;
pub use monitor::FocalMonitor;
pub use monitor::Rotation;
pub use rofi::Rofi;
pub use slurp::SlurpGeom;
pub use video::Screencast;
