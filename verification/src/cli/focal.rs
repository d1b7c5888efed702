//! The main command's arguments.

use vstd::prelude::*;

use crate::cli::image::ImageArgs;
use crate::cli::video::VideoArgs;

verus! {

/// A shell whose completion script can be generated.
#[derive(Debug, Clone, Copy, PartialEq, Eq, Structural)]
pub enum ShellCompletion {
    Bash,
    Zsh,
    Fish,
}

/// Arguments of the completion-script subcommand.
#[derive(Debug)]
pub struct GenerateArgs {
    pub shell: ShellCompletion,
}

/// Arguments shared by the image and video subcommands.
#[derive(Debug)]
pub struct CommonArgs {
    pub delay: Option<u64>,
    pub slurp: Option<String>,
    pub no_rounded_windows: bool,
    pub no_notify: bool,
    pub no_save: bool,
}

/// Arguments of the interactive menu.
#[derive(Debug)]
pub struct RofiArgs {
    pub rofi: bool,
    pub no_icons: bool,
    pub theme: Option<String>,
}

/// The subcommand a run of the program performs.
#[derive(Debug)]
pub enum FocalSubcommand {
    Image(ImageArgs),
    Video(VideoArgs),
    Generate(GenerateArgs),
}

} // verus!
