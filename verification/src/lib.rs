//! Setting up an Arch Linux system: the plans of the installation steps
//! (commands, file writes and edits), the edits of system files, and where
//! the shipped dotfiles go.

pub mod cli;
pub mod config;
pub mod consts;
pub mod custom_package;
pub mod dotfiles;
pub mod edits;
pub mod expand;
pub mod plan;
pub mod random;
pub mod setup;
pub mod text;
pub mod utils;
pub mod wm;
