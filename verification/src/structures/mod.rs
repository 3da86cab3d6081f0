//! The configuration of a run and what it describes.

pub mod backup_params;
pub mod command_line;
pub mod command_text;
pub mod elements;
pub mod settings;
