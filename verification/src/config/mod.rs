//! Where things are kept, and the preferences that are.

pub mod cli_paths;
pub mod preferences;
