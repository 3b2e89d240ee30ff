//! A system information display: facts about the host are laid out beside an
//! ASCII-art logo, with ANSI colour styling that never disturbs the columns.

pub mod ansi;
pub mod ascii_art;
pub mod cli;
pub mod config;
pub mod json;
pub mod output;
pub mod probe;
pub mod style;
pub mod system_info;
pub mod text;
pub mod utils;
