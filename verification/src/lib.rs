//! Shell-prompt generator library: gathers a compact summary of the current
//! git repository (location, head, working-tree status, ahead/behind counts)
//! and renders a single prompt string from it.

pub mod args;
pub mod error;
pub mod git_ext;
pub mod git_utils;
pub mod ilsore_format;
pub mod ilsore_format_color;
mod path_probe;
pub mod structs;
pub mod user_host;
pub mod util;
