//! Modal keyboard command dispatch for browser tabs, together with the small
//! value types shared by the tab manager, the tab panel and the command line.

pub mod cli;
pub mod favicon;
pub mod tab_panel;
pub mod tabs;
mod text;
pub mod web_commands;
pub mod web_laws;
pub mod web_model;
pub mod web_url;
pub mod window_kind;
