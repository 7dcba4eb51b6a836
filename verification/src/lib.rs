//! Antarctica CLI: the state, rules and text handling of a terminal blog
//! client, verified with Verus. The terminal, network and file system
//! are driven by the application around this library.

pub mod text;
pub mod utils;
pub mod config;
pub mod events;
pub mod components;
pub mod api;
pub mod pages;
pub mod ui;
pub mod router;
