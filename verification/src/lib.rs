//! Plugin host for a desktop launcher: manifest discovery, the capability
//! surface offered to plugin scripts, and one-shot sandboxed evaluation.

pub mod command;
pub mod plugin;
pub mod shortcut;
pub mod text;
pub mod window;
