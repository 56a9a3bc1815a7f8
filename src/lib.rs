//! A tray launcher's logic: configuration text, command lines, global-shortcut texts,
//! the tray menu and its identifiers, the event loop's decisions, and the steps that
//! bring the anchor window to the front.
pub mod activator;
pub mod command;
pub mod config;
pub mod hotkey;
pub mod launcher;
pub mod localization;
pub mod menu;
pub mod text;
