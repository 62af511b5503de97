//! Core state and rules of the Termua terminal application: sidebar and
//! command-queue state, settings models and their merge rules, font-feature
//! editing, keybinding override planning, and the decisions behind the
//! terminal panel's SFTP drag-and-drop upload.

pub mod app_state;
pub mod font_features;
pub mod keybindings;
pub mod menu;
pub mod paths;
pub mod right_sidebar;
pub mod settings;
pub mod terminal_panel;
pub mod terminal_settings;
pub mod text;
