//! The state and decisions of the terminal archive browser: tiles, popups,
//! the actions they raise, and how the application answers them. Drawing and
//! the terminal itself stay with the program that runs the browser.
pub mod action;
pub mod app;
pub mod context;
pub mod file_list;
pub mod highlight;
pub mod input;
pub mod layout;
pub mod loader;
pub mod popups;
pub mod preview;
pub mod properties;
pub mod scroll;
pub mod status_bar;
pub mod tile;
