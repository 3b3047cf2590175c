//! Verified core of an archive utility: format detection, archive entry
//! naming, file-name encodings, directory trees of archive entries and the
//! navigation state of a terminal archive browser.
pub mod archive;
pub mod cli;
pub mod encoding;
pub mod error;
pub mod order;
pub mod path;
pub mod text;
pub mod tree;
pub mod tui;
pub mod utils;
