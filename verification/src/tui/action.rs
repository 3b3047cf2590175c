//! The actions that tiles and popups raise, and the popups they open.
use vstd::prelude::*;

use crate::tui::context::SidePreview;

verus! {

/// The popups of the browser.
#[derive(Debug, Clone, Copy, PartialEq, Eq, Structural)]
pub enum PopupType {
    Password,
    ExtractDest,
    Encoding,
    Help,
}

/// What a tile or popup asks the application to do.
#[derive(Debug)]
pub enum Action {
    Quit,
    SelectionChanged {
        name: String,
        is_dir: bool,
        full_name: String,
        dir_entries: Option<Vec<String>>,
    },
    RequestPreviewLoad { full_name: String },
    PreviewLoaded { full_name: String, preview: SidePreview },
    ShowPopup(PopupType),
    ClosePopup,
    PasswordSubmitted(String),
    StartExtract { full_name: String },
    StartExtractAll,
    ConfirmExtract { dest: String },
    RequestEncodingInput,
    RequestEncodingReload(String),
}

} // verus!
