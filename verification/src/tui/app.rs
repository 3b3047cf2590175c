//! The browser's decisions: how it answers input and the actions its tiles
//! and popups raise, and what it makes of the archive's replies. Reading the
//! archive and drawing are done by the program that runs the browser: it asks
//! for them through [`Request`] and hands the outcome back.
use vstd::prelude::*;

use crate::archive::ArchiveEntry;
use crate::error::DecmpError;
use crate::path::{path_join, spec_path_join};
use crate::text::concat2;
use crate::tree::{model_of_entries, tree_model, tree_wf, DirTree};
use crate::tui::action::{Action, PopupType};
use crate::tui::context::{named_blank, preview_model, Mode, PendingAction, SidePreview};
use crate::tui::file_list::{key_post, mouse_post, FileListTile};
use crate::tui::input::{in_area, spec_in_area, Area, InputEvent, KeyCode, MouseEvent, MouseKind};
use crate::tui::loader::normalize_entry_names;
use crate::archive::tar::spec_strip_dot_slash;
use crate::tui::popups::{
    dest_post, encoding_post, help_post, password_post, ActivePopup, EncodingPopup,
    ExtractDestPopup, HelpPopup, PasswordPopup,
};
use crate::tui::preview::{loaded_post, preview_action_post, preview_input_post, PreviewTile};
use crate::tui::properties::{properties_action_post, properties_input_post, PropertiesTile};
use crate::tui::tile::TileId;

verus! {

/// What the browser knows of the archive and of itself.
pub struct AppContext {
    pub entries: Vec<ArchiveEntry>,
    pub tree: DirTree,
    pub focus: TileId,
    pub password: Option<String>,
    pub encoding: Option<String>,
    pub mode: Mode,
    pub status_msg: Option<String>,
    pub should_quit: bool,
    pub pending_extract_entries: Option<Vec<String>>,
    pub pending_action: Option<PendingAction>,
}

/// The browser: its context, its tiles, the popup over them, the destination
/// of an extraction waiting for a password, and the working directory that
/// destinations start from.
pub struct App {
    pub ctx: AppContext,
    pub file_list: FileListTile,
    pub preview: PreviewTile,
    pub properties: PropertiesTile,
    pub active_popup: Option<ActivePopup>,
    pub extract_dest_for_retry: Option<String>,
    pub cwd: String,
}

/// Why the entries are listed again.
#[derive(Debug, Clone, Copy, PartialEq, Eq, Structural)]
pub enum ListPurpose {
    /// A password was entered for an archive that could not be listed without.
    Unlock,
    /// Entry names are to be decoded in another encoding.
    Reload,
}

/// The work on the archive the browser asks for.
#[derive(Debug)]
pub enum Request {
    /// Read the start of an entry for its preview.
    LoadPreview { full_name: String, password: Option<String>, encoding: Option<String> },
    /// List the entries.
    List { purpose: ListPurpose, password: Option<String>, encoding: Option<String> },
    /// Extract the named entries, or all of them (creating `dest` first), to
    /// `dest`; `confirm` when the destination was just confirmed.
    Extract {
        dest: String,
        entries: Option<Vec<String>>,
        password: Option<String>,
        encoding: Option<String>,
        confirm: bool,
    },
}

/// How an extraction ended.
#[derive(Debug)]
pub enum ExtractOutcome {
    Extracted,
    Failed(DecmpError),
    /// The destination directory could not be created; the reason.
    DirNotCreated(String),
}

/// The browser's tree is well formed.
pub open spec fn app_wf(a: App) -> bool {
    tree_wf(a.ctx.tree)
}

/// The mode a popup puts the browser in.
pub open spec fn popup_mode(t: PopupType) -> Mode {
    match t {
        PopupType::Password => Mode::Password,
        PopupType::ExtractDest => Mode::ExtractDest,
        PopupType::Encoding => Mode::Encoding,
        PopupType::Help => Mode::Help,
    }
}

/// `p` is a newly opened popup of type `t` whose prompt holds `text`.
pub open spec fn fresh_popup(p: Option<ActivePopup>, t: PopupType, text: Seq<char>) -> bool {
    match p {
        Some(ActivePopup::Password(x)) => t == PopupType::Password && x.input@.len() == 0,
        Some(ActivePopup::ExtractDest(x)) => {
            &&& t == PopupType::ExtractDest
            &&& x.input@ == text
            &&& x.scroll.v_scroll == 0 && x.scroll.h_scroll == 0 && x.scroll.last_viewport == 0
        },
        Some(ActivePopup::Encoding(x)) => t == PopupType::Encoding && x.input@ == text,
        Some(ActivePopup::Help(x)) => t == PopupType::Help && x.scroll == 0,
        None => false,
    }
}

/// The text of an optional string, blank when there is none.
pub open spec fn text_or_blank(s: Option<String>) -> Seq<char> {
    match s {
        Some(x) => x@,
        None => Seq::empty(),
    }
}

/// The texts of an optional list of strings.
pub open spec fn names_view(v: Option<Vec<String>>) -> Option<Seq<Seq<char>>> {
    match v {
        Some(x) => Some(x@.map_values(|s: String| s@)),
        None => None,
    }
}

/// The texts of an optional string.
pub open spec fn opt_view(s: Option<String>) -> Option<Seq<char>> {
    match s {
        Some(x) => Some(x@),
        None => None,
    }
}

/// The status line holds `msg`.
pub open spec fn status_is(s: Option<String>, msg: Seq<char>) -> bool {
    s matches Some(m) && m@ == msg
}

/// The browser after it opened the popup of type `t` with `text`, in that
/// popup's mode; nothing else changed.
pub open spec fn opened(old: App, new: App, t: PopupType, text: Seq<char>) -> bool {
    &&& fresh_popup(new.active_popup, t, text)
    &&& new == App {
        ctx: AppContext { mode: popup_mode(t), ..old.ctx },
        active_popup: new.active_popup,
        ..old
    }
}

/// What an action does to the browser, and what it asks of the archive.
pub open spec fn process_post(old: App, new: App, a: Action, r: Option<Request>) -> bool {
    match a {
        Action::Quit => r is None && new == App { ctx: AppContext { should_quit: true, ..old.ctx }, ..old },
        Action::SelectionChanged { .. } => {
            &&& r is None
            &&& preview_action_post(old.preview, new.preview, a)
            &&& properties_action_post(old.properties, new.properties, a, old.ctx.entries@)
            &&& new == App { preview: new.preview, properties: new.properties, ..old }
        },
        Action::RequestPreviewLoad { full_name } => {
            &&& new == old
            &&& r matches Some(Request::LoadPreview { full_name: f, password: p, encoding: e })
            &&& f@ == full_name@ && opt_view(p) == opt_view(old.ctx.password) && opt_view(e)
                == opt_view(old.ctx.encoding)
        },
        Action::PreviewLoaded { .. } => {
            &&& r is None
            &&& preview_action_post(old.preview, new.preview, a)
            &&& new == App { preview: new.preview, ..old }
        },
        Action::ShowPopup(t) => r is None && opened(
            old,
            new,
            t,
            match t {
                PopupType::ExtractDest => old.cwd@,
                PopupType::Encoding => text_or_blank(old.ctx.encoding),
                _ => Seq::empty(),
            },
        ),
        Action::ClosePopup => r is None && new == App {
            ctx: AppContext { mode: Mode::Browse, ..old.ctx },
            active_popup: None,
            ..old
        },
        Action::StartExtract { full_name } => {
            &&& r is None
            &&& names_view(new.ctx.pending_extract_entries) == Some(seq![full_name@])
            &&& fresh_popup(
                new.active_popup,
                PopupType::ExtractDest,
                spec_path_join(old.cwd@, full_name@),
            )
            &&& new == App {
                ctx: AppContext {
                    mode: Mode::ExtractDest,
                    pending_extract_entries: new.ctx.pending_extract_entries,
                    ..old.ctx
                },
                active_popup: new.active_popup,
                ..old
            }
        },
        Action::StartExtractAll => {
            &&& r is None
            &&& fresh_popup(new.active_popup, PopupType::ExtractDest, old.cwd@)
            &&& new == App {
                ctx: AppContext {
                    mode: Mode::ExtractDest,
                    pending_extract_entries: None,
                    ..old.ctx
                },
                active_popup: new.active_popup,
                ..old
            }
        },
        Action::ConfirmExtract { dest } => {
            &&& opt_view(new.extract_dest_for_retry) == Some(dest@)
            &&& new == App { extract_dest_for_retry: new.extract_dest_for_retry, ..old }
            &&& r matches Some(
                Request::Extract { dest: d, entries: e, password: p, encoding: c, confirm },
            )
            &&& d@ == dest@ && names_view(e) == names_view(old.ctx.pending_extract_entries)
            &&& opt_view(p) == opt_view(old.ctx.password) && opt_view(c) == opt_view(
                old.ctx.encoding,
            ) && confirm
        },
        Action::RequestEncodingInput => r is None && opened(
            old,
            new,
            PopupType::Encoding,
            text_or_blank(old.ctx.encoding),
        ),
        Action::RequestEncodingReload(enc) => {
            &&& opt_view(new.ctx.encoding) == (if enc@.len() == 0 {
                None
            } else {
                Some(enc@)
            })
            &&& new == App { ctx: AppContext { encoding: new.ctx.encoding, ..old.ctx }, ..old }
            &&& r matches Some(Request::List { purpose, password: p, encoding: c })
            &&& purpose == ListPurpose::Reload && opt_view(p) == opt_view(old.ctx.password)
                && opt_view(c) == opt_view(new.ctx.encoding)
        },
        Action::PasswordSubmitted(pw) => {
            &&& opt_view(new.ctx.password) == Some(pw@)
            &&& match old.ctx.pending_action {
                Some(PendingAction::InitialLoad) => {
                    &&& new == App { ctx: AppContext { password: new.ctx.password, ..old.ctx }, ..old }
                    &&& r matches Some(Request::List { purpose, password: p, encoding: c })
                    &&& purpose == ListPurpose::Unlock && opt_view(p) == Some(pw@) && opt_view(c)
                        == opt_view(old.ctx.encoding)
                },
                Some(PendingAction::Extract) => {
                    &&& new == App {
                        ctx: AppContext {
                            password: new.ctx.password,
                            pending_action: None,
                            mode: Mode::Browse,
                            ..old.ctx
                        },
                        active_popup: None,
                        extract_dest_for_retry: None,
                        ..old
                    }
                    &&& match old.extract_dest_for_retry {
                        Some(dest) => r matches Some(
                            Request::Extract { dest: d, entries: e, password: p, encoding: c, confirm },
                        ) && d@ == dest@ && names_view(e) == names_view(
                            old.ctx.pending_extract_entries,
                        ) && opt_view(p) == Some(pw@) && opt_view(c) == opt_view(old.ctx.encoding)
                            && !confirm,
                        None => r is None,
                    }
                },
                None => {
                    &&& r is None
                    &&& status_is(new.ctx.status_msg, "Password set"@)
                    &&& new == App {
                        ctx: AppContext {
                            password: new.ctx.password,
                            mode: Mode::Browse,
                            status_msg: new.ctx.status_msg,
                            ..old.ctx
                        },
                        active_popup: None,
                        ..old
                    }
                },
            }
        },
    }
}

/// The browser after a failure shown as `Error: ` and the error's message.
pub open spec fn error_shown(s: Option<String>, e: DecmpError) -> bool {
    status_is(s, "Error: "@ + e.spec_message())
}

/// What a preview read does: a preview is kept and shown; a password failure
/// opens the password prompt to retry; another failure is shown.
pub open spec fn preview_done_post(
    old: App,
    new: App,
    full_name: Seq<char>,
    result: Result<SidePreview, DecmpError>,
) -> bool {
    match result {
        Ok(p) => {
            &&& loaded_post(old.preview, new.preview, full_name, preview_model(p))
            &&& new == App { preview: new.preview, ..old }
        },
        Err(e) => if e.spec_is_password_error() {
            &&& fresh_popup(new.active_popup, PopupType::Password, Seq::empty())
            &&& new == App {
                ctx: AppContext {
                    pending_action: Some(PendingAction::Extract),
                    mode: Mode::Password,
                    ..old.ctx
                },
                active_popup: new.active_popup,
                ..old
            }
        } else {
            &&& error_shown(new.ctx.status_msg, e)
            &&& new == App { ctx: AppContext { status_msg: new.ctx.status_msg, ..old.ctx }, ..old }
        },
    }
}

/// The entries after their names lost a leading `./`.
pub open spec fn normalized(old: Seq<ArchiveEntry>, new: Seq<ArchiveEntry>) -> bool {
    &&& new.len() == old.len()
    &&& forall|i: int|
        0 <= i < old.len() ==> {
            let (a, b) = (#[trigger] new[i], old[i]);
            &&& a.name@ == spec_strip_dot_slash(b.name@)
            &&& a.size == b.size
            &&& a.compressed_size == b.compressed_size
            &&& a.is_dir == b.is_dir
            &&& a.method == b.method
            &&& a.modified == b.modified
        }
}

/// The browser shows a new listing: the normalized entries and their tree,
/// the file list at the root, no previews kept.
pub open spec fn relisted(old: App, new: App, listed: Seq<ArchiveEntry>) -> bool {
    &&& normalized(listed, new.ctx.entries@)
    &&& tree_wf(new.ctx.tree)
    &&& tree_model(new.ctx.tree) == model_of_entries(new.ctx.entries@)
    &&& new.file_list.current_path@.len() == 0 && new.file_list.selected is None
    &&& new.file_list.horizontal_scroll == old.file_list.horizontal_scroll
    &&& new.file_list.area == old.file_list.area
    &&& new.preview.cache@.len() == 0
    &&& new.preview.content.name@.len() == 0 && !new.preview.content.is_dir
        && new.preview.content.lines@.len() == 0
    &&& new.preview.scroll == old.preview.scroll && new.preview.area == old.preview.area
}

/// The text of the encoding in use for the status line.
pub open spec fn encoding_status(enc: Option<String>) -> Seq<char> {
    match enc {
        Some(e) => "Encoding: "@ + e@,
        None => "Encoding: auto (auto)"@,
    }
}

/// What a listing does. Unlocking: the entries are shown and the prompt
/// closed; a password failure asks again; another failure is shown and the
/// prompt closed. Reloading: the entries are shown with the encoding named; a
/// password failure asks for one; another failure is shown.
pub open spec fn listed_post(
    old: App,
    new: App,
    purpose: ListPurpose,
    result: Result<Vec<ArchiveEntry>, DecmpError>,
) -> bool {
    match result {
        Ok(listed) => {
            &&& relisted(old, new, listed@)
            &&& new.properties == old.properties
            &&& new.extract_dest_for_retry == old.extract_dest_for_retry
            &&& new.cwd == old.cwd
            &&& new.ctx.focus == old.ctx.focus && new.ctx.password == old.ctx.password
            &&& new.ctx.encoding == old.ctx.encoding && new.ctx.should_quit == old.ctx.should_quit
            &&& new.ctx.pending_extract_entries == old.ctx.pending_extract_entries
            &&& new.ctx.mode == Mode::Browse
            &&& match purpose {
                ListPurpose::Unlock => {
                    &&& new.ctx.pending_action is None
                    &&& new.ctx.status_msg is None
                    &&& new.active_popup is None
                },
                ListPurpose::Reload => {
                    &&& new.ctx.pending_action == old.ctx.pending_action
                    &&& status_is(new.ctx.status_msg, encoding_status(old.ctx.encoding))
                    &&& new.active_popup == old.active_popup
                },
            }
        },
        Err(e) => if e.spec_is_password_error() {
            match purpose {
                ListPurpose::Unlock => {
                    &&& status_is(new.ctx.status_msg, "Wrong password, try again"@)
                    &&& new == App {
                        ctx: AppContext {
                            password: None,
                            status_msg: new.ctx.status_msg,
                            ..old.ctx
                        },
                        ..old
                    }
                },
                ListPurpose::Reload => {
                    &&& status_is(new.ctx.status_msg, "Password required to reload"@)
                    &&& new == App {
                        ctx: AppContext {
                            password: None,
                            pending_action: Some(PendingAction::InitialLoad),
                            mode: Mode::Password,
                            status_msg: new.ctx.status_msg,
                            ..old.ctx
                        },
                        ..old
                    }
                },
            }
        } else {
            &&& error_shown(new.ctx.status_msg, e)
            &&& match purpose {
                ListPurpose::Unlock => new == App {
                    ctx: AppContext {
                        pending_action: None,
                        mode: Mode::Browse,
                        status_msg: new.ctx.status_msg,
                        ..old.ctx
                    },
                    active_popup: None,
                    ..old
                },
                ListPurpose::Reload => new == App {
                    ctx: AppContext { status_msg: new.ctx.status_msg, ..old.ctx },
                    ..old
                },
            }
        },
    }
}

/// The context after an extraction: done, it is reported and nothing waits;
/// a password failure asks for the password to retry; another failure is
/// shown and nothing waits.
pub open spec fn extracted_ctx(old: AppContext, new: AppContext, dest: Seq<char>, outcome: ExtractOutcome) -> bool {
    match outcome {
        ExtractOutcome::Extracted => {
            &&& status_is(new.status_msg, "Extracted to "@ + dest)
            &&& new == AppContext {
                status_msg: new.status_msg,
                mode: Mode::Browse,
                pending_extract_entries: None,
                ..old
            }
        },
        ExtractOutcome::Failed(e) => if e.spec_is_password_error() {
            new == AppContext {
                pending_action: Some(PendingAction::Extract),
                mode: Mode::Password,
                ..old
            }
        } else {
            &&& error_shown(new.status_msg, e)
            &&& new == AppContext {
                status_msg: new.status_msg,
                mode: Mode::Browse,
                pending_extract_entries: None,
                ..old
            }
        },
        ExtractOutcome::DirNotCreated(msg) => {
            &&& status_is(new.status_msg, "Error creating dir: "@ + msg@)
            &&& new == AppContext { status_msg: new.status_msg, mode: Mode::Browse, ..old }
        },
    }
}

/// What an extraction's end does: the context as above; after a confirmed
/// destination, the popup closes, or becomes the password prompt when a
/// password is wanted.
pub open spec fn extract_done_post(old: App, new: App, confirm: bool, dest: Seq<char>, outcome: ExtractOutcome) -> bool {
    &&& extracted_ctx(old.ctx, new.ctx, dest, outcome)
    &&& if confirm {
        if new.ctx.mode == Mode::Password {
            fresh_popup(new.active_popup, PopupType::Password, Seq::empty())
        } else {
            new.active_popup is None
        }
    } else {
        new.active_popup == old.active_popup
    }
    &&& new == App { ctx: new.ctx, active_popup: new.active_popup, ..old }
}

/// Whether a tile can take the focus: the status bar cannot, the preview only
/// while it shows a directory or text.
pub open spec fn spec_focusable(a: App, t: TileId) -> bool {
    match t {
        TileId::FileList => true,
        TileId::Properties => true,
        TileId::Preview => a.preview.content.is_dir || a.preview.content.lines@.len() > 0,
        TileId::StatusBar => false,
    }
}

/// What an input event sent to a tile does.
pub open spec fn tile_input_post(old: App, new: App, t: TileId, event: InputEvent, r: Seq<Action>) -> bool {
    match t {
        TileId::FileList => {
            &&& match event {
                InputEvent::Key(k) => key_post(old.file_list, new.file_list, k.code, old.ctx.tree, r),
                InputEvent::Mouse(m) => mouse_post(old.file_list, new.file_list, m, old.ctx.tree, r),
            }
            &&& new == App { file_list: new.file_list, ..old }
        },
        TileId::Preview => {
            &&& preview_input_post(old.preview, new.preview, event)
            &&& r.len() == 0
            &&& new == App { preview: new.preview, ..old }
        },
        TileId::Properties => {
            &&& properties_input_post(old.properties, new.properties, event)
            &&& r.len() == 0
            &&& new == App { properties: new.properties, ..old }
        },
        TileId::StatusBar => new == old && r.len() == 0,
    }
}

/// What a key does while no popup is open: keys with a modifier do nothing;
/// `q` quits; Tab moves the focus; `?` asks for the help; Esc and Backspace
/// go to the file list; other keys to the focused tile.
pub open spec fn key_dispatch_post(old: App, new: App, k: crate::tui::input::KeyEvent, r: Seq<Action>) -> bool {
    if !k.plain {
        new == old && r.len() == 0
    } else if k.code == KeyCode::Char('q') {
        new == App { ctx: AppContext { should_quit: true, ..old.ctx }, ..old } && r.len() == 0
    } else if k.code == KeyCode::Tab {
        new == App {
            ctx: AppContext { focus: TileId::spec_next_focus(old.ctx.focus), ..old.ctx },
            ..old
        } && r.len() == 0
    } else if k.code == KeyCode::Char('?') {
        new == old && r == seq![Action::ShowPopup(PopupType::Help)]
    } else if k.code == KeyCode::Esc || k.code == KeyCode::Backspace {
        tile_input_post(old, new, TileId::FileList, InputEvent::Key(k), r)
    } else {
        tile_input_post(old, new, old.ctx.focus, InputEvent::Key(k), r)
    }
}

/// The first tile listed whose area holds the cell.
pub open spec fn first_hit(areas: Seq<(TileId, Area)>, column: u16, row: u16) -> Option<int>
    decreases areas.len(),
{
    if areas.len() == 0 {
        None
    } else if spec_in_area(column, row, areas[0].1) {
        Some(0)
    } else {
        match first_hit(areas.drop_first(), column, row) {
            Some(i) => Some(i + 1),
            None => None,
        }
    }
}

/// What a mouse event does while no popup is open: a click on a tile that can
/// take the focus gives it the focus; the tile under the pointer gets the
/// event.
pub open spec fn mouse_dispatch_post(old: App, new: App, m: MouseEvent, areas: Seq<(TileId, Area)>, r: Seq<Action>) -> bool {
    match first_hit(areas, m.column, m.row) {
        None => new == old && r.len() == 0,
        Some(i) => {
            let t = areas[i].0;
            let focused = if m.kind == MouseKind::LeftDown && spec_focusable(old, t) {
                App { ctx: AppContext { focus: t, ..old.ctx }, ..old }
            } else {
                old
            };
            tile_input_post(focused, new, t, InputEvent::Mouse(m), r)
        },
    }
}

/// What an input event does to a popup: the password prompt quits rather than
/// closes when the archive waits for the password; the prompts read keys
/// only.
pub open spec fn popup_input_post(old: App, new: App, event: InputEvent, r: Seq<Action>) -> bool {
    &&& new.ctx == old.ctx && new.file_list == old.file_list && new.preview == old.preview
    &&& new.properties == old.properties && new.extract_dest_for_retry == old.extract_dest_for_retry
    &&& new.cwd == old.cwd
    &&& match (old.active_popup, new.active_popup) {
        (Some(ActivePopup::Password(a)), Some(ActivePopup::Password(b))) => match event {
            InputEvent::Key(k) => password_post(
                a.input@,
                b.input@,
                k.code,
                old.ctx.pending_action == Some(PendingAction::InitialLoad),
                r,
            ),
            InputEvent::Mouse(_) => b.input@ == a.input@ && r.len() == 0,
        },
        (Some(ActivePopup::ExtractDest(a)), Some(ActivePopup::ExtractDest(b))) => {
            &&& b.scroll == a.scroll
            &&& match event {
                InputEvent::Key(k) => dest_post(a.input@, b.input@, k.code, r),
                InputEvent::Mouse(_) => b.input@ == a.input@ && r.len() == 0,
            }
        },
        (Some(ActivePopup::Encoding(a)), Some(ActivePopup::Encoding(b))) => match event {
            InputEvent::Key(k) => encoding_post(a.input@, b.input@, k.code, r),
            InputEvent::Mouse(_) => b.input@ == a.input@ && r.len() == 0,
        },
        (Some(ActivePopup::Help(a)), Some(ActivePopup::Help(b))) => help_post(
            a.scroll as int,
            b.scroll as int,
            event,
            r,
        ),
        _ => false,
    }
}

/// What an input event does: nothing once quitting; else a popup takes it,
/// or the tiles do.
pub open spec fn input_post(old: App, new: App, event: InputEvent, areas: Seq<(TileId, Area)>, r: Seq<Action>) -> bool {
    if old.ctx.should_quit {
        new == old && r.len() == 0
    } else if old.active_popup is Some {
        popup_input_post(old, new, event, r)
    } else {
        match event {
            InputEvent::Key(k) => key_dispatch_post(old, new, k, r),
            InputEvent::Mouse(m) => mouse_dispatch_post(old, new, m, areas, r),
        }
    }
}

/// A copy of an optional string.
fn copy_opt(s: &Option<String>) -> (r: Option<String>)
    ensures
        opt_view(r) == opt_view(*s),
{
    match s {
        Some(x) => Some(x.clone()),
        None => None,
    }
}

/// A copy of an optional list of strings.
fn copy_names(v: &Option<Vec<String>>) -> (r: Option<Vec<String>>)
    ensures
        names_view(r) == names_view(*v),
{
    match v {
        Some(x) => {
            let c = x.clone();
            assert(c@.map_values(|s: String| s@) =~= x@.map_values(|s: String| s@));
            Some(c)
        },
        None => None,
    }
}

/// `Error: ` and the error's message.
fn error_text(e: &DecmpError) -> (r: String)
    ensures
        r@ == "Error: "@ + e.spec_message(),
{
    let m = e.message();
    concat2("Error: ", m.as_str())
}

impl App {
    /// The browser over `entries`, at the root with nothing selected; `cwd` is
    /// where destinations start.
    pub fn new(entries: Vec<ArchiveEntry>, cwd: String) -> (r: App)
        ensures
            app_wf(r),
            normalized(entries@, r.ctx.entries@),
            tree_model(r.ctx.tree) == model_of_entries(r.ctx.entries@),
            r.ctx.focus == TileId::FileList,
            r.ctx.password is None && r.ctx.encoding is None,
            r.ctx.mode == Mode::Browse,
            r.ctx.status_msg is None,
            !r.ctx.should_quit,
            r.ctx.pending_extract_entries is None && r.ctx.pending_action is None,
            r.file_list.current_path@.len() == 0 && r.file_list.selected is None,
            r.file_list.horizontal_scroll == 0,
            r.file_list.area == (Area { x: 0, y: 0, width: 0, height: 0 }),
            r.preview.cache@.len() == 0 && named_blank(r.preview.content, Seq::empty()),
            r.preview.scroll.v_scroll == 0 && r.preview.scroll.h_scroll == 0
                && r.preview.scroll.last_viewport == 0,
            r.preview.area == (Area { x: 0, y: 0, width: 0, height: 0 }),
            r.properties.selected_entry is None && r.properties.scroll == 0,
            r.active_popup is None,
            r.extract_dest_for_retry is None,
            r.cwd@ == cwd@,
    {
        let mut entries = entries;
        normalize_entry_names(&mut entries);
        let tree = DirTree::from_entries(entries.as_slice());
        let mut file_list = FileListTile::new();
        file_list.reset();
        App {
            ctx: AppContext {
                entries,
                tree,
                focus: TileId::FileList,
                password: None,
                encoding: None,
                mode: Mode::Browse,
                status_msg: None,
                should_quit: false,
                pending_extract_entries: None,
                pending_action: None,
            },
            file_list,
            preview: PreviewTile::new(),
            properties: PropertiesTile::new(),
            active_popup: None,
            extract_dest_for_retry: None,
            cwd,
        }
    }

    /// The browser over an archive that cannot be listed without a password:
    /// no entries, the password prompt open, the archive itself waiting.
    pub fn new_password_required(cwd: String) -> (r: App)
        ensures
            app_wf(r),
            r.ctx.entries@.len() == 0,
            r.ctx.mode == Mode::Password,
            r.ctx.pending_action == Some(PendingAction::InitialLoad),
            status_is(r.ctx.status_msg, "Password required to open archive"@),
            fresh_popup(r.active_popup, PopupType::Password, Seq::empty()),
            r.ctx.password is None && r.ctx.encoding is None,
            !r.ctx.should_quit,
            r.cwd@ == cwd@,
    {
        let mut app = App::new(Vec::new(), cwd);
        app.ctx.mode = Mode::Password;
        app.ctx.pending_action = Some(PendingAction::InitialLoad);
        app.ctx.status_msg = Some(String::from_str("Password required to open archive"));
        app.active_popup = Some(ActivePopup::Password(PasswordPopup::new()));
        app
    }

    /// Answers one action; gives the work on the archive it calls for, whose
    /// outcome goes to [`App::preview_done`], [`App::listed`] or
    /// [`App::extract_done`].
    pub fn process_action(&mut self, action: Action) -> (r: Option<Request>)
        requires
            app_wf(*old(self)),
        ensures
            app_wf(*final(self)),
            process_post(*old(self), *final(self), action, r),
    {
        match action {
            Action::Quit => {
                self.ctx.should_quit = true;
                None
            },
            Action::SelectionChanged { .. } => {
                self.preview.handle_action(&action);
                self.properties.handle_action(&action, &self.ctx.entries);
                None
            },
            Action::RequestPreviewLoad { full_name } => {
                Some(
                    Request::LoadPreview {
                        full_name,
                        password: copy_opt(&self.ctx.password),
                        encoding: copy_opt(&self.ctx.encoding),
                    },
                )
            },
            Action::PreviewLoaded { .. } => {
                self.preview.handle_action(&action);
                None
            },
            Action::ShowPopup(t) => {
                match t {
                    PopupType::Password => {
                        self.ctx.mode = Mode::Password;
                        self.active_popup = Some(ActivePopup::Password(PasswordPopup::new()));
                    },
                    PopupType::ExtractDest => {
                        self.ctx.mode = Mode::ExtractDest;
                        self.active_popup = Some(
                            ActivePopup::ExtractDest(ExtractDestPopup::new(self.cwd.as_str())),
                        );
                    },
                    PopupType::Encoding => {
                        self.ctx.mode = Mode::Encoding;
                        let popup = match &self.ctx.encoding {
                            Some(e) => EncodingPopup::new(Some(e.as_str())),
                            None => EncodingPopup::new(None),
                        };
                        self.active_popup = Some(ActivePopup::Encoding(popup));
                    },
                    PopupType::Help => {
                        self.ctx.mode = Mode::Help;
                        self.active_popup = Some(ActivePopup::Help(HelpPopup::new()));
                    },
                }
                None
            },
            Action::ClosePopup => {
                self.ctx.mode = Mode::Browse;
                self.active_popup = None;
                None
            },
            Action::StartExtract { full_name } => {
                let dest = path_join(self.cwd.as_str(), full_name.as_str());
                let mut names = Vec::new();
                names.push(full_name);
                assert(names@.map_values(|s: String| s@) =~= seq![names@[0]@]);
                self.ctx.pending_extract_entries = Some(names);
                self.ctx.mode = Mode::ExtractDest;
                self.active_popup = Some(
                    ActivePopup::ExtractDest(ExtractDestPopup::new(dest.as_str())),
                );
                None
            },
            Action::StartExtractAll => {
                self.ctx.pending_extract_entries = None;
                self.ctx.mode = Mode::ExtractDest;
                self.active_popup = Some(
                    ActivePopup::ExtractDest(ExtractDestPopup::new(self.cwd.as_str())),
                );
                None
            },
            Action::ConfirmExtract { dest } => {
                self.extract_dest_for_retry = Some(dest.clone());
                Some(
                    Request::Extract {
                        dest,
                        entries: copy_names(&self.ctx.pending_extract_entries),
                        password: copy_opt(&self.ctx.password),
                        encoding: copy_opt(&self.ctx.encoding),
                        confirm: true,
                    },
                )
            },
            Action::RequestEncodingInput => {
                self.ctx.mode = Mode::Encoding;
                let popup = match &self.ctx.encoding {
                    Some(e) => EncodingPopup::new(Some(e.as_str())),
                    None => EncodingPopup::new(None),
                };
                self.active_popup = Some(ActivePopup::Encoding(popup));
                None
            },
            Action::RequestEncodingReload(enc) => {
                self.ctx.encoding = if enc.unicode_len() == 0 {
                    None
                } else {
                    Some(enc)
                };
                Some(
                    Request::List {
                        purpose: ListPurpose::Reload,
                        password: copy_opt(&self.ctx.password),
                        encoding: copy_opt(&self.ctx.encoding),
                    },
                )
            },
            Action::PasswordSubmitted(pw) => {
                self.ctx.password = Some(pw);
                match self.ctx.pending_action {
                    Some(PendingAction::InitialLoad) => {
                        Some(
                            Request::List {
                                purpose: ListPurpose::Unlock,
                                password: copy_opt(&self.ctx.password),
                                encoding: copy_opt(&self.ctx.encoding),
                            },
                        )
                    },
                    Some(PendingAction::Extract) => {
                        self.ctx.pending_action = None;
                        self.ctx.mode = Mode::Browse;
                        self.active_popup = None;
                        match self.extract_dest_for_retry.take() {
                            Some(dest) => Some(
                                Request::Extract {
                                    dest,
                                    entries: copy_names(&self.ctx.pending_extract_entries),
                                    password: copy_opt(&self.ctx.password),
                                    encoding: copy_opt(&self.ctx.encoding),
                                    confirm: false,
                                },
                            ),
                            None => None,
                        }
                    },
                    None => {
                        self.ctx.mode = Mode::Browse;
                        self.ctx.status_msg = Some(String::from_str("Password set"));
                        self.active_popup = None;
                        None
                    },
                }
            },
        }
    }

    /// Takes in the outcome of reading an entry for its preview.
    pub fn preview_done(&mut self, full_name: String, result: Result<SidePreview, DecmpError>)
        requires
            app_wf(*old(self)),
        ensures
            app_wf(*final(self)),
            preview_done_post(*old(self), *final(self), full_name@, result),
    {
        match result {
            Ok(p) => {
                self.preview.handle_preview_loaded(full_name, p);
            },
            Err(e) => {
                if e.is_password_error() {
                    self.ctx.pending_action = Some(PendingAction::Extract);
                    self.ctx.mode = Mode::Password;
                    self.active_popup = Some(ActivePopup::Password(PasswordPopup::new()));
                } else {
                    self.ctx.status_msg = Some(error_text(&e));
                }
            },
        }
    }

    /// Shows a new listing of the archive.
    fn show_listing(&mut self, listed: Vec<ArchiveEntry>)
        requires
            app_wf(*old(self)),
        ensures
            app_wf(*final(self)),
            relisted(*old(self), *final(self), listed@),
            final(self).ctx == (AppContext {
                entries: final(self).ctx.entries,
                tree: final(self).ctx.tree,
                ..old(self).ctx
            }),
            final(self).properties == old(self).properties,
            final(self).active_popup == old(self).active_popup,
            final(self).extract_dest_for_retry == old(self).extract_dest_for_retry,
            final(self).cwd == old(self).cwd,
    {
        let mut entries = listed;
        normalize_entry_names(&mut entries);
        self.ctx.tree = DirTree::from_entries(entries.as_slice());
        self.ctx.entries = entries;
        self.file_list.reset();
        self.preview.clear_cache();
    }

    /// Takes in the outcome of listing the entries again.
    pub fn listed(&mut self, purpose: ListPurpose, result: Result<Vec<ArchiveEntry>, DecmpError>)
        requires
            app_wf(*old(self)),
        ensures
            app_wf(*final(self)),
            listed_post(*old(self), *final(self), purpose, result),
    {
        match result {
            Ok(listed) => {
                self.show_listing(listed);
                self.ctx.mode = Mode::Browse;
                match purpose {
                    ListPurpose::Unlock => {
                        self.ctx.pending_action = None;
                        self.ctx.status_msg = None;
                        self.active_popup = None;
                    },
                    ListPurpose::Reload => {
                        let msg = match &self.ctx.encoding {
                            Some(e) => concat2("Encoding: ", e.as_str()),
                            None => String::from_str("Encoding: auto (auto)"),
                        };
                        self.ctx.status_msg = Some(msg);
                    },
                }
            },
            Err(e) => {
                if e.is_password_error() {
                    self.ctx.password = None;
                    match purpose {
                        ListPurpose::Unlock => {
                            self.ctx.status_msg = Some(String::from_str("Wrong password, try again"));
                        },
                        ListPurpose::Reload => {
                            self.ctx.pending_action = Some(PendingAction::InitialLoad);
                            self.ctx.mode = Mode::Password;
                            self.ctx.status_msg = Some(
                                String::from_str("Password required to reload"),
                            );
                        },
                    }
                } else {
                    self.ctx.status_msg = Some(error_text(&e));
                    if purpose == ListPurpose::Unlock {
                        self.ctx.pending_action = None;
                        self.ctx.mode = Mode::Browse;
                        self.active_popup = None;
                    }
                }
            },
        }
    }

    /// Takes in how an extraction to `dest` ended.
    pub fn extract_done(&mut self, confirm: bool, dest: &str, outcome: ExtractOutcome)
        requires
            app_wf(*old(self)),
        ensures
            app_wf(*final(self)),
            extract_done_post(*old(self), *final(self), confirm, dest@, outcome),
    {
        match &outcome {
            ExtractOutcome::Extracted => {
                self.ctx.status_msg = Some(concat2("Extracted to ", dest));
                self.ctx.mode = Mode::Browse;
                self.ctx.pending_extract_entries = None;
            },
            ExtractOutcome::Failed(e) => {
                if e.is_password_error() {
                    self.ctx.pending_action = Some(PendingAction::Extract);
                    self.ctx.mode = Mode::Password;
                } else {
                    self.ctx.status_msg = Some(error_text(e));
                    self.ctx.mode = Mode::Browse;
                    self.ctx.pending_extract_entries = None;
                }
            },
            ExtractOutcome::DirNotCreated(msg) => {
                self.ctx.status_msg = Some(concat2("Error creating dir: ", msg.as_str()));
                self.ctx.mode = Mode::Browse;
            },
        }
        if confirm {
            if self.ctx.mode == Mode::Password {
                self.active_popup = Some(ActivePopup::Password(PasswordPopup::new()));
            } else {
                self.active_popup = None;
            }
        }
    }

    /// Whether a tile can take the focus.
    pub fn focusable(&self, t: TileId) -> (r: bool)
        ensures
            r == spec_focusable(*self, t),
    {
        match t {
            TileId::FileList => true,
            TileId::Properties => true,
            TileId::Preview => self.preview.focusable(),
            TileId::StatusBar => false,
        }
    }

    /// Sends an input event to a tile.
    pub fn dispatch_to(&mut self, t: TileId, event: InputEvent) -> (r: Vec<Action>)
        requires
            app_wf(*old(self)),
        ensures
            app_wf(*final(self)),
            tile_input_post(*old(self), *final(self), t, event, r@),
    {
        match t {
            TileId::FileList => self.file_list.handle_input(event, &self.ctx.tree),
            TileId::Preview => self.preview.handle_input(event),
            TileId::Properties => self.properties.handle_input(event),
            TileId::StatusBar => Vec::new(),
        }
    }

    /// Answers a key while no popup is open.
    pub fn dispatch_key(&mut self, k: crate::tui::input::KeyEvent) -> (r: Vec<Action>)
        requires
            app_wf(*old(self)),
        ensures
            app_wf(*final(self)),
            key_dispatch_post(*old(self), *final(self), k, r@),
    {
        if !k.plain {
            return Vec::new();
        }
        match k.code {
            KeyCode::Char('q') => {
                self.ctx.should_quit = true;
                Vec::new()
            },
            KeyCode::Tab => {
                self.ctx.focus = TileId::next_focus(self.ctx.focus);
                Vec::new()
            },
            KeyCode::Char('?') => {
                let mut r = Vec::new();
                r.push(Action::ShowPopup(PopupType::Help));
                assert(r@ =~= seq![Action::ShowPopup(PopupType::Help)]);
                r
            },
            KeyCode::Esc | KeyCode::Backspace => self.dispatch_to(TileId::FileList, InputEvent::Key(k)),
            _ => {
                let focus = self.ctx.focus;
                self.dispatch_to(focus, InputEvent::Key(k))
            },
        }
    }

    /// Answers a mouse event while no popup is open; `areas` are where the
    /// tiles were last drawn.
    pub fn dispatch_mouse(&mut self, m: MouseEvent, areas: &Vec<(TileId, Area)>) -> (r: Vec<Action>)
        requires
            app_wf(*old(self)),
        ensures
            app_wf(*final(self)),
            mouse_dispatch_post(*old(self), *final(self), m, areas@, r@),
    {
        let mut i: usize = 0;
        assert(areas@.skip(0) =~= areas@);
        while i < areas.len()
            invariant
                i <= areas@.len(),
                *self == *old(self),
                app_wf(*self),
                first_hit(areas@, m.column, m.row) == (match first_hit(areas@.skip(i as int), m.column, m.row) {
                    Some(j) => Some(j + i),
                    None => None,
                }),
            decreases areas.len() - i,
        {
            assert(areas@.skip(i as int).drop_first() =~= areas@.skip(i + 1));
            let (t, area) = areas[i];
            if in_area(m.column, m.row, area) {
                if m.kind == MouseKind::LeftDown && self.focusable(t) {
                    self.ctx.focus = t;
                }
                return self.dispatch_to(t, InputEvent::Mouse(m));
            }
            i = i + 1;
        }
        assert(areas@.skip(i as int) =~= Seq::<(TileId, Area)>::empty());
        Vec::new()
    }

    /// Answers an input event; gives the actions it raised, to be answered in
    /// turn with [`App::process_action`].
    pub fn dispatch_all_input(&mut self, event: InputEvent, areas: &Vec<(TileId, Area)>) -> (r: Vec<Action>)
        requires
            app_wf(*old(self)),
        ensures
            app_wf(*final(self)),
            input_post(*old(self), *final(self), event, areas@, r@),
    {
        if self.ctx.should_quit {
            return Vec::new();
        }
        let initial_load = match self.ctx.pending_action {
            Some(PendingAction::InitialLoad) => true,
            _ => false,
        };
        match &mut self.active_popup {
            Some(ActivePopup::Password(p)) => {
                return match event {
                    InputEvent::Key(k) => p.handle_key(k.code, initial_load),
                    InputEvent::Mouse(_) => Vec::new(),
                };
            },
            Some(ActivePopup::ExtractDest(p)) => {
                return match event {
                    InputEvent::Key(k) => p.handle_key(k.code),
                    InputEvent::Mouse(_) => Vec::new(),
                };
            },
            Some(ActivePopup::Encoding(p)) => {
                return match event {
                    InputEvent::Key(k) => p.handle_key(k.code),
                    InputEvent::Mouse(_) => Vec::new(),
                };
            },
            Some(ActivePopup::Help(p)) => {
                return p.handle_input(event);
            },
            None => {},
        }
        match event {
            InputEvent::Key(k) => self.dispatch_key(k),
            InputEvent::Mouse(m) => self.dispatch_mouse(m, areas),
        }
    }
}

/// Once the browser quits, no input changes it or raises anything.
pub proof fn law_quit_is_final(
    a0: App,
    a1: App,
    r: Option<Request>,
    event: InputEvent,
    areas: Seq<(TileId, Area)>,
    a2: App,
    r2: Seq<Action>,
)
    requires
        process_post(a0, a1, Action::Quit, r),
        input_post(a1, a2, event, areas, r2),
    ensures
        a2 == a1,
        r2.len() == 0,
{
}

/// Closing a popup just opened leaves the browser as it was, browsing.
pub proof fn law_close_after_open(
    a0: App,
    a1: App,
    a2: App,
    t: PopupType,
    r1: Option<Request>,
    r2: Option<Request>,
)
    requires
        process_post(a0, a1, Action::ShowPopup(t), r1),
        process_post(a1, a2, Action::ClosePopup, r2),
    ensures
        a2 == (App { ctx: AppContext { mode: Mode::Browse, ..a0.ctx }, active_popup: None, ..a0 }),
        r1 is None && r2 is None,
{
}

/// An extraction refused for want of a password is tried again, to the same
/// destination and with the same entries, once a password is entered.
pub proof fn law_extraction_retried_with_password(
    a0: App,
    a1: App,
    a2: App,
    a3: App,
    dest: String,
    e: DecmpError,
    pw: String,
    r1: Option<Request>,
    r3: Option<Request>,
)
    requires
        e.spec_is_password_error(),
        process_post(a0, a1, Action::ConfirmExtract { dest }, r1),
        extract_done_post(a1, a2, true, dest@, ExtractOutcome::Failed(e)),
        process_post(a2, a3, Action::PasswordSubmitted(pw), r3),
    ensures
        a2.ctx.mode == Mode::Password,
        fresh_popup(a2.active_popup, PopupType::Password, Seq::empty()),
        r3 matches Some(Request::Extract { dest: d, entries, password: p, encoding: _, confirm })
            && d@ == dest@ && names_view(entries) == names_view(a0.ctx.pending_extract_entries)
            && opt_view(p) == Some(pw@) && !confirm,
        a3.ctx.mode == Mode::Browse,
        a3.active_popup is None,
{
}

} // verus!
