//! The popups: the password and destination prompts, the encoding prompt and
//! the help text, and how each answers keys and the mouse.
use vstd::prelude::*;

use crate::text::{pop_char, push_char, push_repeated, trim, trimmed};
use crate::tui::action::{Action, PopupType};
use crate::tui::input::{InputEvent, KeyCode, MouseKind};
use crate::tui::scroll::{sub_floor, ScrollState};
use vstd::utf8::encode_utf8;

verus! {

/// The password prompt; what is typed is shown masked.
pub struct PasswordPopup {
    pub input: String,
}

/// The prompt for the directory to extract to.
pub struct ExtractDestPopup {
    pub input: String,
    pub scroll: ScrollState,
}

/// The prompt for the encoding of entry names; blank means detect it.
pub struct EncodingPopup {
    pub input: String,
}

/// The help text.
pub struct HelpPopup {
    pub scroll: usize,
}

/// The popup shown over the tiles.
pub enum ActivePopup {
    Password(PasswordPopup),
    ExtractDest(ExtractDestPopup),
    Encoding(EncodingPopup),
    Help(HelpPopup),
}

/// What typing does to a prompt's text: Backspace removes the last character,
/// a character is appended; anything else leaves it.
pub open spec fn edited(input: Seq<char>, code: KeyCode) -> Seq<char> {
    match code {
        KeyCode::Backspace => if input.len() > 0 {
            input.drop_last()
        } else {
            input
        },
        KeyCode::Char(c) => input.push(c),
        _ => input,
    }
}

/// The key closes a prompt: Esc or `q`.
pub open spec fn closes(code: KeyCode) -> bool {
    code == KeyCode::Esc || code == KeyCode::Char('q')
}

/// What a prompt does with a key that neither closes nor submits it.
fn edit(input: &mut String, code: KeyCode)
    ensures
        final(input)@ == edited(old(input)@, code),
{
    match code {
        KeyCode::Backspace => {
            let _ = pop_char(input);
        },
        KeyCode::Char(c) => push_char(input, c),
        _ => {},
    }
}

/// What a key does to the password prompt: Esc or `q` clears it and quits
/// when the archive could not be opened without a password, else closes it;
/// Enter submits the password and clears it; other keys edit it.
pub open spec fn password_post(
    old: Seq<char>,
    new: Seq<char>,
    code: KeyCode,
    initial_load: bool,
    r: Seq<Action>,
) -> bool {
    if closes(code) {
        &&& new.len() == 0
        &&& r.len() == 1
        &&& if initial_load {
            r[0] is Quit
        } else {
            r[0] is ClosePopup
        }
    } else if code == KeyCode::Enter {
        &&& new.len() == 0
        &&& r.len() == 1
        &&& r[0] matches Action::PasswordSubmitted(pw) && pw@ == old
    } else {
        new == edited(old, code) && r.len() == 0
    }
}

/// What a key does to the destination prompt: Esc or `q` closes it; Enter
/// confirms the destination and clears it; other keys edit it.
pub open spec fn dest_post(old: Seq<char>, new: Seq<char>, code: KeyCode, r: Seq<Action>) -> bool {
    if closes(code) {
        new == old && r.len() == 1 && r[0] is ClosePopup
    } else if code == KeyCode::Enter {
        &&& new.len() == 0
        &&& r.len() == 1
        &&& r[0] matches Action::ConfirmExtract { dest } && dest@ == old
    } else {
        new == edited(old, code) && r.len() == 0
    }
}

/// What a key does to the encoding prompt: Esc or `q` closes it; Enter asks
/// to reload with the trimmed text; other keys edit it.
pub open spec fn encoding_post(old: Seq<char>, new: Seq<char>, code: KeyCode, r: Seq<Action>) -> bool {
    if closes(code) {
        new == old && r.len() == 1 && r[0] is ClosePopup
    } else if code == KeyCode::Enter {
        &&& new == old
        &&& r.len() == 1
        &&& r[0] matches Action::RequestEncodingReload(e) && e@ == trimmed(old)
    } else {
        new == edited(old, code) && r.len() == 0
    }
}

/// What an event does to the help text: Esc, `?` or `q` closes it; Up, `k`,
/// Down and `j` scroll a line, the wheel three.
pub open spec fn help_post(old: int, new: int, event: InputEvent, r: Seq<Action>) -> bool {
    match event {
        InputEvent::Key(k) => if k.code == KeyCode::Esc || k.code == KeyCode::Char('?') || k.code
            == KeyCode::Char('q') {
            new == old && r.len() == 1 && r[0] is ClosePopup
        } else if k.code == KeyCode::Up || k.code == KeyCode::Char('k') {
            new == sub_floor(old, 1) && r.len() == 0
        } else if k.code == KeyCode::Down || k.code == KeyCode::Char('j') {
            new == (if old < usize::MAX {
                old + 1
            } else {
                old
            }) && r.len() == 0
        } else {
            new == old && r.len() == 0
        },
        InputEvent::Mouse(m) => match m.kind {
            MouseKind::ScrollUp => new == sub_floor(old, 3) && r.len() == 0,
            MouseKind::ScrollDown => new == (if old + 3 <= usize::MAX {
                old + 3
            } else {
                usize::MAX as int
            }) && r.len() == 0,
            _ => new == old && r.len() == 0,
        },
    }
}

/// `n` stars.
pub open spec fn stars(n: nat) -> Seq<char> {
    Seq::new(n, |i: int| '*')
}

/// A password of `n` bytes masked in `w` columns: a star per byte when they
/// fit, else `<` and stars filling the width; a blank when there is nothing.
pub open spec fn spec_masked(n: nat, w: nat) -> Seq<char> {
    let m = if n <= w {
        stars(n)
    } else {
        seq!['<'] + stars(if w >= 2 {
            (w - 2) as nat
        } else {
            0
        }) + seq!['*']
    };
    if m.len() == 0 {
        seq![' ']
    } else {
        m
    }
}

/// The help text's lines, each with whether it is a heading.
pub open spec fn help_text() -> Seq<(Seq<char>, bool)> {
    seq![
        (""@, false),
        (" Navigation"@, true),
        ("  \u{2191}/k/j        Move cursor"@, false),
        ("  Enter         Open dir / Preview file"@, false),
        ("  Backspace     Go to parent directory"@, false),
        ("  Esc           Back / Quit at root"@, false),
        ("  Tab           Switch focus (Left/Right)"@, false),
        (""@, false),
        (" Actions"@, true),
        ("  e             Extract selected file"@, false),
        ("  E             Extract all files"@, false),
        ("  o             Change filename encoding"@, false),
        (""@, false),
        (" Properties"@, true),
        ("  Top-right panel shows file info"@, false),
        ("  Select a file to see its properties"@, false),
        ("  Archive summary shown otherwise"@, false),
        (""@, false),
        (" Preview"@, true),
        ("  Directories: shown automatically"@, false),
        ("  Files: Enter or Click (if selected) to load"@, false),
        ("  Focus right (Tab), then \u{2191}/\u{2193}/PgUp/PgDn scroll"@, false),
        ("  Syntax highlighting for source code"@, false),
        (""@, false),
        (" Mouse"@, true),
        ("  Click         Select (files & dirs)"@, false),
        ("  Click \"..\"    Go to parent directory"@, false),
        ("  Scroll wheel  Scroll list / preview"@, false),
        (""@, false),
        (" General"@, true),
        ("  ?             Toggle help"@, false),
        ("  q             Quit"@, false),
    ]
}

impl PasswordPopup {
    /// An empty prompt.
    pub fn new() -> (r: PasswordPopup)
        ensures
            r.input@.len() == 0,
    {
        PasswordPopup { input: String::new() }
    }

    /// Answers a key; `initial_load` when the archive itself waits for the
    /// password.
    pub fn handle_key(&mut self, code: KeyCode, initial_load: bool) -> (r: Vec<Action>)
        ensures
            password_post(old(self).input@, final(self).input@, code, initial_load, r@),
    {
        let mut r = Vec::new();
        if code == KeyCode::Esc || code == KeyCode::Char('q') {
            self.input = String::new();
            if initial_load {
                r.push(Action::Quit);
            } else {
                r.push(Action::ClosePopup);
            }
        } else if code == KeyCode::Enter {
            let pw = self.input.clone();
            self.input = String::new();
            r.push(Action::PasswordSubmitted(pw));
        } else {
            edit(&mut self.input, code);
        }
        r
    }

    /// The masked password in `width` columns of the prompt's inside.
    pub fn masked(&self, width: u16) -> (r: String)
        ensures
            r@ == spec_masked(
                encode_utf8(self.input@).len() as usize as nat,
                (if width >= 1 {
                    width - 1
                } else {
                    0
                }) as nat,
            ),
    {
        let w: usize = if width >= 1 {
            (width - 1) as usize
        } else {
            0
        };
        let n = self.input.as_str().len();
        let mut r = String::new();
        if n <= w {
            push_repeated(&mut r, '*', n);
            assert(r@ =~= stars(n as nat));
        } else {
            push_char(&mut r, '<');
            let k: usize = if w >= 2 {
                w - 2
            } else {
                0
            };
            push_repeated(&mut r, '*', k);
            push_char(&mut r, '*');
            assert(r@ =~= seq!['<'] + stars(k as nat) + seq!['*']);
        }
        if r.unicode_len() == 0 {
            r = String::from_str(" ");
            proof {
                reveal_strlit(" ");
            }
            assert(r@ =~= seq![' ']);
        }
        r
    }
}

impl ExtractDestPopup {
    /// A prompt holding the default destination.
    pub fn new(default_dest: &str) -> (r: ExtractDestPopup)
        ensures
            r.input@ == default_dest@,
            r.scroll.v_scroll == 0 && r.scroll.h_scroll == 0 && r.scroll.last_viewport == 0,
    {
        ExtractDestPopup { input: String::from_str(default_dest), scroll: ScrollState::new() }
    }

    /// Answers a key.
    pub fn handle_key(&mut self, code: KeyCode) -> (r: Vec<Action>)
        ensures
            dest_post(old(self).input@, final(self).input@, code, r@),
            final(self).scroll == old(self).scroll,
    {
        let mut r = Vec::new();
        if code == KeyCode::Esc || code == KeyCode::Char('q') {
            r.push(Action::ClosePopup);
        } else if code == KeyCode::Enter {
            let dest = self.input.clone();
            self.input = String::new();
            r.push(Action::ConfirmExtract { dest });
        } else {
            edit(&mut self.input, code);
        }
        r
    }
}

impl EncodingPopup {
    /// A prompt holding the current encoding, or blank.
    pub fn new(current: Option<&str>) -> (r: EncodingPopup)
        ensures
            r.input@ == (match current {
                Some(c) => c@,
                None => Seq::empty(),
            }),
    {
        EncodingPopup {
            input: match current {
                Some(c) => String::from_str(c),
                None => String::new(),
            },
        }
    }

    /// Answers a key.
    pub fn handle_key(&mut self, code: KeyCode) -> (r: Vec<Action>)
        ensures
            encoding_post(old(self).input@, final(self).input@, code, r@),
    {
        let mut r = Vec::new();
        if code == KeyCode::Esc || code == KeyCode::Char('q') {
            r.push(Action::ClosePopup);
        } else if code == KeyCode::Enter {
            r.push(Action::RequestEncodingReload(trim(self.input.as_str())));
        } else {
            edit(&mut self.input, code);
        }
        r
    }

    /// The prompt's text: the current encoding and what is typed.
    pub fn hint(&self, current: Option<&str>) -> (r: String)
        ensures
            r@ == "Current: "@ + (match current {
                Some(c) => c@,
                None => "auto"@,
            }) + "\nInput (e.g. gbk, shift_jis, utf-8):\n> "@ + self.input@,
    {
        let mut r = String::from_str("Current: ");
        match current {
            Some(c) => r.append(c),
            None => r.append("auto"),
        }
        r.append("\nInput (e.g. gbk, shift_jis, utf-8):\n> ");
        r.append(self.input.as_str());
        r
    }
}

impl HelpPopup {
    /// The help text from its top.
    pub fn new() -> (r: HelpPopup)
        ensures
            r.scroll == 0,
    {
        HelpPopup { scroll: 0 }
    }

    /// Answers an input event.
    pub fn handle_input(&mut self, event: InputEvent) -> (r: Vec<Action>)
        ensures
            help_post(old(self).scroll as int, final(self).scroll as int, event, r@),
    {
        let mut r = Vec::new();
        match event {
            InputEvent::Key(k) => {
                if k.code == KeyCode::Esc || k.code == KeyCode::Char('?') || k.code == KeyCode::Char(
                    'q',
                ) {
                    r.push(Action::ClosePopup);
                } else if k.code == KeyCode::Up || k.code == KeyCode::Char('k') {
                    self.scroll = self.scroll.saturating_sub(1);
                } else if k.code == KeyCode::Down || k.code == KeyCode::Char('j') {
                    self.scroll = self.scroll.saturating_add(1);
                }
            },
            InputEvent::Mouse(m) => match m.kind {
                MouseKind::ScrollUp => self.scroll = self.scroll.saturating_sub(3),
                MouseKind::ScrollDown => self.scroll = self.scroll.saturating_add(3),
                _ => {},
            },
        }
        r
    }

    /// The help text's lines, each with whether it is a heading.
    pub fn lines() -> (r: Vec<(&'static str, bool)>)
        ensures
            r@.map_values(|p: (&'static str, bool)| (p.0@, p.1)) == help_text(),
    {
        let r = vec![
            ("", false),
            (" Navigation", true),
            ("  \u{2191}/k/j        Move cursor", false),
            ("  Enter         Open dir / Preview file", false),
            ("  Backspace     Go to parent directory", false),
            ("  Esc           Back / Quit at root", false),
            ("  Tab           Switch focus (Left/Right)", false),
            ("", false),
            (" Actions", true),
            ("  e             Extract selected file", false),
            ("  E             Extract all files", false),
            ("  o             Change filename encoding", false),
            ("", false),
            (" Properties", true),
            ("  Top-right panel shows file info", false),
            ("  Select a file to see its properties", false),
            ("  Archive summary shown otherwise", false),
            ("", false),
            (" Preview", true),
            ("  Directories: shown automatically", false),
            ("  Files: Enter or Click (if selected) to load", false),
            ("  Focus right (Tab), then \u{2191}/\u{2193}/PgUp/PgDn scroll", false),
            ("  Syntax highlighting for source code", false),
            ("", false),
            (" Mouse", true),
            ("  Click         Select (files & dirs)", false),
            ("  Click \"..\"    Go to parent directory", false),
            ("  Scroll wheel  Scroll list / preview", false),
            ("", false),
            (" General", true),
            ("  ?             Toggle help", false),
            ("  q             Quit", false),
        ];
        assert(r@.map_values(|p: (&'static str, bool)| (p.0@, p.1)) =~= help_text());
        r
    }

    /// The lines shown of `total` in `visible` rows: from the scroll position,
    /// kept on the last line at the furthest.
    pub fn window(&self, total: usize, visible: usize) -> (r: (usize, usize))
        ensures
            r.0 == (if self.scroll < sub_floor(total as int, 1) {
                self.scroll as int
            } else {
                sub_floor(total as int, 1)
            }),
            r.1 == (if r.0 + visible < total {
                r.0 + visible
            } else {
                total as int
            }),
    {
        let last = total.saturating_sub(1);
        let start = if self.scroll < last {
            self.scroll
        } else {
            last
        };
        let end = if total - start > visible {
            start + visible
        } else {
            total
        };
        (start, end)
    }
}

impl ActivePopup {
    /// Which popup this is.
    pub fn popup_type(&self) -> (r: PopupType)
        ensures
            r == match self {
                ActivePopup::Password(_) => PopupType::Password,
                ActivePopup::ExtractDest(_) => PopupType::ExtractDest,
                ActivePopup::Encoding(_) => PopupType::Encoding,
                ActivePopup::Help(_) => PopupType::Help,
            },
    {
        match self {
            ActivePopup::Password(_) => PopupType::Password,
            ActivePopup::ExtractDest(_) => PopupType::ExtractDest,
            ActivePopup::Encoding(_) => PopupType::Encoding,
            ActivePopup::Help(_) => PopupType::Help,
        }
    }
}

} // verus!
