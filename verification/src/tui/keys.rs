//! Keys: what a key press sends to a terminal, and what it does in the
//! dashboard.

use vstd::prelude::*;
use vstd::string::*;

verus! {

/// The key that was pressed.
#[derive(Debug, Clone, Copy, PartialEq, Eq, Structural)]
pub enum KeyCode {
    /// A character key.
    Char(char),
    Enter,
    Tab,
    Backspace,
    Delete,
    Up,
    Down,
    Right,
    Left,
    Home,
    End,
    PageUp,
    PageDown,
    Insert,
    /// A function key, by its number.
    F(u8),
    Esc,
    /// Any other key.
    Other,
}

/// A key press: the key, and the modifiers held with it.
#[derive(Debug, Clone, Copy, PartialEq, Eq, Structural)]
pub struct KeyPress {
    pub code: KeyCode,
    pub ctrl: bool,
    pub alt: bool,
    pub shift: bool,
}

/// The escape byte.
pub const ESC: u8 = 0x1b;

/// Whether `c` is one of the letters `a` to `z`.
pub open spec fn is_lower(c: char) -> bool {
    0x61 <= c as u32 <= 0x7a
}

/// Whether `c` is one of the letters `A` to `Z`.
pub open spec fn is_upper(c: char) -> bool {
    0x41 <= c as u32 <= 0x5a
}

/// The bytes of the escape sequence of a function key; none for a function
/// key beyond F12.
pub open spec fn function_key_bytes(n: u8) -> Seq<u8> {
    if n == 1 {
        seq![ESC, 0x4f, 0x50]
    } else if n == 2 {
        seq![ESC, 0x4f, 0x51]
    } else if n == 3 {
        seq![ESC, 0x4f, 0x52]
    } else if n == 4 {
        seq![ESC, 0x4f, 0x53]
    } else if n == 5 {
        seq![ESC, 0x5b, 0x31, 0x35, 0x7e]
    } else if n == 6 {
        seq![ESC, 0x5b, 0x31, 0x37, 0x7e]
    } else if n == 7 {
        seq![ESC, 0x5b, 0x31, 0x38, 0x7e]
    } else if n == 8 {
        seq![ESC, 0x5b, 0x31, 0x39, 0x7e]
    } else if n == 9 {
        seq![ESC, 0x5b, 0x32, 0x30, 0x7e]
    } else if n == 10 {
        seq![ESC, 0x5b, 0x32, 0x31, 0x7e]
    } else if n == 11 {
        seq![ESC, 0x5b, 0x32, 0x33, 0x7e]
    } else if n == 12 {
        seq![ESC, 0x5b, 0x32, 0x34, 0x7e]
    } else {
        Seq::empty()
    }
}

/// The bytes that a key press sends to a terminal.
///
/// A character with Ctrl sends the control code of its letter, and nothing
/// if it is no letter; with Alt it sends an escape followed by the
/// character; alone it sends itself, in UTF-8. The other keys send their
/// usual codes and escape sequences.
pub open spec fn spec_key_to_bytes(key: KeyPress) -> Seq<u8> {
    match key.code {
        KeyCode::Char(c) => if key.ctrl {
            if is_lower(c) {
                seq![(c as u32 - 0x61 + 1) as u8]
            } else if is_upper(c) {
                seq![(c as u32 - 0x41 + 1) as u8]
            } else {
                Seq::empty()
            }
        } else if key.alt {
            seq![ESC] + vstd::utf8::encode_utf8(seq![c])
        } else {
            vstd::utf8::encode_utf8(seq![c])
        },
        KeyCode::Enter => seq![0x0du8],
        KeyCode::Tab => seq![0x09u8],
        KeyCode::Backspace => seq![0x7fu8],
        KeyCode::Delete => seq![ESC, 0x5b, 0x33, 0x7e],
        KeyCode::Up => seq![ESC, 0x5b, 0x41],
        KeyCode::Down => seq![ESC, 0x5b, 0x42],
        KeyCode::Right => seq![ESC, 0x5b, 0x43],
        KeyCode::Left => seq![ESC, 0x5b, 0x44],
        KeyCode::Home => seq![ESC, 0x5b, 0x48],
        KeyCode::End => seq![ESC, 0x5b, 0x46],
        KeyCode::PageUp => seq![ESC, 0x5b, 0x35, 0x7e],
        KeyCode::PageDown => seq![ESC, 0x5b, 0x36, 0x7e],
        KeyCode::Insert => seq![ESC, 0x5b, 0x32, 0x7e],
        KeyCode::F(n) => function_key_bytes(n),
        KeyCode::Esc => seq![ESC],
        KeyCode::Other => Seq::empty(),
    }
}

fn bytes_of(codes: &[u8]) -> (bytes: Vec<u8>)
    ensures
        bytes@ == codes@,
{
    let mut bytes: Vec<u8> = Vec::new();
    let mut i: usize = 0;
    while i < codes.len()
        invariant
            i <= codes@.len(),
            bytes@ == codes@.subrange(0, i as int),
        decreases codes.len() - i,
    {
        bytes.push(codes[i]);
        i = i + 1;
        assert(bytes@ =~= codes@.subrange(0, i as int));
    }
    assert(codes@.subrange(0, codes@.len() as int) =~= codes@);
    bytes
}

/// The UTF-8 encoding of one character.
fn utf8_of(c: char) -> (bytes: Vec<u8>)
    ensures
        bytes@ == vstd::utf8::encode_utf8(seq![c]),
{
    let mut text = String::new();
    text.push(c);
    assert(text@ =~= seq![c]);
    text.as_str().as_bytes_vec()
}

/// The bytes that a key press sends to a terminal (see
/// [`spec_key_to_bytes`]).
pub fn key_to_bytes(key: KeyPress) -> (bytes: Vec<u8>)
    ensures
        bytes@ == spec_key_to_bytes(key),
{
    match key.code {
        KeyCode::Char(c) => {
            let code = c as u32;
            if key.ctrl {
                if 0x61 <= code && code <= 0x7a {
                    let control = (code - 0x61 + 1) as u8;
                    bytes_of(&[control])
                } else if 0x41 <= code && code <= 0x5a {
                    let control = (code - 0x41 + 1) as u8;
                    bytes_of(&[control])
                } else {
                    Vec::new()
                }
            } else if key.alt {
                let mut bytes = bytes_of(&[ESC]);
                let mut encoded = utf8_of(c);
                bytes.append(&mut encoded);
                bytes
            } else {
                utf8_of(c)
            }
        },
        KeyCode::Enter => bytes_of(&[0x0d]),
        KeyCode::Tab => bytes_of(&[0x09]),
        KeyCode::Backspace => bytes_of(&[0x7f]),
        KeyCode::Delete => bytes_of(&[ESC, 0x5b, 0x33, 0x7e]),
        KeyCode::Up => bytes_of(&[ESC, 0x5b, 0x41]),
        KeyCode::Down => bytes_of(&[ESC, 0x5b, 0x42]),
        KeyCode::Right => bytes_of(&[ESC, 0x5b, 0x43]),
        KeyCode::Left => bytes_of(&[ESC, 0x5b, 0x44]),
        KeyCode::Home => bytes_of(&[ESC, 0x5b, 0x48]),
        KeyCode::End => bytes_of(&[ESC, 0x5b, 0x46]),
        KeyCode::PageUp => bytes_of(&[ESC, 0x5b, 0x35, 0x7e]),
        KeyCode::PageDown => bytes_of(&[ESC, 0x5b, 0x36, 0x7e]),
        KeyCode::Insert => bytes_of(&[ESC, 0x5b, 0x32, 0x7e]),
        KeyCode::F(n) => {
            if n == 1 {
                bytes_of(&[ESC, 0x4f, 0x50])
            } else if n == 2 {
                bytes_of(&[ESC, 0x4f, 0x51])
            } else if n == 3 {
                bytes_of(&[ESC, 0x4f, 0x52])
            } else if n == 4 {
                bytes_of(&[ESC, 0x4f, 0x53])
            } else if n == 5 {
                bytes_of(&[ESC, 0x5b, 0x31, 0x35, 0x7e])
            } else if n == 6 {
                bytes_of(&[ESC, 0x5b, 0x31, 0x37, 0x7e])
            } else if n == 7 {
                bytes_of(&[ESC, 0x5b, 0x31, 0x38, 0x7e])
            } else if n == 8 {
                bytes_of(&[ESC, 0x5b, 0x31, 0x39, 0x7e])
            } else if n == 9 {
                bytes_of(&[ESC, 0x5b, 0x32, 0x30, 0x7e])
            } else if n == 10 {
                bytes_of(&[ESC, 0x5b, 0x32, 0x31, 0x7e])
            } else if n == 11 {
                bytes_of(&[ESC, 0x5b, 0x32, 0x33, 0x7e])
            } else if n == 12 {
                bytes_of(&[ESC, 0x5b, 0x32, 0x34, 0x7e])
            } else {
                Vec::new()
            }
        },
        KeyCode::Esc => bytes_of(&[ESC]),
        KeyCode::Other => Vec::new(),
    }
}

/// What a key press does in the overview of all agents.
#[derive(Debug, Clone, Copy, PartialEq, Eq, Structural)]
pub enum SymphonyAction {
    /// Leave the dashboard.
    Quit,
    /// Show or hide the help.
    ToggleHelp,
    /// Select the next session.
    Next,
    /// Select the previous session.
    Previous,
    /// Zoom into the selected session.
    ZoomIn,
    /// Open the picker for a new agent.
    OpenSpawnPicker,
    /// Ask whether the selected session is to be killed.
    RequestKill,
    /// Nudge the selected session.
    Nudge,
    /// Clean up the sessions that exited cleanly.
    Cleanup,
    /// Nothing.
    Ignore,
}

/// What the key press `key` does in the overview: `q` and Ctrl+c quit, `?`
/// toggles the help, `j` and the down arrow select the next session, `k`
/// and the up arrow the previous one, Enter zooms in, `s` opens the picker,
/// `K` and Delete ask for a kill, `n` nudges and `c` cleans up.
pub fn symphony_action(key: KeyPress) -> (action: SymphonyAction)
    ensures
        action == match key.code {
            KeyCode::Char(c) => if c == 'q' {
                SymphonyAction::Quit
            } else if c == 'c' && key.ctrl {
                SymphonyAction::Quit
            } else if c == '?' {
                SymphonyAction::ToggleHelp
            } else if c == 'j' {
                SymphonyAction::Next
            } else if c == 'k' {
                SymphonyAction::Previous
            } else if c == 's' {
                SymphonyAction::OpenSpawnPicker
            } else if c == 'K' {
                SymphonyAction::RequestKill
            } else if c == 'n' {
                SymphonyAction::Nudge
            } else if c == 'c' {
                SymphonyAction::Cleanup
            } else {
                SymphonyAction::Ignore
            },
            KeyCode::Down => SymphonyAction::Next,
            KeyCode::Up => SymphonyAction::Previous,
            KeyCode::Enter => SymphonyAction::ZoomIn,
            KeyCode::Delete => SymphonyAction::RequestKill,
            _ => SymphonyAction::Ignore,
        },
{
    match key.code {
        KeyCode::Char(c) => {
            if c == 'q' {
                SymphonyAction::Quit
            } else if c == 'c' && key.ctrl {
                SymphonyAction::Quit
            } else if c == '?' {
                SymphonyAction::ToggleHelp
            } else if c == 'j' {
                SymphonyAction::Next
            } else if c == 'k' {
                SymphonyAction::Previous
            } else if c == 's' {
                SymphonyAction::OpenSpawnPicker
            } else if c == 'K' {
                SymphonyAction::RequestKill
            } else if c == 'n' {
                SymphonyAction::Nudge
            } else if c == 'c' {
                SymphonyAction::Cleanup
            } else {
                SymphonyAction::Ignore
            }
        },
        KeyCode::Down => SymphonyAction::Next,
        KeyCode::Up => SymphonyAction::Previous,
        KeyCode::Enter => SymphonyAction::ZoomIn,
        KeyCode::Delete => SymphonyAction::RequestKill,
        _ => SymphonyAction::Ignore,
    }
}

/// What a key press does while one session is zoomed in on.
#[derive(Debug, PartialEq, Eq)]
pub enum SoloAction {
    /// Zoom out to the overview.
    ZoomOut,
    /// Leave the dashboard.
    Quit,
    /// Show or hide the help.
    ToggleHelp,
    /// Send these bytes to the session.
    Forward(Vec<u8>),
    /// Nothing: the key sends no bytes.
    Ignore,
}

/// What the key press `key` does while a session is zoomed in on: Esc zooms
/// out, Ctrl+q quits, `?` without Shift toggles the help, and every other
/// key is sent to the session as the bytes it stands for.
pub fn solo_action(key: KeyPress) -> (action: SoloAction)
    ensures
        match key.code {
            KeyCode::Esc => action == SoloAction::ZoomOut,
            KeyCode::Char(c) if c == 'q' && key.ctrl => action == SoloAction::Quit,
            KeyCode::Char(c) if c == '?' && !key.shift => action == SoloAction::ToggleHelp,
            _ => if spec_key_to_bytes(key).len() == 0 {
                action == SoloAction::Ignore
            } else {
                action matches SoloAction::Forward(bytes) && bytes@ == spec_key_to_bytes(key)
            },
        },
{
    match key.code {
        KeyCode::Esc => {
            return SoloAction::ZoomOut;
        },
        KeyCode::Char(c) => {
            if c == 'q' && key.ctrl {
                return SoloAction::Quit;
            }
            if c == '?' && !key.shift {
                return SoloAction::ToggleHelp;
            }
        },
        _ => {},
    }
    let bytes = key_to_bytes(key);
    if bytes.len() == 0 {
        SoloAction::Ignore
    } else {
        SoloAction::Forward(bytes)
    }
}

} // verus!
