//! State of the terminal dashboard.

pub mod keys;

use vstd::prelude::*;
use crate::agent::registry::live_sessions;
use crate::agent::{AgentRegistry, AgentSession};

verus! {

/// View mode of the dashboard.
#[derive(Debug, Clone, Copy, PartialEq, Eq, Structural)]
pub enum ViewMode {
    /// Symphony view: all agents at once.
    Symphony,
    /// Focus view: a single agent, by its position.
    Focus(usize),
}

impl ViewMode {
    /// The mode after a toggle: from the overview to the agent `selected`,
    /// from an agent back to the overview.
    pub fn toggled(self, selected: usize) -> (mode: ViewMode)
        ensures
            mode == match self {
                ViewMode::Symphony => ViewMode::Focus(selected),
                ViewMode::Focus(_) => ViewMode::Symphony,
            },
    {
        match self {
            ViewMode::Symphony => ViewMode::Focus(selected),
            ViewMode::Focus(_) => ViewMode::Symphony,
        }
    }
}

/// The position selected after moving on by one among `count` agents,
/// wrapping around at the end; nothing moves where there is no agent.
pub fn next_index(selected: usize, count: usize) -> (next: usize)
    requires
        selected < usize::MAX,
    ensures
        count == 0 ==> next == selected,
        count > 0 ==> next == (selected + 1) % (count as int),
{
    if count > 0 {
        (selected + 1) % count
    } else {
        selected
    }
}

/// The position selected after moving back by one among `count` agents,
/// wrapping around at the start; nothing moves where there is no agent.
pub fn prev_index(selected: usize, count: usize) -> (prev: usize)
    ensures
        count == 0 ==> prev == selected,
        count > 0 && selected > 0 ==> prev == selected - 1,
        count > 0 && selected == 0 ==> prev == count - 1,
{
    if count > 0 {
        if selected > 0 {
            selected - 1
        } else {
            count - 1
        }
    } else {
        selected
    }
}

/// Result of an attach session.
#[derive(Debug)]
pub enum AttachResult {
    /// The user detached.
    Detached,
    /// The session exited.
    SessionEnded,
    /// An error occurred.
    Error(String),
}

/// The byte that Ctrl+] sends.
pub const DETACH_KEY: u8 = 0x1d;

/// The byte that Ctrl+\ sends.
pub const DETACH_KEY_ALT: u8 = 0x1c;

/// The escape byte.
pub const ESCAPE: u8 = 0x1b;

/// Whether `input` holds a detach key.
pub open spec fn spec_asks_detach(input: Seq<u8>) -> bool {
    exists|i: int| 0 <= i < input.len() && (input[i] == DETACH_KEY || input[i] == DETACH_KEY_ALT)
}

/// Whether the operator's `input` asks to detach: it holds the byte of
/// Ctrl+] or of Ctrl+\.
pub fn asks_detach(input: &[u8]) -> (asked: bool)
    ensures
        asked == spec_asks_detach(input@),
{
    let mut i: usize = 0;
    while i < input.len()
        invariant
            i <= input@.len(),
            forall|k: int| 0 <= k < i ==> input@[k] != DETACH_KEY && input@[k] != DETACH_KEY_ALT,
        decreases input.len() - i,
    {
        if input[i] == DETACH_KEY || input[i] == DETACH_KEY_ALT {
            return true;
        }
        i = i + 1;
    }
    false
}

/// Whether the byte at `i` of `input` is an escape that stands alone: one
/// that is not followed by `[`, as the escape sequences of the arrow keys
/// are.
pub open spec fn stands_alone(input: Seq<u8>, i: int) -> bool {
    input[i] == ESCAPE && (i + 1 >= input.len() || input[i + 1] != 0x5b)
}

/// Whether `input` holds an escape that stands alone.
pub open spec fn spec_has_standalone_escape(input: Seq<u8>) -> bool {
    exists|i: int| 0 <= i < input.len() && stands_alone(input, i)
}

/// Whether the operator's `input` holds an escape that stands alone, which
/// pressed twice in quick succession detaches.
pub fn has_standalone_escape(input: &[u8]) -> (found: bool)
    ensures
        found == spec_has_standalone_escape(input@),
{
    let mut i: usize = 0;
    while i < input.len()
        invariant
            i <= input@.len(),
            forall|k: int| 0 <= k < i ==> !stands_alone(input@, k),
        decreases input.len() - i,
    {
        if input[i] == ESCAPE {
            if i + 1 >= input.len() || input[i + 1] != 0x5b {
                assert(stands_alone(input@, i as int));
                return true;
            }
        }
        i = i + 1;
    }
    false
}

/// Two escapes that stand alone detach if the second follows the first
/// within this many milliseconds.
pub const DOUBLE_ESCAPE_TIMEOUT_MS: u64 = 300;

/// Watches the operator's input during an attach for the request to
/// detach.
#[derive(Debug, Clone, Copy, PartialEq, Eq, Structural)]
pub struct DetachDetector {
    /// When the last escape that stood alone was seen, in milliseconds on
    /// the caller's clock.
    pub last_escape_ms: Option<u64>,
}

impl DetachDetector {
    /// A detector that has seen no escape yet.
    pub fn new() -> (detector: Self)
        ensures
            detector.last_escape_ms is None,
    {
        DetachDetector { last_escape_ms: None }
    }

    /// Whether an escape at `now_ms` completes a double escape.
    pub open spec fn completes_double_escape(&self, now_ms: u64) -> bool {
        self.last_escape_ms matches Some(last) && (now_ms < last || now_ms - last
            < DOUBLE_ESCAPE_TIMEOUT_MS)
    }

    /// Whether the input `input`, read at `now_ms`, detaches.
    pub open spec fn spec_detaches(&self, input: Seq<u8>, now_ms: u64) -> bool {
        spec_asks_detach(input) || (spec_has_standalone_escape(input)
            && self.completes_double_escape(now_ms))
    }

    /// Take in the operator's `input`, read at `now_ms` on a clock that does
    /// not run backwards, and say whether it detaches.
    ///
    /// A detach key detaches at once. An escape that stands alone detaches
    /// if the last one was seen less than 300 ms ago; otherwise it is
    /// remembered. Input that does not detach is to be forwarded to the
    /// session.
    pub fn observe(&mut self, input: &[u8], now_ms: u64) -> (detach: bool)
        ensures
            detach == old(self).spec_detaches(input@, now_ms),
            final(self).last_escape_ms == if !spec_asks_detach(input@)
                && spec_has_standalone_escape(input@) && !old(self).completes_double_escape(now_ms) {
                Some(now_ms)
            } else {
                old(self).last_escape_ms
            },
    {
        if asks_detach(input) {
            return true;
        }
        if has_standalone_escape(input) {
            match self.last_escape_ms {
                Some(last) => {
                    if now_ms < last || now_ms - last < DOUBLE_ESCAPE_TIMEOUT_MS {
                        return true;
                    }
                },
                None => {},
            }
            self.last_escape_ms = Some(now_ms);
        }
        false
    }
}

/// State of the dashboard.
#[derive(Debug)]
pub struct App {
    /// Current view mode.
    pub view_mode: ViewMode,
    /// Agent registry.
    pub registry: AgentRegistry,
    /// Whether the dashboard should quit.
    pub should_quit: bool,
    /// Position of the selected agent among the live ones.
    pub selected_agent: usize,
}

impl App {
    /// A dashboard in the overview, over an empty registry, with the first
    /// agent selected.
    pub fn new() -> (app: Self)
        ensures
            app.view_mode == ViewMode::Symphony,
            app.registry.wf(),
            app.registry.sessions().len() == 0,
            app.registry.available().len() == 0,
            !app.should_quit,
            app.selected_agent == 0,
    {
        App {
            view_mode: ViewMode::Symphony,
            registry: AgentRegistry::new(),
            should_quit: false,
            selected_agent: 0,
        }
    }

    /// Toggle between the overview and the selected agent.
    pub fn toggle_view(&mut self)
        ensures
            *final(self) == (App {
                view_mode: match old(self).view_mode {
                    ViewMode::Symphony => ViewMode::Focus(old(self).selected_agent),
                    ViewMode::Focus(_) => ViewMode::Symphony,
                },
                ..*old(self)
            }),
    {
        self.view_mode = self.view_mode.toggled(self.selected_agent);
    }

    /// Zoom into the agent at `agent_index`.
    pub fn zoom_in(&mut self, agent_index: usize)
        ensures
            *final(self) == (App { view_mode: ViewMode::Focus(agent_index), ..*old(self) }),
    {
        self.view_mode = ViewMode::Focus(agent_index);
    }

    /// Zoom out to the overview.
    pub fn zoom_out(&mut self)
        ensures
            *final(self) == (App { view_mode: ViewMode::Symphony, ..*old(self) }),
    {
        self.view_mode = ViewMode::Symphony;
    }

    /// Select the next live agent, wrapping around at the end.
    pub fn next_agent(&mut self)
        requires
            old(self).selected_agent < usize::MAX,
        ensures
            *final(self) == (App {
                selected_agent: if live_sessions(old(self).registry.sessions()).len() > 0 {
                    ((old(self).selected_agent + 1) % (live_sessions(
                        old(self).registry.sessions(),
                    ).len() as int)) as usize
                } else {
                    old(self).selected_agent
                },
                ..*old(self)
            }),
    {
        let count = self.registry.active_sessions().len();
        self.selected_agent = next_index(self.selected_agent, count);
    }

    /// Select the previous live agent, wrapping around at the start.
    pub fn prev_agent(&mut self)
        ensures
            *final(self) == (App {
                selected_agent: if live_sessions(old(self).registry.sessions()).len() == 0 {
                    old(self).selected_agent
                } else if old(self).selected_agent > 0 {
                    (old(self).selected_agent - 1) as usize
                } else {
                    (live_sessions(old(self).registry.sessions()).len() - 1) as usize
                },
                ..*old(self)
            }),
    {
        let count = self.registry.active_sessions().len();
        self.selected_agent = prev_index(self.selected_agent, count);
    }

    /// The selected session: the live session at the selected position, if
    /// there is one.
    pub fn selected_session(&self) -> (selected: Option<&AgentSession>)
        ensures
            match selected {
                Some(session) => self.selected_agent < live_sessions(self.registry.sessions()).len()
                    && *session == live_sessions(self.registry.sessions())[self.selected_agent as int],
                None => self.selected_agent >= live_sessions(self.registry.sessions()).len(),
            },
    {
        let live = self.registry.active_sessions();
        if self.selected_agent < live.len() {
            Some(live[self.selected_agent])
        } else {
            None
        }
    }
}

} // verus!
