//! The application core: the single consumer of the event stream. Each message
//! is applied to the state in full before the next one, and side effects leave
//! the core only as `Command` values for the surrounding process to run.
//! The watcher's own emission decision lives here too.

use vstd::prelude::*;

use crate::codec::decoded;
use crate::history::History;
use crate::history::spec_inserted;
use crate::history::spec_record;

verus! {

/// A domain event on the wire between a producer thread and the core.
#[derive(Clone)]
pub enum Event {
    /// The watcher saw new clipboard content.
    ClipboardChanged(String),
    /// The global hotkey was pressed.
    HotkeyTriggered,
}

/// A message the core consumes: a delivered domain event or a user intent
/// from the presentation layer.
pub enum Message {
    EventReceived(Event),
    ClipboardUpdated(String),
    SelectEntry(usize),
    HotkeyPressed,
    ToggleWindow,
}

/// A side effect the core asks the surrounding process to perform, in order.
pub enum Command {
    /// Write this text to the external clipboard.
    SetClipboard(String),
    /// Inject the paste keystroke sequence: modifier down, tap the paste key,
    /// modifier up.
    InjectPaste,
    /// Write this encoded history to the persisted file; failure is logged
    /// and swallowed.
    PersistHistory(String),
    /// Show and focus the window.
    ShowWindow,
    /// Hide the window.
    HideWindow,
}

/// A persistence command whose text parses back to exactly the history `h`.
pub open spec fn saves_history(cmd: Command, h: Seq<(Seq<char>, u64)>) -> bool {
    match cmd {
        Command::PersistHistory(s) => decoded(s@) == Some(h),
        _ => false,
    }
}

/// The state the core owns: the history, whether the window is shown, and the
/// last clipboard content the process itself put in place.
pub struct AppState {
    pub history: History,
    pub window_visible: bool,
    pub last_clipboard_content: String,
}

impl AppState {
    pub open spec fn wf(&self) -> bool {
        self.history.wf()
    }

    /// The starting state: a loaded (or empty) history, a hidden window, and
    /// the clipboard content observed at startup.
    pub fn new(history: History, last_clipboard_content: String) -> (s: AppState)
        requires
            history.wf(),
        ensures
            s.wf(),
            s.history@ == history@,
            s.window_visible == false,
            s.last_clipboard_content == last_clipboard_content,
    {
        AppState { history, window_visible: false, last_clipboard_content }
    }

    /// Applies one message, to completion, and returns the side-effect
    /// commands it calls for, in the order they must run. `now` is the
    /// current time in seconds since the epoch, used to stamp a new entry.
    pub fn step(&mut self, msg: Message, now: u64) -> (cmds: Vec<Command>)
        requires
            old(self).wf(),
        ensures
            final(self).wf(),
            match msg {
                Message::EventReceived(Event::ClipboardChanged(c)) => {
                    &&& final(self).history@ == spec_record(old(self).history@, c@, now)
                    &&& final(self).window_visible == old(self).window_visible
                    &&& final(self).last_clipboard_content == old(self).last_clipboard_content
                    &&& spec_inserted(old(self).history@, c@) ==> {
                        &&& cmds@.len() == 1
                        &&& saves_history(cmds@[0], final(self).history@)
                    }
                    &&& !spec_inserted(old(self).history@, c@) ==> cmds@.len() == 0
                },
                Message::EventReceived(Event::HotkeyTriggered) | Message::HotkeyPressed => {
                    &&& final(self).window_visible == !old(self).window_visible
                    &&& final(self).history@ == old(self).history@
                    &&& final(self).last_clipboard_content == old(self).last_clipboard_content
                    &&& cmds@ == seq![
                        if final(self).window_visible {
                            Command::ShowWindow
                        } else {
                            Command::HideWindow
                        },
                    ]
                },
                Message::ClipboardUpdated(c) => {
                    &&& *final(self) == *old(self)
                    &&& cmds@ == seq![Command::SetClipboard(c)]
                },
                Message::SelectEntry(i) => {
                    &&& final(self).history@ == old(self).history@
                    &&& if i < old(self).history@.len() {
                        &&& final(self).window_visible == false
                        &&& final(self).last_clipboard_content@ == old(self).history@[
                            i as int
                        ].0
                        &&& cmds@.len() == 3
                        &&& match cmds@[0] {
                            Command::SetClipboard(s) => s@ == old(self).history@[i as int].0,
                            _ => false,
                        }
                        &&& cmds@[1] is InjectPaste
                        &&& cmds@[2] is HideWindow
                    } else {
                        &&& *final(self) == *old(self)
                        &&& cmds@.len() == 0
                    }
                },
                Message::ToggleWindow => {
                    &&& *final(self) == *old(self)
                    &&& cmds@ == seq![
                        if old(self).window_visible {
                            Command::ShowWindow
                        } else {
                            Command::HideWindow
                        },
                    ]
                },
            },
    {
        match msg {
            Message::EventReceived(Event::ClipboardChanged(c)) => {
                let inserted = self.history.record(c, now);
                let mut cmds: Vec<Command> = Vec::new();
                if inserted {
                    let data = self.history.serialize();
                    cmds.push(Command::PersistHistory(data));
                }
                cmds
            },
            Message::EventReceived(Event::HotkeyTriggered) | Message::HotkeyPressed => {
                self.window_visible = !self.window_visible;
                let mut cmds: Vec<Command> = Vec::new();
                if self.window_visible {
                    cmds.push(Command::ShowWindow);
                } else {
                    cmds.push(Command::HideWindow);
                }
                proof {
                    assert(cmds@ =~= seq![
                        if self.window_visible {
                            Command::ShowWindow
                        } else {
                            Command::HideWindow
                        },
                    ]);
                }
                cmds
            },
            Message::ClipboardUpdated(c) => {
                let mut cmds: Vec<Command> = Vec::new();
                cmds.push(Command::SetClipboard(c));
                proof {
                    assert(cmds@ =~= seq![Command::SetClipboard(c)]);
                }
                cmds
            },
            Message::SelectEntry(i) => {
                let mut cmds: Vec<Command> = Vec::new();
                let picked: Option<String> = match self.history.get(i) {
                    Some(e) => Some(e.content.clone()),
                    None => None,
                };
                match picked {
                    Some(content) => {
                        self.window_visible = false;
                        self.last_clipboard_content = content.clone();
                        cmds.push(Command::SetClipboard(content));
                        cmds.push(Command::InjectPaste);
                        cmds.push(Command::HideWindow);
                    },
                    None => {},
                }
                cmds
            },
            Message::ToggleWindow => {
                let mut cmds: Vec<Command> = Vec::new();
                if self.window_visible {
                    cmds.push(Command::ShowWindow);
                } else {
                    cmds.push(Command::HideWindow);
                }
                proof {
                    assert(cmds@ =~= seq![
                        if self.window_visible {
                            Command::ShowWindow
                        } else {
                            Command::HideWindow
                        },
                    ]);
                }
                cmds
            },
        }
    }
}

/// The clipboard watcher's own state: the last content it saw.
pub struct Watcher {
    pub last_seen: String,
}

impl Watcher {
    /// A fresh watcher; the caller chooses the priming. Primed with empty
    /// text, as the process does at startup, the first poll re-records
    /// whatever already sits on the clipboard.
    pub fn new(initial: String) -> (w: Watcher)
        ensures
            w.last_seen == initial,
    {
        Watcher { last_seen: initial }
    }

    /// One poll of the clipboard. `read` is what the external read returned,
    /// `None` for a failed read. Emits a change event exactly when the read
    /// succeeded with non-empty content that differs from the last seen
    /// value; read failures are swallowed and change nothing.
    pub fn observe(&mut self, read: Option<String>) -> (ev: Option<Event>)
        ensures
            match read {
                None => *final(self) == *old(self) && ev is None,
                Some(c) => if c@.len() > 0 && c@ != old(self).last_seen@ {
                    &&& final(self).last_seen == c
                    &&& match ev {
                        Some(Event::ClipboardChanged(s)) => s == c,
                        _ => false,
                    }
                } else {
                    &&& *final(self) == *old(self)
                    &&& ev is None
                },
            },
    {
        match read {
            None => None,
            Some(c) => {
                if c.as_str().unicode_len() > 0 && !(c == self.last_seen) {
                    self.last_seen = c.clone();
                    Some(Event::ClipboardChanged(c))
                } else {
                    None
                }
            },
        }
    }
}

/// The hotkey listener's gate: only a press, never a release, becomes an event.
pub fn hotkey_event(pressed: bool) -> (ev: Option<Event>)
    ensures
        ev == if pressed {
            Some(Event::HotkeyTriggered)
        } else {
            None::<Event>
        },
{
    if pressed {
        Some(Event::HotkeyTriggered)
    } else {
        None
    }
}

} // verus!
