//! The setup wizard's form: what each key does to it. Drawing the form and
//! writing the file are the caller's.

use crate::config::{ConfigFile, ServerEntry};
use crate::text;
use vstd::prelude::*;

verus! {

/// Outcome of the setup wizard.
#[derive(Debug, Clone, PartialEq, Eq)]
pub enum SetupOutcome {
    /// Config saved; the service was installed and started.
    ServiceInstalled,
    /// Config saved; no service: the caller starts the proxy itself, with
    /// the configuration file at this path.
    ReadyToRun(String),
    /// The user quit without saving.
    Cancelled,
}

/// Milliseconds after which a message leaves the footer.
pub const MESSAGE_LIFETIME_MS: u64 = 4000;

/// The number of fields of a server tab.
pub const SERVER_FIELDS: usize = 3;

/// The number of fields of the form: those of the active tab, then the
/// global ones.
pub const TOTAL_FIELDS: usize = 6;

/// How a field is edited and shown.
#[derive(Debug, Clone, Copy, PartialEq, Eq, Structural)]
pub enum FieldKind {
    Text,
    Secret,
    Bool,
    LogLevel,
}

/// The kind of the field at `index`: URL, token (secret) and node name of
/// the active server, then log level, JSON logging and service
/// installation.
pub open spec fn kind_at(index: int) -> FieldKind {
    if index == 1 {
        FieldKind::Secret
    } else if index == 3 {
        FieldKind::LogLevel
    } else if index == 4 || index == 5 {
        FieldKind::Bool
    } else {
        FieldKind::Text
    }
}

pub fn field_kind(index: usize) -> (k: FieldKind)
    ensures
        k == kind_at(index as int),
{
    if index == 1 {
        FieldKind::Secret
    } else if index == 3 {
        FieldKind::LogLevel
    } else if index == 4 || index == 5 {
        FieldKind::Bool
    } else {
        FieldKind::Text
    }
}

/// A key of the keyboard.
#[derive(Debug, Clone, Copy, PartialEq, Eq, Structural)]
pub enum Key {
    Char(char),
    Esc,
    Enter,
    Up,
    Down,
    Left,
    Right,
    Home,
    End,
    Tab,
    BackTab,
    Delete,
    Backspace,
    Other,
}

/// The modifier keys that are held.
#[derive(Debug, Clone, Copy, PartialEq, Eq, Structural)]
pub struct Modifiers {
    pub control: bool,
    pub command: bool,
}

#[derive(Debug, Clone, Copy, PartialEq, Eq, Structural)]
pub enum Mode {
    Normal,
    Editing,
}

/// What the caller does after a key.
#[derive(Debug, Clone, Copy, PartialEq, Eq, Structural)]
pub enum KeyOutcome {
    /// Draw the form and wait for the next key.
    Continue,
    /// Write the configuration of the form to its file and report with
    /// `record_save`.
    Save,
    /// Leave the wizard.
    Quit,
}

/// A message in the footer.
#[derive(Debug, Clone)]
pub struct Notice {
    pub text: String,
    /// When the message appeared, in milliseconds.
    pub at: u64,
    pub is_error: bool,
}

/// What a message says.
pub struct NoticeView {
    pub text: Seq<char>,
    pub at: u64,
    pub is_error: bool,
}

impl View for Notice {
    type V = NoticeView;

    open spec fn view(&self) -> NoticeView {
        NoticeView { text: self.text@, at: self.at, is_error: self.is_error }
    }
}

/// The fields of one server.
#[derive(Debug, Clone)]
pub struct ServerTab {
    pub aether_url: String,
    pub management_token: String,
    pub node_name: String,
}

/// What a server tab says.
pub struct ServerTabView {
    pub aether_url: Seq<char>,
    pub management_token: Seq<char>,
    pub node_name: Seq<char>,
}

impl View for ServerTab {
    type V = ServerTabView;

    open spec fn view(&self) -> ServerTabView {
        ServerTabView {
            aether_url: self.aether_url@,
            management_token: self.management_token@,
            node_name: self.node_name@,
        }
    }
}

impl ServerTab {
    /// An empty tab: no URL, no token, the default node name.
    pub fn new() -> (t: ServerTab)
        ensures
            t@ == blank_tab(),
    {
        ServerTab {
            aether_url: String::new(),
            management_token: String::new(),
            node_name: String::from_str("proxy-01"),
        }
    }

    /// The tab of a server entry: its URL and token, and its node name or
    /// the default one.
    pub fn from_entry(entry: &ServerEntry) -> (t: ServerTab)
        ensures
            t@ == (ServerTabView {
                aether_url: entry.aether_url@,
                management_token: entry.management_token@,
                node_name: match entry.node_name {
                    Some(n) => n@,
                    None => "proxy-01"@,
                },
            }),
    {
        ServerTab {
            aether_url: entry.aether_url.clone(),
            management_token: entry.management_token.clone(),
            node_name: match &entry.node_name {
                Some(n) => n.clone(),
                None => String::from_str("proxy-01"),
            },
        }
    }

    fn duplicate(&self) -> (t: ServerTab)
        ensures
            t@ == self@,
    {
        ServerTab {
            aether_url: self.aether_url.clone(),
            management_token: self.management_token.clone(),
            node_name: self.node_name.clone(),
        }
    }
}

pub open spec fn blank_tab() -> ServerTabView {
    ServerTabView {
        aether_url: Seq::empty(),
        management_token: Seq::empty(),
        node_name: "proxy-01"@,
    }
}

/// The wizard's form.
#[derive(Debug)]
pub struct Wizard {
    pub tabs: Vec<ServerTab>,
    pub active_tab: usize,
    pub log_level: String,
    /// `true` or `false`.
    pub log_json: String,
    /// `true` or `false`.
    pub install_service: String,
    /// The index of the selected field.
    pub selected: usize,
    pub mode: Mode,
    pub edit_buffer: Vec<char>,
    pub edit_cursor: usize,
    pub modified: bool,
    pub message: Option<Notice>,
    pub scroll_offset: usize,
    pub saved_once: bool,
    pub pending_quit: bool,
    pub confirm_delete: bool,
    /// Whether a service can be installed here.
    pub service_available: bool,
}

/// What the form says.
#[verifier::ext_equal]
pub struct WizardView {
    pub tabs: Seq<ServerTabView>,
    pub active_tab: int,
    pub log_level: Seq<char>,
    pub log_json: Seq<char>,
    pub install_service: Seq<char>,
    pub selected: int,
    pub mode: Mode,
    pub edit_buffer: Seq<char>,
    pub edit_cursor: int,
    pub modified: bool,
    pub message: Option<NoticeView>,
    pub scroll_offset: int,
    pub saved_once: bool,
    pub pending_quit: bool,
    pub confirm_delete: bool,
    pub service_available: bool,
}

pub open spec fn tab_views(tabs: Seq<ServerTab>) -> Seq<ServerTabView> {
    Seq::new(tabs.len(), |i: int| tabs[i]@)
}

impl View for Wizard {
    type V = WizardView;

    open spec fn view(&self) -> WizardView {
        WizardView {
            tabs: tab_views(self.tabs@),
            active_tab: self.active_tab as int,
            log_level: self.log_level@,
            log_json: self.log_json@,
            install_service: self.install_service@,
            selected: self.selected as int,
            mode: self.mode,
            edit_buffer: self.edit_buffer@,
            edit_cursor: self.edit_cursor as int,
            modified: self.modified,
            message: match self.message {
                Some(n) => Some(n@),
                None => None,
            },
            scroll_offset: self.scroll_offset as int,
            saved_once: self.saved_once,
            pending_quit: self.pending_quit,
            confirm_delete: self.confirm_delete,
            service_available: self.service_available,
        }
    }
}

pub open spec fn flag_text(b: bool) -> Seq<char> {
    if b {
        "true"@
    } else {
        "false"@
    }
}

fn flag_string(b: bool) -> (s: String)
    ensures
        s@ == flag_text(b),
{
    if b {
        String::from_str("true")
    } else {
        String::from_str("false")
    }
}

pub open spec fn notice(text: Seq<char>, at: u64, is_error: bool) -> Option<NoticeView> {
    Some(NoticeView { text, at, is_error })
}

impl WizardView {
    /// There is a tab, the active tab and the selected field exist, and the
    /// cursor lies within the text being edited.
    pub open spec fn wf(self) -> bool {
        &&& 0 < self.tabs.len()
        &&& 0 <= self.active_tab < self.tabs.len()
        &&& 0 <= self.selected < TOTAL_FIELDS
        &&& 0 <= self.edit_cursor <= self.edit_buffer.len()
        &&& 0 <= self.scroll_offset
    }

    /// The value of the field at `index`.
    pub open spec fn value_at(self, index: int) -> Seq<char> {
        if index == 0 {
            self.tabs[self.active_tab].aether_url
        } else if index == 1 {
            self.tabs[self.active_tab].management_token
        } else if index == 2 {
            self.tabs[self.active_tab].node_name
        } else if index == 3 {
            self.log_level
        } else if index == 4 {
            self.log_json
        } else {
            self.install_service
        }
    }

    /// The form with `value` in the field at `index`.
    pub open spec fn with_value(self, index: int, value: Seq<char>) -> WizardView {
        let tab = self.tabs[self.active_tab];
        if index == 0 {
            WizardView {
                tabs: self.tabs.update(self.active_tab, ServerTabView { aether_url: value, ..tab }),
                ..self
            }
        } else if index == 1 {
            WizardView {
                tabs: self.tabs.update(
                    self.active_tab,
                    ServerTabView { management_token: value, ..tab },
                ),
                ..self
            }
        } else if index == 2 {
            WizardView {
                tabs: self.tabs.update(self.active_tab, ServerTabView { node_name: value, ..tab }),
                ..self
            }
        } else if index == 3 {
            WizardView { log_level: value, ..self }
        } else if index == 4 {
            WizardView { log_json: value, ..self }
        } else {
            WizardView { install_service: value, ..self }
        }
    }

    /// The form after the selection moved to another tab or the tabs
    /// changed: the view scrolls to the top and a pending removal is
    /// forgotten.
    pub open spec fn settled(self) -> WizardView {
        WizardView { scroll_offset: 0, confirm_delete: false, ..self }
    }

    /// The form with the messages that are older than four seconds gone,
    /// unless they ask for a confirmation.
    pub open spec fn expired(self, now: u64) -> WizardView {
        if self.message is Some && !self.pending_quit && !self.confirm_delete && now
            - self.message->Some_0.at > MESSAGE_LIFETIME_MS {
            WizardView { message: None, ..self }
        } else {
            self
        }
    }

    /// The form after a key other than a quit key, before the key acts: a
    /// pending quit is cancelled, and so is a pending removal unless the
    /// key is a removal key.
    pub open spec fn calmed(self, key: Key) -> WizardView {
        let a = if self.pending_quit {
            WizardView { pending_quit: false, message: None, ..self }
        } else {
            self
        };
        if a.confirm_delete && !is_remove_key(key) {
            WizardView { confirm_delete: false, message: None, ..a }
        } else {
            a
        }
    }

    /// The level that follows the form's in the cycle trace, debug, info,
    /// warn, error; an unknown level counts as info.
    pub open spec fn next_level(level: Seq<char>) -> Seq<char> {
        if level == "trace"@ {
            "debug"@
        } else if level == "debug"@ {
            "info"@
        } else if level == "warn"@ {
            "error"@
        } else if level == "error"@ {
            "trace"@
        } else {
            "warn"@
        }
    }

    /// The form after Enter or Space on the selected field: a flag toggles
    /// (the service flag only where a service can be installed), the log
    /// level cycles, any other field opens for editing.
    pub open spec fn activated(self, now: u64) -> WizardView {
        let value = self.value_at(self.selected);
        match kind_at(self.selected) {
            FieldKind::Bool => {
                let toggled = value != "true"@;
                if self.selected == 5 && toggled && !self.service_available {
                    WizardView {
                        message: notice(
                            "requires root with systemd, use: sudo aether-proxy setup"@,
                            now,
                            true,
                        ),
                        ..self
                    }
                } else {
                    WizardView {
                        modified: true,
                        ..self.with_value(self.selected, flag_text(toggled))
                    }
                }
            },
            FieldKind::LogLevel => WizardView {
                modified: true,
                ..self.with_value(self.selected, Self::next_level(value))
            },
            _ => WizardView {
                edit_buffer: value,
                edit_cursor: value.len() as int,
                mode: Mode::Editing,
                ..self
            },
        }
    }

    /// The form with tab `index` active.
    pub open spec fn at_tab(self, index: int) -> WizardView {
        WizardView { active_tab: index, ..self }.settled()
    }

    /// The form with a new, empty server behind the others, selected.
    pub open spec fn with_new_tab(self, now: u64) -> WizardView {
        WizardView {
            tabs: self.tabs.push(blank_tab()),
            active_tab: self.tabs.len() as int,
            selected: 0,
            scroll_offset: 0,
            modified: true,
            message: notice("added server "@ + text::decimal((self.tabs.len() + 1) as nat), now, false),
            ..self
        }
    }

    /// The form after a removal key: the last server cannot be removed; the
    /// first press asks for a second; the second removes the active server.
    pub open spec fn after_remove_key(self, now: u64) -> WizardView {
        if self.tabs.len() <= 1 {
            WizardView { message: notice("cannot remove the last server"@, now, true), ..self }
        } else if self.confirm_delete {
            let tabs = self.tabs.remove(self.active_tab);
            WizardView {
                tabs,
                active_tab: if self.active_tab < tabs.len() {
                    self.active_tab
                } else {
                    tabs.len() - 1
                },
                modified: true,
                scroll_offset: 0,
                confirm_delete: false,
                message: notice(
                    "server "@ + text::decimal((self.active_tab + 1) as nat) + " removed"@,
                    now,
                    false,
                ),
                ..self
            }
        } else {
            WizardView {
                confirm_delete: true,
                message: notice("press Delete/x again to remove this server"@, now, true),
                ..self
            }
        }
    }

    /// The form in normal mode after `key`, and what the caller does.
    pub open spec fn after_normal_key(self, key: Key, mods: Modifiers, now: u64) -> (
        WizardView,
        KeyOutcome,
    ) {
        if is_quit_key(key) {
            if !self.modified || self.pending_quit {
                (self, KeyOutcome::Quit)
            } else {
                (
                    WizardView {
                        pending_quit: true,
                        confirm_delete: false,
                        message: notice(
                            "unsaved changes! q again to discard, ^S to save"@,
                            now,
                            true,
                        ),
                        ..self
                    },
                    KeyOutcome::Continue,
                )
            }
        } else {
            let s = self.calmed(key);
            match key {
                Key::Char(c) => if c == 's' {
                    if mods.control || mods.command {
                        (s, KeyOutcome::Save)
                    } else {
                        (s, KeyOutcome::Continue)
                    }
                } else if c == 'k' {
                    (s.moved_up(), KeyOutcome::Continue)
                } else if c == 'j' {
                    (s.moved_down(), KeyOutcome::Continue)
                } else if c == ' ' {
                    (s.activated(now), KeyOutcome::Continue)
                } else if '1' <= c && c <= '9' && !mods.control {
                    let index = c as int - '1' as int;
                    if index < s.tabs.len() && index != s.active_tab {
                        (s.at_tab(index), KeyOutcome::Continue)
                    } else {
                        (s, KeyOutcome::Continue)
                    }
                } else if c == '+' || c == 'a' {
                    (s.with_new_tab(now), KeyOutcome::Continue)
                } else if c == 'x' {
                    (s.after_remove_key(now), KeyOutcome::Continue)
                } else {
                    (s, KeyOutcome::Continue)
                },
                Key::Up => (s.moved_up(), KeyOutcome::Continue),
                Key::Down => (s.moved_down(), KeyOutcome::Continue),
                Key::Home => (WizardView { selected: 0, ..s }, KeyOutcome::Continue),
                Key::End => (WizardView { selected: TOTAL_FIELDS - 1, ..s }, KeyOutcome::Continue),
                Key::Enter => (s.activated(now), KeyOutcome::Continue),
                Key::Tab => if s.tabs.len() > 1 {
                    (s.at_tab((s.active_tab + 1) % (s.tabs.len() as int)), KeyOutcome::Continue)
                } else {
                    (s, KeyOutcome::Continue)
                },
                Key::BackTab => if s.tabs.len() > 1 {
                    (
                        s.at_tab(
                            if s.active_tab == 0 {
                                s.tabs.len() - 1
                            } else {
                                s.active_tab - 1
                            },
                        ),
                        KeyOutcome::Continue,
                    )
                } else {
                    (s, KeyOutcome::Continue)
                },
                Key::Delete => (s.after_remove_key(now), KeyOutcome::Continue),
                _ => (s, KeyOutcome::Continue),
            }
        }
    }

    pub open spec fn moved_up(self) -> WizardView {
        WizardView {
            selected: if self.selected > 0 {
                self.selected - 1
            } else {
                0
            },
            ..self
        }
    }

    pub open spec fn moved_down(self) -> WizardView {
        WizardView {
            selected: if self.selected + 1 < TOTAL_FIELDS {
                self.selected + 1
            } else {
                self.selected
            },
            ..self
        }
    }

    /// The form in editing mode after `key`.
    pub open spec fn after_edit_key(self, key: Key) -> WizardView {
        match key {
            Key::Esc => WizardView { mode: Mode::Normal, ..self },
            Key::Enter => WizardView {
                modified: true,
                mode: Mode::Normal,
                ..self.with_value(self.selected, self.edit_buffer)
            },
            Key::Backspace => if self.edit_cursor > 0 {
                WizardView {
                    edit_cursor: self.edit_cursor - 1,
                    edit_buffer: self.edit_buffer.remove(self.edit_cursor - 1),
                    ..self
                }
            } else {
                self
            },
            Key::Delete => if self.edit_cursor < self.edit_buffer.len() {
                WizardView { edit_buffer: self.edit_buffer.remove(self.edit_cursor), ..self }
            } else {
                self
            },
            Key::Left => WizardView {
                edit_cursor: if self.edit_cursor > 0 {
                    self.edit_cursor - 1
                } else {
                    0
                },
                ..self
            },
            Key::Right => WizardView {
                edit_cursor: if self.edit_cursor < self.edit_buffer.len() {
                    self.edit_cursor + 1
                } else {
                    self.edit_cursor
                },
                ..self
            },
            Key::Home => WizardView { edit_cursor: 0, ..self },
            Key::End => WizardView { edit_cursor: self.edit_buffer.len() as int, ..self },
            Key::Char(c) => WizardView {
                edit_buffer: self.edit_buffer.insert(self.edit_cursor, c),
                edit_cursor: self.edit_cursor + 1,
                ..self
            },
            _ => self,
        }
    }

    /// The form after `key` at `now`, and what the caller does.
    pub open spec fn after_key(self, key: Key, mods: Modifiers, now: u64) -> (
        WizardView,
        KeyOutcome,
    ) {
        let s = self.expired(now);
        match s.mode {
            Mode::Normal => s.after_normal_key(key, mods, now),
            Mode::Editing => (s.after_edit_key(key), KeyOutcome::Continue),
        }
    }

    /// The row of the selected field on the screen: a separator line stands
    /// between the server's fields and the global ones.
    pub open spec fn selected_row(self) -> int {
        if self.selected >= SERVER_FIELDS {
            self.selected + 1
        } else {
            self.selected
        }
    }

    /// The form scrolled so that the selected field is among the
    /// `visible_rows` rows shown.
    pub open spec fn scrolled(self, visible_rows: int) -> WizardView {
        let row = self.selected_row();
        if visible_rows == 0 {
            self
        } else if row < self.scroll_offset {
            WizardView { scroll_offset: row, ..self }
        } else if row >= self.scroll_offset + visible_rows {
            WizardView { scroll_offset: row - visible_rows + 1, ..self }
        } else {
            self
        }
    }
}

/// `q` and Esc ask to leave.
pub open spec fn is_quit_key(key: Key) -> bool {
    key == Key::Char('q') || key == Key::Esc
}

/// Delete and `x` ask to remove the active server.
pub open spec fn is_remove_key(key: Key) -> bool {
    key == Key::Delete || key == Key::Char('x')
}


fn make_notice(text: String, at: u64, is_error: bool) -> (n: Option<Notice>)
    ensures
        n is Some,
        n->Some_0@ == (NoticeView { text: text@, at, is_error }),
{
    Some(Notice { text, at, is_error })
}

impl Wizard {
    pub open spec fn wf(&self) -> bool {
        self@.wf()
    }

    /// The form as the wizard opens it: one empty server, log level info,
    /// no JSON logging, and the service installed where that is possible.
    pub fn new(service_available: bool) -> (w: Wizard)
        ensures
            w.wf(),
            w@ == (WizardView {
                tabs: seq![blank_tab()],
                active_tab: 0,
                log_level: "info"@,
                log_json: "false"@,
                install_service: flag_text(service_available),
                selected: 0,
                mode: Mode::Normal,
                edit_buffer: Seq::empty(),
                edit_cursor: 0,
                modified: false,
                message: None,
                scroll_offset: 0,
                saved_once: false,
                pending_quit: false,
                confirm_delete: false,
                service_available,
            }),
    {
        let mut tabs: Vec<ServerTab> = Vec::new();
        tabs.push(ServerTab::new());
        let w = Wizard {
            tabs,
            active_tab: 0,
            log_level: String::from_str("info"),
            log_json: String::from_str("false"),
            install_service: flag_string(service_available),
            selected: 0,
            mode: Mode::Normal,
            edit_buffer: Vec::new(),
            edit_cursor: 0,
            modified: false,
            message: None,
            scroll_offset: 0,
            saved_once: false,
            pending_quit: false,
            confirm_delete: false,
            service_available,
        };
        assert(w@.tabs =~= seq![blank_tab()]);
        w
    }

    /// Whether the form is in a state that takes keys: it is well-formed
    /// and has room for one more server and one more character.
    pub fn accepts_keys(&self) -> (r: bool)
        ensures
            r == (self.wf() && self.tabs@.len() < usize::MAX && self.edit_buffer@.len()
                < usize::MAX),
    {
        self.tabs.len() > 0 && self.tabs.len() < usize::MAX && self.active_tab < self.tabs.len()
            && self.selected < TOTAL_FIELDS && self.edit_cursor <= self.edit_buffer.len()
            && self.edit_buffer.len() < usize::MAX
    }

    /// The value of the field at `index`.
    pub fn value(&self, index: usize) -> (v: String)
        requires
            self.wf(),
            index < TOTAL_FIELDS,
        ensures
            v@ == self@.value_at(index as int),
    {
        let tab = &self.tabs[self.active_tab];
        if index == 0 {
            tab.aether_url.clone()
        } else if index == 1 {
            tab.management_token.clone()
        } else if index == 2 {
            tab.node_name.clone()
        } else if index == 3 {
            self.log_level.clone()
        } else if index == 4 {
            self.log_json.clone()
        } else {
            self.install_service.clone()
        }
    }

    /// Puts `value` into the field at `index`.
    pub fn set_value(&mut self, index: usize, value: String)
        requires
            old(self).wf(),
            index < TOTAL_FIELDS,
        ensures
            final(self)@ == old(self)@.with_value(index as int, value@),
            final(self).wf(),
    {
        if index < SERVER_FIELDS {
            let mut tab = self.tabs[self.active_tab].duplicate();
            if index == 0 {
                tab.aether_url = value;
            } else if index == 1 {
                tab.management_token = value;
            } else {
                tab.node_name = value;
            }
            self.tabs.set(self.active_tab, tab);
            assert(self@.tabs =~= old(self)@.with_value(index as int, value@).tabs);
        } else if index == 3 {
            self.log_level = value;
        } else if index == 4 {
            self.log_json = value;
        } else {
            self.install_service = value;
        }
        assert(self@.tabs =~= old(self)@.with_value(index as int, value@).tabs);
    }

    fn expire_message(&mut self, now: u64)
        ensures
            final(self)@ == old(self)@.expired(now),
    {
        let stale = match &self.message {
            Some(n) => !self.pending_quit && !self.confirm_delete && now > n.at && now - n.at
                > MESSAGE_LIFETIME_MS,
            None => false,
        };
        if stale {
            self.message = None;
        }
    }

    fn calm(&mut self, key: Key)
        ensures
            final(self)@ == old(self)@.calmed(key),
    {
        if self.pending_quit {
            self.pending_quit = false;
            self.message = None;
        }
        let remove_key = match key {
            Key::Delete => true,
            Key::Char(c) => c == 'x',
            _ => false,
        };
        if self.confirm_delete && !remove_key {
            self.confirm_delete = false;
            self.message = None;
        }
    }

    fn next_log_level(level: &String) -> (next: String)
        ensures
            next@ == WizardView::next_level(level@),
    {
        if *level == String::from_str("trace") {
            String::from_str("debug")
        } else if *level == String::from_str("debug") {
            String::from_str("info")
        } else if *level == String::from_str("warn") {
            String::from_str("error")
        } else if *level == String::from_str("error") {
            String::from_str("trace")
        } else {
            String::from_str("warn")
        }
    }

    fn activate(&mut self, now: u64)
        requires
            old(self).wf(),
        ensures
            final(self)@ == old(self)@.activated(now),
            final(self).wf(),
    {
        let value = self.value(self.selected);
        match field_kind(self.selected) {
            FieldKind::Bool => {
                let toggled = !(value == String::from_str("true"));
                if self.selected == 5 && toggled && !self.service_available {
                    self.message = make_notice(
                        String::from_str("requires root with systemd, use: sudo aether-proxy setup"),
                        now,
                        true,
                    );
                } else {
                    self.set_value(self.selected, flag_string(toggled));
                    self.modified = true;
                }
            },
            FieldKind::LogLevel => {
                let next = Self::next_log_level(&value);
                self.set_value(self.selected, next);
                self.modified = true;
            },
            _ => {
                self.edit_buffer = text::chars_of(value.as_str());
                self.edit_cursor = self.edit_buffer.len();
                self.mode = Mode::Editing;
            },
        }
    }

    fn go_to_tab(&mut self, index: usize)
        requires
            old(self).wf(),
            index < old(self).tabs@.len(),
        ensures
            final(self)@ == old(self)@.at_tab(index as int),
            final(self).wf(),
    {
        self.active_tab = index;
        self.scroll_offset = 0;
        self.confirm_delete = false;
    }

    fn add_tab(&mut self, now: u64)
        requires
            old(self).wf(),
            old(self).tabs@.len() < usize::MAX,
        ensures
            final(self)@ == old(self)@.with_new_tab(now),
            final(self).wf(),
    {
        self.tabs.push(ServerTab::new());
        self.active_tab = self.tabs.len() - 1;
        self.selected = 0;
        self.scroll_offset = 0;
        self.modified = true;
        let mut msg = String::from_str("added server ");
        text::push_numeral(&mut msg, self.tabs.len() as u64, 10);
        self.message = make_notice(msg, now, false);
        assert(self@.tabs =~= old(self)@.tabs.push(blank_tab()));
    }

    fn remove_key(&mut self, now: u64)
        requires
            old(self).wf(),
        ensures
            final(self)@ == old(self)@.after_remove_key(now),
            final(self).wf(),
    {
        if self.tabs.len() <= 1 {
            self.message = make_notice(String::from_str("cannot remove the last server"), now, true);
        } else if self.confirm_delete {
            let removed = self.active_tab + 1;
            self.tabs.remove(self.active_tab);
            if self.active_tab >= self.tabs.len() {
                self.active_tab = self.tabs.len() - 1;
            }
            self.scroll_offset = 0;
            self.confirm_delete = false;
            self.modified = true;
            let mut msg = String::from_str("server ");
            text::push_numeral(&mut msg, removed as u64, 10);
            msg.append(" removed");
            self.message = make_notice(msg, now, false);
            assert(self@.tabs =~= old(self)@.tabs.remove(old(self)@.active_tab));
        } else {
            self.confirm_delete = true;
            self.message = make_notice(
                String::from_str("press Delete/x again to remove this server"),
                now,
                true,
            );
        }
    }

    fn move_up(&mut self)
        ensures
            final(self)@ == old(self)@.moved_up(),
    {
        if self.selected > 0 {
            self.selected = self.selected - 1;
        }
    }

    fn move_down(&mut self)
        requires
            old(self).wf(),
        ensures
            final(self)@ == old(self)@.moved_down(),
    {
        if self.selected + 1 < TOTAL_FIELDS {
            self.selected = self.selected + 1;
        }
    }

    fn normal_key(&mut self, key: Key, mods: Modifiers, now: u64) -> (r: KeyOutcome)
        requires
            old(self).wf(),
            old(self).tabs@.len() < usize::MAX,
        ensures
            (final(self)@, r) == old(self)@.after_normal_key(key, mods, now),
            final(self).wf(),
    {
        let quit_key = match key {
            Key::Esc => true,
            Key::Char(c) => c == 'q',
            _ => false,
        };
        if quit_key {
            if !self.modified || self.pending_quit {
                return KeyOutcome::Quit;
            }
            self.pending_quit = true;
            self.confirm_delete = false;
            self.message = make_notice(
                String::from_str("unsaved changes! q again to discard, ^S to save"),
                now,
                true,
            );
            return KeyOutcome::Continue;
        }
        self.calm(key);
        match key {
            Key::Char(c) => {
                if c == 's' {
                    if mods.control || mods.command {
                        return KeyOutcome::Save;
                    }
                } else if c == 'k' {
                    self.move_up();
                } else if c == 'j' {
                    self.move_down();
                } else if c == ' ' {
                    self.activate(now);
                } else if '1' <= c && c <= '9' && !mods.control {
                    let index = (c as u32 - '1' as u32) as usize;
                    if index < self.tabs.len() && index != self.active_tab {
                        self.go_to_tab(index);
                    }
                } else if c == '+' || c == 'a' {
                    self.add_tab(now);
                } else if c == 'x' {
                    self.remove_key(now);
                }
            },
            Key::Up => self.move_up(),
            Key::Down => self.move_down(),
            Key::Home => {
                self.selected = 0;
            },
            Key::End => {
                self.selected = TOTAL_FIELDS - 1;
            },
            Key::Enter => self.activate(now),
            Key::Tab => {
                if self.tabs.len() > 1 {
                    let next = (self.active_tab + 1) % self.tabs.len();
                    self.go_to_tab(next);
                }
            },
            Key::BackTab => {
                if self.tabs.len() > 1 {
                    let prev = if self.active_tab == 0 {
                        self.tabs.len() - 1
                    } else {
                        self.active_tab - 1
                    };
                    self.go_to_tab(prev);
                }
            },
            Key::Delete => self.remove_key(now),
            _ => {},
        }
        KeyOutcome::Continue
    }

    fn edit_key(&mut self, key: Key)
        requires
            old(self).wf(),
            old(self).edit_buffer@.len() < usize::MAX,
        ensures
            final(self)@ == old(self)@.after_edit_key(key),
            final(self).wf(),
    {
        match key {
            Key::Esc => {
                self.mode = Mode::Normal;
            },
            Key::Enter => {
                let value = text::string_of(&self.edit_buffer, 0, self.edit_buffer.len());
                assert(self.edit_buffer@.subrange(0, self.edit_buffer@.len() as int)
                    =~= self.edit_buffer@);
                self.set_value(self.selected, value);
                self.modified = true;
                self.mode = Mode::Normal;
            },
            Key::Backspace => {
                if self.edit_cursor > 0 {
                    self.edit_cursor = self.edit_cursor - 1;
                    self.edit_buffer.remove(self.edit_cursor);
                }
            },
            Key::Delete => {
                if self.edit_cursor < self.edit_buffer.len() {
                    self.edit_buffer.remove(self.edit_cursor);
                }
            },
            Key::Left => {
                if self.edit_cursor > 0 {
                    self.edit_cursor = self.edit_cursor - 1;
                }
            },
            Key::Right => {
                if self.edit_cursor < self.edit_buffer.len() {
                    self.edit_cursor = self.edit_cursor + 1;
                }
            },
            Key::Home => {
                self.edit_cursor = 0;
            },
            Key::End => {
                self.edit_cursor = self.edit_buffer.len();
            },
            Key::Char(c) => {
                self.edit_buffer.insert(self.edit_cursor, c);
                self.edit_cursor = self.edit_cursor + 1;
            },
            _ => {},
        }
    }

    /// Takes in a key. Returns what the caller does next.
    pub fn handle_key(&mut self, key: Key, mods: Modifiers, now: u64) -> (r: KeyOutcome)
        requires
            old(self).wf(),
            old(self).tabs@.len() < usize::MAX,
            old(self).edit_buffer@.len() < usize::MAX,
        ensures
            (final(self)@, r) == old(self)@.after_key(key, mods, now),
            final(self).wf(),
    {
        self.expire_message(now);
        match self.mode {
            Mode::Normal => self.normal_key(key, mods, now),
            Mode::Editing => {
                self.edit_key(key);
                KeyOutcome::Continue
            },
        }
    }

    /// Takes note of how writing the configuration file went: `path` is the
    /// file, `error` the failure if there was one.
    pub fn record_save(&mut self, path: &str, error: Option<String>, now: u64)
        ensures
            final(self)@ == (match error {
                None => WizardView {
                    modified: false,
                    saved_once: true,
                    message: notice("saved to "@ + path@, now, false),
                    ..old(self)@
                },
                Some(e) => WizardView { message: notice("error: "@ + e@, now, true), ..old(self)@ },
            }),
    {
        match error {
            None => {
                self.modified = false;
                self.saved_once = true;
                self.message = make_notice(text::concat("saved to ", path), now, false);
            },
            Some(e) => {
                self.message = make_notice(text::concat("error: ", e.as_str()), now, true);
            },
        }
    }

    /// Scrolls so that the selected field is among the `visible_rows` rows
    /// shown.
    pub fn ensure_visible(&mut self, visible_rows: usize)
        requires
            old(self).wf(),
        ensures
            final(self)@ == old(self)@.scrolled(visible_rows as int),
            final(self).wf(),
    {
        if visible_rows == 0 {
            return ;
        }
        let row = if self.selected >= SERVER_FIELDS {
            self.selected + 1
        } else {
            self.selected
        };
        if row < self.scroll_offset {
            self.scroll_offset = row;
        } else if row - self.scroll_offset >= visible_rows {
            self.scroll_offset = row - visible_rows + 1;
        }
    }

    /// Whether the user wants the service installed.
    pub fn wants_service(&self) -> (r: bool)
        ensures
            r == (self@.install_service == "true"@),
    {
        self.install_service == String::from_str("true")
    }

    /// What the wizard comes to once the form is closed, where `installed`
    /// says whether the service was installed (asked for only if the user
    /// wants it and has saved).
    pub fn outcome(&self, path: &str, installed: bool) -> (r: SetupOutcome)
        ensures
            !self@.saved_once ==> r == SetupOutcome::Cancelled,
            self@.saved_once && self@.install_service == "true"@ && installed ==> r
                == SetupOutcome::ServiceInstalled,
            self@.saved_once && !(self@.install_service == "true"@ && installed) ==> {
                &&& r matches SetupOutcome::ReadyToRun(p)
                &&& p@ == path@
            },
    {
        if !self.saved_once {
            SetupOutcome::Cancelled
        } else if self.wants_service() && installed {
            SetupOutcome::ServiceInstalled
        } else {
            SetupOutcome::ReadyToRun(String::from_str(path))
        }
    }
}


/// A text, if it is not empty.
pub open spec fn filled(value: Seq<char>) -> Option<Seq<char>> {
    if value.len() == 0 {
        None
    } else {
        Some(value)
    }
}

/// The flag that a text spells: `true` or `false`, else none.
pub open spec fn flag_of(value: Seq<char>) -> Option<bool> {
    if value == "true"@ {
        Some(true)
    } else if value == "false"@ {
        Some(false)
    } else {
        None
    }
}

/// The server entry of a tab: its URL and token as they are, and its node
/// name if it has one.
pub open spec fn entry_of(tab: ServerTabView) -> crate::config::ServerEntryView {
    crate::config::ServerEntryView {
        aether_url: tab.aether_url,
        management_token: tab.management_token,
        node_name: filled(tab.node_name),
    }
}

/// The tab of a server entry.
pub open spec fn tab_of(entry: crate::config::ServerEntryView) -> ServerTabView {
    ServerTabView {
        aether_url: entry.aether_url,
        management_token: entry.management_token,
        node_name: match entry.node_name {
            Some(n) => n,
            None => "proxy-01"@,
        },
    }
}

/// The tabs for a configuration file: one per server; for a file without
/// servers one empty tab. A single server without a node name of its own
/// takes the file's top-level one.
pub open spec fn tabs_of(file: ConfigFile) -> Seq<ServerTabView> {
    let servers = file.spec_effective_servers();
    if servers.len() == 0 {
        seq![
            ServerTabView {
                node_name: match file.node_name {
                    Some(n) => n@,
                    None => "proxy-01"@,
                },
                ..blank_tab()
            },
        ]
    } else if servers.len() == 1 && tab_of(servers[0]).node_name.len() == 0 && file.node_name
        is Some {
        seq![ServerTabView { node_name: file.node_name->Some_0@, ..tab_of(servers[0]) }]
    } else {
        Seq::new(servers.len(), |i: int| tab_of(servers[i]))
    }
}

impl Wizard {
    /// Fills the form from a configuration file.
    pub fn apply_config(&mut self, file: &ConfigFile)
        requires
            old(self).wf(),
        ensures
            final(self).wf(),
            final(self)@ == (WizardView {
                tabs: tabs_of(*file),
                active_tab: 0,
                selected: 0,
                scroll_offset: 0,
                log_level: match file.log_level {
                    Some(l) => l@,
                    None => old(self)@.log_level,
                },
                log_json: match file.log_json {
                    Some(b) => flag_text(b),
                    None => old(self)@.log_json,
                },
                ..old(self)@
            }),
    {
        if let Some(level) = &file.log_level {
            self.log_level = level.clone();
        }
        if let Some(json) = file.log_json {
            self.log_json = flag_string(json);
        }
        let servers = file.effective_servers();
        let mut tabs: Vec<ServerTab> = Vec::new();
        if servers.len() == 0 {
            let mut tab = ServerTab::new();
            if let Some(name) = &file.node_name {
                tab.node_name = name.clone();
            }
            tabs.push(tab);
            assert(tab_views(tabs@) =~= tabs_of(*file));
        } else {
            let mut i: usize = 0;
            while i < servers.len()
                invariant
                    i <= servers@.len(),
                    servers@.len() == file.spec_effective_servers().len(),
                    forall|j: int|
                        0 <= j < servers@.len() ==> (#[trigger] servers@[j])@
                            == file.spec_effective_servers()[j],
                    tabs@.len() == i,
                    forall|j: int|
                        0 <= j < i ==> (#[trigger] tabs@[j])@ == tab_of(
                            file.spec_effective_servers()[j],
                        ),
                decreases servers@.len() - i,
            {
                tabs.push(ServerTab::from_entry(&servers[i]));
                i += 1;
            }
            if tabs.len() == 1 && tabs[0].node_name.as_str().unicode_len() == 0 {
                if let Some(name) = &file.node_name {
                    let mut tab = tabs[0].duplicate();
                    tab.node_name = name.clone();
                    tabs.set(0, tab);
                }
            }
            assert(tab_views(tabs@) =~= tabs_of(*file));
        }
        self.tabs = tabs;
        self.active_tab = 0;
        self.selected = 0;
        self.scroll_offset = 0;
    }

    /// The configuration file that the form describes: the servers, the log
    /// level and the JSON flag, and nothing else.
    pub fn to_config(&self) -> (f: ConfigFile)
        ensures
            opt_view(f.log_level) == filled(self@.log_level),
            f.log_json == flag_of(self@.log_json),
            f.servers@.len() == self@.tabs.len(),
            forall|i: int|
                0 <= i < f.servers@.len() ==> (#[trigger] f.servers@[i])@ == entry_of(self@.tabs[i]),
            f.aether_url is None,
            f.management_token is None,
            f.public_ip is None,
            f.node_name is None,
            f.node_region is None,
            f.heartbeat_interval is None,
            f.allowed_ports is None,
            f.aether_request_timeout_secs is None,
            f.aether_connect_timeout_secs is None,
            f.aether_pool_max_idle_per_host is None,
            f.aether_pool_idle_timeout_secs is None,
            f.aether_tcp_keepalive_secs is None,
            f.aether_tcp_nodelay is None,
            f.aether_http2 is None,
            f.aether_retry_max_attempts is None,
            f.aether_retry_base_delay_ms is None,
            f.aether_retry_max_delay_ms is None,
            f.max_concurrent_connections is None,
            f.dns_cache_ttl_secs is None,
            f.dns_cache_capacity is None,
            f.upstream_connect_timeout_secs is None,
            f.upstream_pool_max_idle_per_host is None,
            f.upstream_pool_idle_timeout_secs is None,
            f.upstream_tcp_keepalive_secs is None,
            f.upstream_tcp_nodelay is None,
            f.tunnel_reconnect_base_ms is None,
            f.tunnel_reconnect_max_ms is None,
            f.tunnel_ping_interval_secs is None,
            f.tunnel_max_streams is None,
            f.tunnel_connect_timeout_secs is None,
            f.tunnel_tcp_keepalive_secs is None,
            f.tunnel_tcp_nodelay is None,
            f.tunnel_stale_timeout_secs is None,
            f.tunnel_connections is None,
    {
        let mut f = ConfigFile::empty();
        if self.log_level.as_str().unicode_len() > 0 {
            f.log_level = Some(self.log_level.clone());
        }
        if self.log_json == String::from_str("true") {
            f.log_json = Some(true);
        } else if self.log_json == String::from_str("false") {
            f.log_json = Some(false);
        }
        let mut servers: Vec<ServerEntry> = Vec::new();
        let mut i: usize = 0;
        while i < self.tabs.len()
            invariant
                i <= self.tabs@.len(),
                servers@.len() == i,
                forall|j: int|
                    0 <= j < i ==> (#[trigger] servers@[j])@ == entry_of(self.tabs@[j]@),
            decreases self.tabs@.len() - i,
        {
            let tab = &self.tabs[i];
            servers.push(
                ServerEntry {
                    aether_url: tab.aether_url.clone(),
                    management_token: tab.management_token.clone(),
                    node_name: if tab.node_name.as_str().unicode_len() > 0 {
                        Some(tab.node_name.clone())
                    } else {
                        None
                    },
                },
            );
            i += 1;
        }
        f.servers = servers;
        f
    }
}

pub open spec fn opt_view(v: Option<String>) -> Option<Seq<char>> {
    match v {
        Some(s) => Some(s@),
        None => None,
    }
}

} // verus!
