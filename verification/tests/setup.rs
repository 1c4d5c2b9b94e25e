use aether_proxy::config::{ConfigFile, ServerEntry};
use aether_proxy::setup::{
    field_kind, FieldKind, Key, KeyOutcome, Mode, Modifiers, ServerTab, SetupOutcome, Wizard, MESSAGE_LIFETIME_MS,
};

const NONE: Modifiers = Modifiers { control: false, command: false };
const CTRL: Modifiers = Modifiers { control: true, command: false };

fn press(w: &mut Wizard, key: Key) -> KeyOutcome {
    w.handle_key(key, NONE, 0)
}

fn type_text(w: &mut Wizard, text: &str) {
    for c in text.chars() {
        assert_eq!(press(w, Key::Char(c)), KeyOutcome::Continue);
    }
}

fn message(w: &Wizard) -> Option<(&str, bool)> {
    w.message.as_ref().map(|n| (n.text.as_str(), n.is_error))
}

#[test]
fn the_form_as_it_opens() {
    let w = Wizard::new(true);
    assert_eq!(w.tabs.len(), 1);
    assert_eq!(w.tabs[0].aether_url, "");
    assert_eq!(w.tabs[0].management_token, "");
    assert_eq!(w.tabs[0].node_name, "proxy-01");
    assert_eq!((w.log_level.as_str(), w.log_json.as_str(), w.install_service.as_str()), ("info", "false", "true"));
    assert_eq!((w.selected, w.active_tab, w.mode), (0, 0, Mode::Normal));
    assert!(!w.modified && !w.saved_once && w.message.is_none());
    assert_eq!(Wizard::new(false).install_service, "false");
    let kinds: Vec<FieldKind> = (0..6).map(field_kind).collect();
    assert_eq!(
        kinds,
        vec![FieldKind::Text, FieldKind::Secret, FieldKind::Text, FieldKind::LogLevel, FieldKind::Bool, FieldKind::Bool]
    );
}

#[test]
fn selection_moves_within_the_form() {
    let mut w = Wizard::new(true);
    press(&mut w, Key::Up);
    assert_eq!(w.selected, 0);
    press(&mut w, Key::Down);
    press(&mut w, Key::Char('j'));
    assert_eq!(w.selected, 2);
    press(&mut w, Key::Char('k'));
    assert_eq!(w.selected, 1);
    press(&mut w, Key::End);
    assert_eq!(w.selected, 5);
    press(&mut w, Key::Down);
    assert_eq!(w.selected, 5);
    press(&mut w, Key::Home);
    assert_eq!(w.selected, 0);
    assert!(!w.modified);
}

#[test]
fn editing_a_text_field() {
    let mut w = Wizard::new(true);
    press(&mut w, Key::Enter);
    assert_eq!(w.mode, Mode::Editing);
    type_text(&mut w, "https://a.tset");
    press(&mut w, Key::Left);
    press(&mut w, Key::Left);
    press(&mut w, Key::Backspace);
    assert_eq!(w.edit_buffer.iter().collect::<String>(), "https://a.tet");
    assert_eq!(w.edit_cursor, 11);
    press(&mut w, Key::Right);
    press(&mut w, Key::Char('s'));
    assert_eq!(w.edit_buffer.iter().collect::<String>(), "https://a.test");
    assert_eq!(w.edit_cursor, 13);
    press(&mut w, Key::Delete);
    assert_eq!(w.edit_buffer.iter().collect::<String>(), "https://a.tes");
    press(&mut w, Key::Char('t'));
    press(&mut w, Key::Home);
    press(&mut w, Key::Backspace);
    press(&mut w, Key::Left);
    assert_eq!(w.edit_cursor, 0);
    assert_eq!(w.edit_buffer.iter().collect::<String>(), "https://a.test");
    press(&mut w, Key::End);
    press(&mut w, Key::Char('!'));
    press(&mut w, Key::Backspace);
    press(&mut w, Key::Right);
    press(&mut w, Key::Delete);
    assert_eq!(w.edit_cursor, 14);
    assert!(!w.modified);
    assert_eq!(press(&mut w, Key::Enter), KeyOutcome::Continue);
    assert_eq!(w.mode, Mode::Normal);
    assert_eq!(w.tabs[0].aether_url, "https://a.test");
    assert!(w.modified);
}

#[test]
fn escape_discards_the_edit() {
    let mut w = Wizard::new(true);
    press(&mut w, Key::Down);
    press(&mut w, Key::Down);
    press(&mut w, Key::Char(' '));
    assert_eq!(w.mode, Mode::Editing);
    assert_eq!(w.edit_buffer.iter().collect::<String>(), "proxy-01");
    assert_eq!(w.edit_cursor, 8);
    type_text(&mut w, "qxj");
    assert_eq!(press(&mut w, Key::Esc), KeyOutcome::Continue);
    assert_eq!(w.mode, Mode::Normal);
    assert_eq!(w.tabs[0].node_name, "proxy-01");
    assert!(!w.modified);
}

#[test]
fn log_level_cycles() {
    let mut w = Wizard::new(true);
    w.selected = 3;
    let mut seen = Vec::new();
    for _ in 0..6 {
        press(&mut w, Key::Enter);
        seen.push(w.log_level.clone());
    }
    assert_eq!(seen, vec!["warn", "error", "trace", "debug", "info", "warn"]);
    assert!(w.modified);
    w.log_level = "verbose".to_string();
    press(&mut w, Key::Enter);
    assert_eq!(w.log_level, "warn");
}

#[test]
fn flags_toggle() {
    let mut w = Wizard::new(true);
    w.selected = 4;
    press(&mut w, Key::Enter);
    assert_eq!(w.log_json, "true");
    press(&mut w, Key::Char(' '));
    assert_eq!(w.log_json, "false");
    w.selected = 5;
    press(&mut w, Key::Enter);
    assert_eq!(w.install_service, "false");
    press(&mut w, Key::Enter);
    assert_eq!(w.install_service, "true");
}

#[test]
fn service_flag_needs_a_service() {
    let mut w = Wizard::new(false);
    w.selected = 5;
    press(&mut w, Key::Enter);
    assert_eq!(w.install_service, "false");
    assert!(!w.modified);
    assert_eq!(message(&w), Some(("requires root with systemd, use: sudo aether-proxy setup", true)));
    // switching it off is always possible
    w.install_service = "true".to_string();
    press(&mut w, Key::Enter);
    assert_eq!(w.install_service, "false");
    assert!(w.modified);
}

#[test]
fn quitting_with_unsaved_changes_asks_twice() {
    let mut w = Wizard::new(true);
    assert_eq!(press(&mut w, Key::Char('q')), KeyOutcome::Quit);
    let mut w = Wizard::new(true);
    assert_eq!(press(&mut w, Key::Esc), KeyOutcome::Quit);
    let mut w = Wizard::new(true);
    w.selected = 4;
    press(&mut w, Key::Enter);
    assert_eq!(press(&mut w, Key::Char('q')), KeyOutcome::Continue);
    assert!(w.pending_quit);
    assert_eq!(message(&w), Some(("unsaved changes! q again to discard, ^S to save", true)));
    // any other key cancels
    assert_eq!(press(&mut w, Key::Up), KeyOutcome::Continue);
    assert!(!w.pending_quit);
    assert!(w.message.is_none());
    assert_eq!(press(&mut w, Key::Esc), KeyOutcome::Continue);
    assert_eq!(press(&mut w, Key::Char('q')), KeyOutcome::Quit);
}

#[test]
fn saving() {
    let mut w = Wizard::new(true);
    w.selected = 4;
    press(&mut w, Key::Enter);
    assert_eq!(w.handle_key(Key::Char('s'), NONE, 0), KeyOutcome::Continue);
    assert_eq!(w.handle_key(Key::Char('s'), CTRL, 0), KeyOutcome::Save);
    assert_eq!(w.handle_key(Key::Char('s'), Modifiers { control: false, command: true }, 0), KeyOutcome::Save);
    w.record_save("aether-proxy.toml", Some("permission denied".to_string()), 7);
    assert!(w.modified && !w.saved_once);
    assert_eq!(message(&w), Some(("error: permission denied", true)));
    w.record_save("aether-proxy.toml", None, 8);
    assert!(!w.modified && w.saved_once);
    assert_eq!(message(&w), Some(("saved to aether-proxy.toml", false)));
    assert_eq!(press(&mut w, Key::Char('q')), KeyOutcome::Quit);
}

#[test]
fn messages_expire_after_four_seconds() {
    let mut w = Wizard::new(true);
    w.record_save("f", None, 1000);
    w.handle_key(Key::Other, NONE, 1000 + MESSAGE_LIFETIME_MS);
    assert!(w.message.is_some());
    w.handle_key(Key::Other, NONE, 1001 + MESSAGE_LIFETIME_MS);
    assert!(w.message.is_none());
    // a question does not expire
    let mut w = Wizard::new(true);
    w.selected = 4;
    press(&mut w, Key::Enter);
    w.handle_key(Key::Char('q'), NONE, 1000);
    assert_eq!(w.handle_key(Key::Char('q'), NONE, 100_000), KeyOutcome::Quit);
}

#[test]
fn servers_are_added_and_removed() {
    let mut w = Wizard::new(true);
    press(&mut w, Key::Delete);
    assert_eq!(message(&w), Some(("cannot remove the last server", true)));
    w.selected = 4;
    press(&mut w, Key::Char('+'));
    assert_eq!((w.tabs.len(), w.active_tab, w.selected), (2, 1, 0));
    assert!(w.modified);
    assert_eq!(message(&w), Some(("added server 2", false)));
    press(&mut w, Key::Char('a'));
    assert_eq!((w.tabs.len(), w.active_tab), (3, 2));
    w.tabs[0].node_name = "first".to_string();
    w.tabs[1].node_name = "second".to_string();
    w.tabs[2].node_name = "third".to_string();
    // removal asks for a second press
    press(&mut w, Key::Char('2'));
    assert_eq!(w.active_tab, 1);
    press(&mut w, Key::Char('x'));
    assert!(w.confirm_delete);
    assert_eq!(w.tabs.len(), 3);
    assert_eq!(message(&w), Some(("press Delete/x again to remove this server", true)));
    press(&mut w, Key::Up);
    assert!(!w.confirm_delete);
    press(&mut w, Key::Delete);
    press(&mut w, Key::Char('x'));
    assert_eq!(w.tabs.len(), 2);
    assert_eq!(w.active_tab, 1);
    assert_eq!(w.tabs[1].node_name, "third");
    assert!(!w.confirm_delete);
    assert_eq!(message(&w), Some(("server 2 removed", false)));
    // removing the last tab moves to the one before
    press(&mut w, Key::Delete);
    press(&mut w, Key::Delete);
    assert_eq!((w.tabs.len(), w.active_tab), (1, 0));
    assert_eq!(w.tabs[0].node_name, "first");
}

#[test]
fn tabs_are_switched() {
    let mut w = Wizard::new(true);
    press(&mut w, Key::Tab);
    assert_eq!(w.active_tab, 0);
    press(&mut w, Key::Char('+'));
    press(&mut w, Key::Char('+'));
    w.scroll_offset = 3;
    press(&mut w, Key::Tab);
    assert_eq!((w.active_tab, w.scroll_offset), (0, 0));
    press(&mut w, Key::BackTab);
    assert_eq!(w.active_tab, 2);
    press(&mut w, Key::BackTab);
    assert_eq!(w.active_tab, 1);
    press(&mut w, Key::Char('3'));
    assert_eq!(w.active_tab, 2);
    press(&mut w, Key::Char('9'));
    assert_eq!(w.active_tab, 2);
    w.handle_key(Key::Char('1'), CTRL, 0);
    assert_eq!(w.active_tab, 2);
    press(&mut w, Key::Char('1'));
    assert_eq!(w.active_tab, 0);
}

#[test]
fn scrolling_keeps_the_selection_in_view() {
    let mut w = Wizard::new(true);
    w.selected = 5;
    w.ensure_visible(3);
    assert_eq!(w.scroll_offset, 4);
    w.selected = 2;
    w.ensure_visible(3);
    assert_eq!(w.scroll_offset, 2);
    w.selected = 3;
    w.ensure_visible(3);
    assert_eq!(w.scroll_offset, 2);
    w.selected = 0;
    w.ensure_visible(0);
    assert_eq!(w.scroll_offset, 2);
    w.ensure_visible(10);
    assert_eq!(w.scroll_offset, 0);
}

fn entry(url: &str, token: &str, name: Option<&str>) -> ServerEntry {
    ServerEntry { aether_url: url.to_string(), management_token: token.to_string(), node_name: name.map(|n| n.to_string()) }
}

#[test]
fn form_from_a_file() {
    let mut f = ConfigFile::empty();
    f.log_level = Some("debug".to_string());
    f.log_json = Some(true);
    f.node_name = Some("top".to_string());
    f.servers = vec![entry("https://a.test", "t1", Some("a")), entry("https://b.test", "t2", None)];
    let mut w = Wizard::new(false);
    w.selected = 4;
    w.apply_config(&f);
    assert_eq!((w.log_level.as_str(), w.log_json.as_str(), w.install_service.as_str()), ("debug", "true", "false"));
    assert_eq!(w.tabs.len(), 2);
    assert_eq!(w.tabs[0].node_name, "a");
    assert_eq!(w.tabs[1].aether_url, "https://b.test");
    assert_eq!(w.tabs[1].management_token, "t2");
    assert_eq!(w.tabs[1].node_name, "proxy-01");
    assert_eq!((w.selected, w.active_tab), (0, 0));
    // a file without servers gives one tab with the top-level name
    let mut f = ConfigFile::empty();
    f.node_name = Some("top".to_string());
    w.apply_config(&f);
    assert_eq!(w.tabs.len(), 1);
    assert_eq!((w.tabs[0].aether_url.as_str(), w.tabs[0].node_name.as_str()), ("", "top"));
    assert_eq!(w.log_level, "debug");
    // a single server with an empty name takes the top-level one
    f.servers = vec![entry("https://a.test", "t1", Some(""))];
    w.apply_config(&f);
    assert_eq!(w.tabs[0].node_name, "top");
    // the old single-server form
    let mut f = ConfigFile::empty();
    f.aether_url = Some("https://old.test".to_string());
    f.management_token = Some("t0".to_string());
    w.apply_config(&f);
    assert_eq!(w.tabs.len(), 1);
    assert_eq!(w.tabs[0].aether_url, "https://old.test");
    assert_eq!(w.tabs[0].node_name, "proxy-01");
}

#[test]
fn file_from_the_form() {
    let mut w = Wizard::new(true);
    w.tabs[0].aether_url = "https://a.test".to_string();
    w.tabs[0].management_token = "t1".to_string();
    w.tabs.push(ServerTab { aether_url: String::new(), management_token: String::new(), node_name: String::new() });
    w.log_json = "true".to_string();
    let f = w.to_config();
    assert_eq!(f.log_level.as_deref(), Some("info"));
    assert_eq!(f.log_json, Some(true));
    assert_eq!(f.servers.len(), 2);
    assert_eq!(f.servers[0].aether_url, "https://a.test");
    assert_eq!(f.servers[0].node_name.as_deref(), Some("proxy-01"));
    assert_eq!(f.servers[1].aether_url, "");
    assert_eq!(f.servers[1].node_name, None);
    assert!(f.aether_url.is_none() && f.management_token.is_none() && f.node_name.is_none());
    assert!(f.allowed_ports.is_none() && f.tunnel_connections.is_none() && f.heartbeat_interval.is_none());
    w.log_level = String::new();
    w.log_json = "yes".to_string();
    let f = w.to_config();
    assert_eq!(f.log_level, None);
    assert_eq!(f.log_json, None);
}

#[test]
fn outcome_of_the_wizard() {
    let mut w = Wizard::new(true);
    assert_eq!(w.outcome("p.toml", true), SetupOutcome::Cancelled);
    w.record_save("p.toml", None, 0);
    assert!(w.wants_service());
    assert_eq!(w.outcome("p.toml", true), SetupOutcome::ServiceInstalled);
    assert_eq!(w.outcome("p.toml", false), SetupOutcome::ReadyToRun("p.toml".to_string()));
    w.install_service = "false".to_string();
    assert!(!w.wants_service());
    assert_eq!(w.outcome("p.toml", true), SetupOutcome::ReadyToRun("p.toml".to_string()));
}

#[test]
fn a_broken_form_takes_no_keys() {
    let mut w = Wizard::new(true);
    assert!(w.accepts_keys());
    w.selected = 6;
    assert!(!w.accepts_keys());
    w.selected = 5;
    w.active_tab = 1;
    assert!(!w.accepts_keys());
    w.active_tab = 0;
    w.edit_cursor = 1;
    assert!(!w.accepts_keys());
    w.edit_cursor = 0;
    w.tabs.clear();
    assert!(!w.accepts_keys());
}
