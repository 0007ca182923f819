use zerosum::client::commands::{help_text, Command};
use zerosum::client::contacts::ContactStore;
use zerosum::client::files::{chunk_count, chunk_of, file_name, FILE_CHUNK};
use zerosum::client::history::{Direction, HistoryStore};
use zerosum::client::network::{
    handle_command, handle_server_message, heartbeat_delay, heartbeat_delay_for, on_command,
    on_frame, split_address, use_tor, Link, LinkAction, LinkEvent, LoopAction, NetCommand,
    NetEvent,
};
use zerosum::client::screen::{
    cursor_place, draw_header, draw_messages, draw_sidebar, help_area, input_title, sidebar_title,
    sidebar_width, Origin,
};
use zerosum::client::stealth::{apply_stealth, is_success, Measures};
use zerosum::client::tui::{
    handle_key_event, without_contact, AppState, ContactDisplay, KeyCode, KeyEvent,
};
use zerosum::client::wipe::{
    execute_panic, pass_bytes, purge_history, purge_passes, secure_delete, Pass,
};
use zerosum::crypto::CryptoError;
use zerosum::protocol::message::{ClientMessage, ServerMessage};
use zerosum::protocol::ProtoError;
use zerosum::tor::{host_with_port, onion_address, TorConnection, TorServiceConfig};

fn s(t: &str) -> String {
    t.to_string()
}

fn show<T: std::fmt::Debug>(t: &T) -> String {
    format!("{:?}", t)
}

fn press(state: &mut AppState, code: KeyCode) -> Option<Command> {
    let key = KeyEvent { code, control: false };
    assert!(state.accepts(key));
    handle_key_event(state, key)
}

fn control(state: &mut AppState, c: char) -> Option<Command> {
    let key = KeyEvent { code: KeyCode::Char(c), control: true };
    assert!(state.accepts(key));
    handle_key_event(state, key)
}

fn type_text(state: &mut AppState, t: &str) {
    for c in t.chars() {
        assert!(press(state, KeyCode::Char(c)).is_none());
    }
}

fn contact(name: &str) -> ContactDisplay {
    ContactDisplay { username: s(name), alias: None, online: false, verified: false, unread: 0 }
}

// ── Commands ────────────────────────────────────────────────

#[test]
fn commands_are_parsed() {
    for (line, command) in [
        ("", "Message(\"\")"),
        ("   ", "Message(\"\")"),
        ("hello there", "Message(\"hello there\")"),
        ("  padded \t", "Message(\"padded\")"),
        ("!panic", "Panic"),
        (" !panic ", "Panic"),
        ("!panic now", "Message(\"!panic now\")"),
        ("/request bob", "Request(\"bob\")"),
        ("/req bob", "Request(\"bob\")"),
        ("/add bob", "Request(\"bob\")"),
        ("/REQUEST Bob", "Request(\"Bob\")"),
        ("/request", "Unknown(\"Usage: /request <username>\")"),
        ("/request  bob", "Request(\"\")"),
        ("/request bob please", "Request(\"bob\")"),
        ("/accept bob", "Accept(\"bob\")"),
        ("/accept", "Unknown(\"Usage: /accept <username>\")"),
        ("/reject bob", "Reject(\"bob\")"),
        ("/deny bob", "Reject(\"bob\")"),
        ("/reject", "Unknown(\"Usage: /reject <username>\")"),
        ("/select bob", "Select(\"bob\")"),
        ("/s bob", "Select(\"bob\")"),
        ("/chat bob", "Select(\"bob\")"),
        ("/select", "Unknown(\"Usage: /select <username>\")"),
        ("/remove bob", "Remove(\"bob\")"),
        ("/remove", "Unknown(\"Usage: /remove <username>\")"),
        ("/confirm bob", "Unknown(\"Unknown command: /confirm\")"),
        ("/ALIAS bob Zoë", "Alias(\"bob\", \"Zoë\")"),
        ("/Request Zoë", "Request(\"Zoë\")"),
        ("/alias bob Bob the builder", "Alias(\"bob\", \"Bob the builder\")"),
        ("/alias bob", "Unknown(\"Usage: /alias <username> <alias>\")"),
        ("/verify", "Verify(None)"),
        ("/v bob", "Verify(Some(\"bob\"))"),
        ("/clear", "Clear"),
        ("/cls", "Clear"),
        ("/history on", "History(true)"),
        ("/history ENABLE", "History(true)"),
        ("/history true", "History(true)"),
        ("/history 1", "History(true)"),
        ("/history off", "History(false)"),
        ("/history disable", "History(false)"),
        ("/history False", "History(false)"),
        ("/history 0", "History(false)"),
        ("/history", "Unknown(\"Usage: /history on|off\")"),
        ("/history maybe", "Unknown(\"Usage: /history on|off\")"),
        ("/purge", "Purge"),
        ("/file  /tmp/a b ", "File(\"/tmp/a b\")"),
        ("/f x", "File(\"x\")"),
        ("/send x", "File(\"x\")"),
        ("/file", "Unknown(\"Usage: /file <path>\")"),
        ("/help", "Help"),
        ("/h", "Help"),
        ("/?", "Help"),
        ("/quit", "Quit"),
        ("/exit", "Quit"),
        ("/q!", "Quit"),
        ("/contacts", "Contacts"),
        ("/c", "Contacts"),
        ("/list", "Contacts"),
        ("/requests", "Requests"),
        ("/pending", "Requests"),
        ("/status", "Status"),
        ("/reconnect", "Reconnect"),
        ("/lock", "Lock"),
        ("/Dance now", "Unknown(\"Unknown command: /dance\")"),
        ("/", "Unknown(\"Unknown command: /\")"),
    ] {
        assert_eq!(show(&Command::parse(line)), command, "{}", line);
    }
}

#[test]
fn help_names_only_commands_that_are_understood() {
    let lines = help_text();
    assert_eq!(lines.len(), 30);
    let mut seen = 0;
    for line in lines {
        let chars: Vec<char> = line.chars().collect();
        assert_eq!(chars.len(), 56);
        if chars[3] != '/' && chars[3] != '!' {
            continue;
        }
        let word: String = chars[3..].iter().take_while(|c| **c != ' ').collect();
        let input = match word.as_str() {
            "/alias" => format!("{} bob Bobby", word),
            "/history" => format!("{} on", word),
            "/request" | "/accept" | "/reject" | "/select" | "/file" => format!("{} bob", word),
            _ => word,
        };
        let command = Command::parse(&input);
        assert!(!matches!(command, Command::Unknown(_) | Command::Message(_)), "{}", input);
        seen += 1;
    }
    assert_eq!(seen, 17);
}

#[test]
fn locked_screen_takes_only_a_password() {
    let mut state = AppState::new(s("me"));
    state.contacts.push(contact("bob"));
    state.locked = true;
    for code in [KeyCode::Tab, KeyCode::Esc, KeyCode::F(1), KeyCode::Up, KeyCode::Enter] {
        assert!(press(&mut state, code).is_none());
    }
    assert!(control(&mut state, 'h').is_none() && control(&mut state, 'l').is_none());
    assert_eq!(show(&control(&mut state, 'c')), "Some(Quit)");
    assert_eq!(show(&control(&mut state, 'q')), "Some(Quit)");
    assert!(!state.show_help && state.active_peer.is_none() && state.input.is_empty());
    assert!(press(&mut state, KeyCode::Backspace).is_none());
    type_text(&mut state, "pä/x");
    assert!(press(&mut state, KeyCode::Backspace).is_none());
    assert_eq!(state.input, "pä/");
    assert_eq!(show(&press(&mut state, KeyCode::Enter)), "Some(Unlock(\"pä/\"))");
    assert!(state.input.is_empty() && state.input_history.is_empty() && state.locked);
}

#[test]
fn files_are_cut_into_chunks() {
    assert_eq!(chunk_count(0), 1);
    assert_eq!(chunk_count(1), 1);
    assert_eq!(chunk_count(FILE_CHUNK), 1);
    assert_eq!(chunk_count(FILE_CHUNK + 1), 2);
    let data: Vec<u8> = (0..2 * FILE_CHUNK + 5).map(|i| i as u8).collect();
    assert_eq!(chunk_count(data.len()), 3);
    assert_eq!(chunk_of(&data, 0), &data[..FILE_CHUNK]);
    assert_eq!(chunk_of(&data, 1), &data[FILE_CHUNK..2 * FILE_CHUNK]);
    assert_eq!(chunk_of(&data, 2), &data[2 * FILE_CHUNK..]);
    assert_eq!(chunk_of(&[], 0), &[] as &[u8]);
}

#[test]
fn file_names_lead_nowhere() {
    for (path, name) in [
        ("a.txt", "a.txt"),
        ("/home/me/a b.txt", "a b.txt"),
        ("..\\secret\\b", "b"),
        ("x/y\\z", "z"),
        ("", "file"),
        ("dir/", "file"),
        (".", "file"),
        ("../..", "file"),
        ("...", "..."),
    ] {
        assert_eq!(file_name(path), name);
    }
}

#[test]
fn contacts_on_the_screen_are_taken_out() {
    let left = without_contact(vec![contact("a"), contact("b"), contact("a")], "a");
    assert_eq!(left.len(), 1);
    assert_eq!(left[0].username, "b");
}

#[test]
fn earlier_lines_keep_their_times() {
    let mut state = AppState::new(s("me"));
    state.add_system_message_at("one", s("01:00:00"));
    state.add_system_message_at("two", s("02:00:00"));
    assert_eq!(state.system_messages[0].timestamp, "01:00:00");
    assert_eq!(state.system_messages[1].timestamp, "02:00:00");
    state.add_chat_message_at("bob", "bob", "x", s("03:00:00"));
    state.add_chat_message_at("bob", "me", "y", s("04:00:00"));
    state.active_peer = Some(s("bob"));
    assert_eq!(state.active_messages()[0].timestamp, "03:00:00");
    assert_eq!(state.active_messages()[1].timestamp, "04:00:00");
}

#[test]
fn history_that_was_off_keeps_what_was_saved() {
    let mut first = HistoryStore::new(None, s("pw"), true);
    first.add_at("bob", Direction::Sent, "old", 1);
    let file = first.save().unwrap().unwrap();
    let mut store = HistoryStore::new(Some(file.clone()), s("pw"), false);
    assert!(store.all().is_empty() && store.save().unwrap().is_none());
    store.add_at("bob", Direction::Sent, "not kept", 2);
    store.enable();
    assert_eq!(store.all().len(), 1);
    assert!(!store.needs_saving());
    store.add_at("bob", Direction::Sent, "hi", 3);
    let file = store.save().unwrap().unwrap();
    let again = HistoryStore::new(Some(file), s("pw"), true);
    let contents: Vec<&str> = again.all().iter().map(|e| e.content.as_str()).collect();
    assert_eq!(contents, ["old", "hi"]);
    assert!(store.is_password("pw") && !store.is_password("PW"));
}

#[test]
fn purged_history_is_not_read_again() {
    let mut first = HistoryStore::new(None, s("pw"), true);
    first.add_at("bob", Direction::Sent, "old", 1);
    let file = first.save().unwrap().unwrap();
    let mut store = HistoryStore::new(Some(file), s("pw"), false);
    store.purge();
    store.enable();
    assert!(store.all().is_empty());
    let mut broken = HistoryStore::new(Some(vec![1, 2, 3]), s("pw"), false);
    broken.enable();
    assert!(broken.all().is_empty());
}

#[test]
fn lower_case_is_more_than_latin() {
    assert_eq!(show(&Command::parse("/ÄRGER")), "Unknown(\"Unknown command: /ärger\")");
}

#[test]
fn words_are_interpreted() {
    assert_eq!(show(&Command::interpret("/history", Some(s("ON x")), "on")), "History(true)");
    assert_eq!(
        show(&Command::interpret("/HISTORY", Some(s("on")), "on")),
        "Unknown(\"Unknown command: /HISTORY\")"
    );
}

#[test]
fn help_has_all_lines() {
    let lines = help_text();
    assert_eq!(lines.len(), 30);
    assert_eq!(lines[1], "║              ZEROSUM COMMAND REFERENCE               ║");
    assert!(lines.iter().all(|l| l.chars().count() == 56 || l.contains('⚠')));
    assert!(lines[29].starts_with('╚'));
}

// ── Contacts ────────────────────────────────────────────────

#[test]
fn contacts_are_kept() {
    let mut c = ContactStore::new();
    c.add("bob");
    c.add("eve");
    assert!(c.has("bob") && !c.has("mallory"));
    c.set_alias("bob", "Bobby");
    c.add("bob");
    assert_eq!(c.display_name("bob"), "Bobby");
    assert_eq!(c.display_name("eve"), "eve");
    assert_eq!(c.display_name("mallory"), "mallory");
    let mut names = c.usernames();
    names.sort();
    assert_eq!(names, vec!["bob", "eve"]);
    assert_eq!(c.list().len(), 2);
    assert!(c.remove("bob"));
    assert!(!c.remove("bob"));
    assert!(c.get("bob").is_none());
    c.get_mut("eve").unwrap().verified = true;
    assert!(c.get("eve").unwrap().verified);
    assert!(c.get_mut("bob").is_none());
}

#[test]
fn changed_key_is_not_verified() {
    let mut c = ContactStore::new();
    c.add("bob");
    c.set_identity_key("bob", vec![1]);
    assert!(c.verify("bob"));
    assert!(!c.verify("eve"));
    c.set_identity_key("bob", vec![1]);
    assert!(c.get("bob").unwrap().verified);
    c.set_identity_key("bob", vec![2]);
    assert!(!c.get("bob").unwrap().verified);
    assert_eq!(c.get("bob").unwrap().identity_key, Some(vec![2]));
    c.set_identity_key("eve", vec![3]);
    assert!(!c.has("eve"));
}

#[test]
fn contacts_are_loaded_as_they_were_saved() {
    let mut c = ContactStore::new();
    c.add("bob");
    c.set_identity_key("bob", vec![1, 2]);
    c.verify("bob");
    c.set_alias("bob", "Bö");
    c.add("eve");
    let data = c.save("pw").unwrap();
    let loaded = ContactStore::load(&data, "pw").unwrap();
    assert_eq!(loaded.list().len(), 2);
    let bob = loaded.get("bob").unwrap();
    assert_eq!(bob.identity_key, Some(vec![1, 2]));
    assert!(bob.verified);
    assert_eq!(bob.alias, Some(s("Bö")));
    let eve = loaded.get("eve").unwrap();
    assert_eq!((eve.identity_key.clone(), eve.verified, eve.alias.clone()), (None, false, None));
    assert!(matches!(ContactStore::load(&data, "no"), Err(CryptoError::BlobRejected)));
    assert_eq!(ContactStore::load_or_new(Some(data), "no").list().len(), 0);
    assert_eq!(ContactStore::load_or_new(None, "pw").list().len(), 0);
}

#[test]
fn contacts_have_their_path() {
    assert_eq!(ContactStore::default_path("d"), "d/contacts.enc");
}

// ── History ─────────────────────────────────────────────────

#[test]
fn history_is_opt_in() {
    let mut h = HistoryStore::new(None, s("pw"), false);
    h.add("bob", Direction::Sent, "hi");
    assert!(h.all().is_empty());
    assert!(!h.is_enabled() && !h.needs_saving());
    h.enable();
    h.add_at("bob", Direction::Sent, "hi", 5);
    h.add_at("eve", Direction::Received, "ho", 6);
    h.add("bob", Direction::Received, "hey");
    assert!(h.is_enabled() && h.needs_saving());
    let bob: Vec<&str> = h.get_peer_history("bob").iter().map(|e| e.content.as_str()).collect();
    assert_eq!(bob, vec!["hi", "hey"]);
    assert_eq!(h.all()[0].timestamp, 5);
    assert!(h.all()[2].timestamp > 1_600_000_000);
    h.disable();
    assert!(!h.needs_saving());
    assert_eq!(h.all().len(), 3);
}

#[test]
fn history_is_loaded_as_it_was_saved() {
    let mut h = HistoryStore::new(None, s("pw"), true);
    assert!(h.save().unwrap().is_none());
    h.add_at("bob", Direction::Sent, "hi", 5);
    h.add_at("eve", Direction::Received, "hö", -6);
    let data = h.save().unwrap().unwrap();
    assert!(h.needs_saving());
    h.mark_saved();
    assert!(!h.needs_saving());
    let loaded = HistoryStore::new(Some(data.clone()), s("pw"), true);
    assert_eq!(show(&loaded.all()), show(&h.all()));
    assert_eq!(loaded.all()[1].direction, Direction::Received);
    assert!(HistoryStore::new(Some(data.clone()), s("pw"), false).all().is_empty());
    assert!(HistoryStore::new(Some(data), s("other"), true).all().is_empty());
}

#[test]
fn purged_history_is_empty() {
    let mut h = HistoryStore::new(None, s("pw"), true);
    h.add("bob", Direction::Sent, "hi");
    h.purge();
    assert!(h.all().is_empty() && !h.needs_saving() && h.is_enabled());
    assert_eq!(HistoryStore::default_path("d"), "d/history.enc");
}

// ── Keys ────────────────────────────────────────────────────

#[test]
fn line_is_typed_and_entered() {
    let mut st = AppState::new(s("me"));
    type_text(&mut st, "helo");
    press(&mut st, KeyCode::Left);
    press(&mut st, KeyCode::Char('l'));
    assert_eq!((st.input.as_str(), st.cursor_pos), ("hello", 4));
    let cmd = press(&mut st, KeyCode::Enter).unwrap();
    assert_eq!(show(&cmd), "Message(\"hello\")");
    assert_eq!((st.input.as_str(), st.cursor_pos), ("", 0));
    assert!(press(&mut st, KeyCode::Enter).is_none());
    assert_eq!(st.input_history, vec!["hello"]);
}

#[test]
fn characters_are_removed() {
    let mut st = AppState::new(s("me"));
    type_text(&mut st, "abc");
    press(&mut st, KeyCode::Backspace);
    assert_eq!((st.input.as_str(), st.cursor_pos), ("ab", 2));
    press(&mut st, KeyCode::Delete);
    assert_eq!(st.input, "ab");
    press(&mut st, KeyCode::Home);
    press(&mut st, KeyCode::Backspace);
    press(&mut st, KeyCode::Delete);
    assert_eq!((st.input.as_str(), st.cursor_pos), ("b", 0));
    press(&mut st, KeyCode::End);
    press(&mut st, KeyCode::Right);
    assert_eq!(st.cursor_pos, 1);
}

#[test]
fn backspace_undoes_typing() {
    let mut st = AppState::new(s("me"));
    type_text(&mut st, "ac");
    press(&mut st, KeyCode::Left);
    press(&mut st, KeyCode::Char('b'));
    press(&mut st, KeyCode::Backspace);
    assert_eq!((st.input.as_str(), st.cursor_pos), ("ac", 1));
}

#[test]
fn cursor_inside_a_character_is_noticed() {
    let mut st = AppState::new(s("me"));
    press(&mut st, KeyCode::Char('é'));
    assert_eq!((st.input.as_str(), st.cursor_pos), ("é", 1));
    assert!(!st.accepts(KeyEvent { code: KeyCode::Char('a'), control: false }));
    assert!(!st.accepts(KeyEvent { code: KeyCode::Delete, control: false }));
    press(&mut st, KeyCode::Backspace);
    assert_eq!((st.input.as_str(), st.cursor_pos), ("", 0));
    press(&mut st, KeyCode::Char('é'));
    press(&mut st, KeyCode::End);
    press(&mut st, KeyCode::Char('a'));
    assert_eq!(st.input, "éa");
}

#[test]
fn arrows_walk_through_the_input_history() {
    let mut st = AppState::new(s("me"));
    press(&mut st, KeyCode::Up);
    assert_eq!(st.input_history_idx, None);
    for line in ["one", "two"] {
        type_text(&mut st, line);
        press(&mut st, KeyCode::Enter);
    }
    press(&mut st, KeyCode::Up);
    assert_eq!((st.input.as_str(), st.cursor_pos), ("two", 3));
    press(&mut st, KeyCode::Up);
    press(&mut st, KeyCode::Up);
    assert_eq!(st.input, "one");
    press(&mut st, KeyCode::Down);
    assert_eq!(st.input, "two");
    press(&mut st, KeyCode::Down);
    assert_eq!((st.input.as_str(), st.input_history_idx), ("", None));
    press(&mut st, KeyCode::Down);
    assert_eq!(st.input, "");
}

#[test]
fn tab_cycles_through_contacts() {
    let mut st = AppState::new(s("me"));
    press(&mut st, KeyCode::Tab);
    assert_eq!(st.active_peer, None);
    st.contacts.push(contact("bob"));
    st.contacts.push(contact("eve"));
    st.contacts[1].unread = 3;
    press(&mut st, KeyCode::Tab);
    assert_eq!(st.active_peer, Some(s("bob")));
    press(&mut st, KeyCode::Tab);
    assert_eq!((st.active_peer.clone(), st.selected_contact), (Some(s("eve")), Some(1)));
    assert_eq!(st.contacts[1].unread, 0);
    press(&mut st, KeyCode::Tab);
    assert_eq!(st.active_peer, Some(s("bob")));
    press(&mut st, KeyCode::Esc);
    assert_eq!((st.active_peer.clone(), st.selected_contact), (None, None));
}

#[test]
fn control_keys() {
    let mut st = AppState::new(s("me"));
    assert_eq!(show(&control(&mut st, 'c')), "Some(Quit)");
    assert_eq!(show(&control(&mut st, 'q')), "Some(Quit)");
    assert_eq!(show(&control(&mut st, 'l')), "Some(Clear)");
    assert!(control(&mut st, 'x').is_none());
    assert_eq!(st.input, "x");
}

#[test]
fn help_overlay_is_a_toggle() {
    let mut st = AppState::new(s("me"));
    control(&mut st, 'h');
    assert!(st.show_help);
    press(&mut st, KeyCode::Char('x'));
    assert_eq!(st.input, "");
    assert!(control(&mut st, 'c').is_none());
    press(&mut st, KeyCode::Esc);
    assert!(!st.show_help);
    press(&mut st, KeyCode::F(1));
    assert!(st.show_help);
    press(&mut st, KeyCode::F(1));
    assert!(!st.show_help);
    press(&mut st, KeyCode::F(2));
    press(&mut st, KeyCode::Other);
    assert!(!st.show_help);
}

#[test]
fn messages_count_as_unread() {
    let mut st = AppState::new(s("me"));
    st.contacts.push(contact("bob"));
    st.add_chat_message("bob", "bob", "hi");
    st.add_chat_message_at("bob", "me", "ho", s("12:00:00"));
    assert_eq!(st.contacts[0].unread, 2);
    assert!(st.active_messages().is_empty());
    st.active_peer = Some(s("bob"));
    st.add_chat_message("bob", "bob", "still there?");
    assert_eq!(st.contacts[0].unread, 2);
    assert_eq!(st.active_messages().len(), 3);
    assert_eq!(st.active_messages()[1].timestamp, "12:00:00");
    st.add_chat_message("stranger", "stranger", "x");
    st.active_peer = Some(s("nobody"));
    assert!(st.active_messages().is_empty());
    st.active_peer = None;
    st.add_system_message("note");
    assert_eq!(st.active_messages()[0].sender, "system");
    assert_eq!(st.active_messages()[0].timestamp.len(), 8);
    st.contacts[0].unread = u32::MAX;
    assert!(!st.can_count("bob") && st.can_count("stranger"));
}

// ── Screen ──────────────────────────────────────────────────

#[test]
fn screen_is_laid_out() {
    assert_eq!(sidebar_width(80), 20);
    assert_eq!(sidebar_width(200), 24);
    let a = help_area(100, 40);
    assert_eq!((a.x, a.y, a.width, a.height), (21, 6, 58, 28));
    let a = help_area(20, 3);
    assert_eq!((a.x, a.y, a.width, a.height), (2, 1, 16, 0));
    assert_eq!(cursor_place(10, 5, 7), (20, 6));
}

#[test]
fn screen_shows_contacts() {
    let mut st = AppState::new(s("me"));
    st.contacts.push(contact("bob"));
    st.contacts.push(ContactDisplay {
        username: s("eve"),
        alias: Some(s("Eva")),
        online: true,
        verified: true,
        unread: 12,
    });
    let rows = draw_sidebar(&st);
    assert_eq!((rows[0].status.as_str(), rows[0].name.as_str()), ("○ ", " bob"));
    assert_eq!(rows[0].unread, "");
    assert_eq!((rows[1].status.as_str(), rows[1].name.as_str()), ("● ", "✓Eva"));
    assert_eq!(rows[1].unread, " (12)");
    assert_eq!(sidebar_title(&st), " me ");
}

#[test]
fn screen_shows_the_header() {
    let mut st = AppState::new(s("me"));
    assert_eq!(draw_header(&st), (s("⛓ "), s(" system log ")));
    st.connected = true;
    st.active_peer = Some(s("bob"));
    assert_eq!(draw_header(&st), (s("🔗 "), s(" chatting with: bob ")));
    st.contacts.push(contact("bob"));
    assert_eq!(draw_header(&st).1, " chatting with: bob ⚠unverified ");
    st.contacts[0].verified = true;
    assert_eq!(draw_header(&st).1, " chatting with: bob ✓verified ");
}

#[test]
fn screen_shows_messages() {
    let mut st = AppState::new(s("me"));
    st.add_system_message_at("note", s("01:02:03"));
    let rows = draw_messages(&st);
    assert_eq!((rows[0].time.as_str(), rows[0].sender.as_str()), ("[01:02:03] ", ""));
    assert_eq!((rows[0].content.as_str(), rows[0].origin), ("note", Origin::System));
    st.add_chat_message_at("bob", "me", "hi", s("a"));
    st.add_chat_message_at("bob", "bob", "ho", s("b"));
    st.active_peer = Some(s("bob"));
    let rows = draw_messages(&st);
    assert_eq!((rows[0].sender.as_str(), rows[0].origin), ("me: ", Origin::Own));
    assert_eq!((rows[1].sender.as_str(), rows[1].origin), ("bob: ", Origin::Other));
    assert_eq!(input_title(&st), " input ");
    st.history_enabled = true;
    assert_eq!(input_title(&st), " input [history:on] ");
}

// ── Network ─────────────────────────────────────────────────

#[test]
fn server_messages_become_events() {
    let event = |m: ServerMessage| show(&handle_server_message(m));
    assert_eq!(event(ServerMessage::RegisterAck { ok: true, error: None }), "Some(RegisterOk)");
    assert_eq!(
        event(ServerMessage::RegisterAck { ok: false, error: None }),
        "Some(RegisterFail(\"\"))"
    );
    assert_eq!(
        event(ServerMessage::LoginAck { ok: false, error: Some(s("no")) }),
        "Some(LoginFail(\"no\"))"
    );
    assert_eq!(event(ServerMessage::LoginAck { ok: true, error: None }), "Some(LoginOk)");
    assert_eq!(
        event(ServerMessage::HeartbeatAck { pending_messages: 3 }),
        "Some(HeartbeatAck { pending: 3 })"
    );
    assert_eq!(
        event(ServerMessage::BundleError { username: s("a"), error: s("b") }),
        "Some(BundleError(\"a\", \"b\"))"
    );
    assert_eq!(event(ServerMessage::SendAck { ok: true, error: None }), "Some(MessageSent)");
    assert_eq!(
        event(ServerMessage::SendAck { ok: false, error: Some(s("x")) }),
        "Some(SendFail(\"x\"))"
    );
    assert_eq!(
        event(ServerMessage::RefillAck { ok: true, count: 70 }),
        "Some(SystemMessage(\"Prekey refill: ok=true, count=70\"))"
    );
    assert_eq!(
        event(ServerMessage::Error { message: s("bad") }),
        "Some(Error(\"bad\"))"
    );
    assert_eq!(event(ServerMessage::GoodbyeAck), "None");
    assert_eq!(event(ServerMessage::HelloAck { version: 3, ok: true }), "None");
    assert_eq!(event(ServerMessage::PresenceUpdate { username: s("a"), online: true }), "None");
    assert_eq!(
        event(ServerMessage::IncomingMessage {
            from: s("bob"),
            ciphertext: vec![1],
            nonce: vec![2],
            server_timestamp: 9
        }),
        "Some(MessageReceived { from: \"bob\", ciphertext: [1], nonce: [2], timestamp: 9 })"
    );
    assert_eq!(
        event(ServerMessage::IncomingFile {
            from: s("bob"),
            filename: s("f"),
            chunk_index: 1,
            total_chunks: 2,
            ciphertext: vec![3],
            nonce: vec![4],
            server_timestamp: 9
        }),
        "Some(FileReceived { from: \"bob\", filename: \"f\", chunk_index: 1, total_chunks: 2, \
         data: [3], nonce: [4], timestamp: 9 })"
    );
    assert_eq!(
        event(ServerMessage::ChatRequestRejected { from: s("bob") }),
        "Some(ChatRequestRejected { from: \"bob\" })"
    );
}

#[test]
fn commands_become_messages() {
    assert!(matches!(
        handle_command(NetCommand::FetchBundle { target: s("bob") }),
        ClientMessage::FetchBundle { target_username } if target_username == "bob"
    ));
    assert!(matches!(handle_command(NetCommand::Heartbeat), ClientMessage::Heartbeat));
    assert!(matches!(handle_command(NetCommand::Disconnect), ClientMessage::Goodbye));
    assert!(matches!(
        handle_command(NetCommand::SendMessage { to: s("b"), ciphertext: vec![1], nonce: vec![2] }),
        ClientMessage::SendMessage { to, ciphertext, nonce }
            if to == "b" && ciphertext == vec![1] && nonce == vec![2]
    ));
}

#[test]
fn link_goes_through_its_stages() {
    let link = Link { server_addr: s("x.onion"), use_tor: true };
    let (event, action) = link.step(LinkEvent::Start);
    assert_eq!(show(&event), "Some(SystemMessage(\"Connecting to x.onion...\"))");
    assert_eq!(action, LinkAction::Connect);
    let (event, action) = link.step(LinkEvent::ConnectFailed { error: s("no route") });
    assert_eq!(show(&event), "Some(Disconnected(\"Tor connection failed: no route\"))");
    assert_eq!(action, LinkAction::Retry { seconds: 5 });
    let (event, action) = link.step(LinkEvent::Connected);
    assert_eq!((show(&event).as_str(), action), ("Some(Connected)", LinkAction::SendHello));
    assert!(matches!(link.hello(), ClientMessage::Hello { version: 3 }));
    let (event, action) = link.step(LinkEvent::HelloSent);
    assert!(event.is_none() && action == LinkAction::AwaitAnswer);
    let answer = Some(ServerMessage::HelloAck { version: 3, ok: true });
    let (event, action) = link.step(LinkEvent::HelloAnswered { answer });
    assert!(event.is_none() && action == LinkAction::RunMessageLoop);
    let (event, action) = link.step(LinkEvent::Ended { error: Some(s("gone")) });
    assert_eq!(show(&event), "Some(Disconnected(\"Connection lost: gone\"))");
    assert_eq!(action, LinkAction::Retry { seconds: 3 });
    let (event, _) = link.step(LinkEvent::Ended { error: None });
    assert!(event.is_none());
}

#[test]
fn link_fails_in_its_ways() {
    let link = Link { server_addr: s("h:1"), use_tor: false };
    let (event, _) = link.step(LinkEvent::ConnectFailed { error: s("e") });
    assert_eq!(show(&event), "Some(Disconnected(\"Connection failed: e\"))");
    let (event, action) = link.step(LinkEvent::HelloFailed { error: s("e") });
    assert_eq!(show(&event), "Some(Disconnected(\"Handshake failed: e\"))");
    assert_eq!(action, LinkAction::Retry { seconds: 0 });
    let answer = Some(ServerMessage::HelloAck { version: 4, ok: false });
    let (event, action) = link.step(LinkEvent::HelloAnswered { answer });
    assert_eq!(show(&event), "Some(Disconnected(\"Version mismatch (server: 4)\"))");
    assert_eq!(action, LinkAction::GiveUp);
    for answer in [None, Some(ServerMessage::GoodbyeAck)] {
        let (event, action) = link.step(LinkEvent::HelloAnswered { answer });
        assert_eq!(show(&event), "Some(Disconnected(\"Bad handshake\"))");
        assert_eq!(action, LinkAction::Retry { seconds: 0 });
    }
}

#[test]
fn message_loop_decides() {
    assert_eq!(
        show(&on_frame(Err(ProtoError::ConnectionClosed))),
        "Fail { error: \"Server closed connection\" }"
    );
    assert_eq!(
        show(&on_frame(Err(ProtoError::Io(s("x"))))),
        "Fail { error: \"Read error: IO error: x\" }"
    );
    assert_eq!(show(&on_frame(Ok(ServerMessage::GoodbyeAck))), "Tell { event: None }");
    assert!(matches!(on_command(None), LoopAction::SayGoodbye));
    assert!(matches!(on_command(Some(NetCommand::Disconnect)), LoopAction::SayGoodbye));
    assert!(matches!(
        on_command(Some(NetCommand::Heartbeat)),
        LoopAction::Write { message: ClientMessage::Heartbeat }
    ));
}

#[test]
fn heartbeats_are_half_a_minute_apart_more_or_less() {
    assert_eq!(heartbeat_delay_for(0), 25_000);
    assert_eq!(heartbeat_delay_for(10_000), 35_000);
    assert_eq!(heartbeat_delay_for(10_001), 25_000);
    let d = heartbeat_delay();
    assert!((25_000..=35_000).contains(&d));
}

#[test]
fn addresses_are_split() {
    assert_eq!(split_address("abc.onion"), (s("abc.onion"), 80));
    assert_eq!(split_address("abc.onion:8080"), (s("abc.onion"), 8080));
    assert_eq!(split_address("a:b:12"), (s("a:b"), 12));
    assert_eq!(split_address("host:"), (s("host"), 80));
    assert_eq!(split_address("host:+7"), (s("host"), 7));
    assert_eq!(split_address("host:65535"), (s("host"), 65535));
    assert_eq!(split_address("host:65536"), (s("host"), 80));
    assert_eq!(split_address("host:1x"), (s("host"), 80));
    assert!(use_tor(false, "abc.onion:80"));
    assert!(!use_tor(true, "abc.onion"));
    assert!(!use_tor(false, "127.0.0.1:18080"));
}

// ── Tor, wiping, stealth ────────────────────────────────────

#[test]
fn onion_addresses_have_their_ending() {
    assert_eq!(onion_address(Some(s("abc"))), "abc.onion");
    assert_eq!(onion_address(Some(s("abc.onion"))), "abc.onion");
    assert_eq!(onion_address(None), "unknown.onion");
    assert_eq!(host_with_port("abc.onion", 80), "abc.onion:80");
}

#[test]
fn tor_keeps_its_state_in_the_data_directory() {
    let c = TorConnection::new("/d");
    assert_eq!((c.state_dir.as_str(), c.cache_dir.as_str()), ("/d/tor_client_state", "/d/tor_client_cache"));
    let c = TorServiceConfig::default();
    assert_eq!((c.state_dir.as_str(), c.local_port, c.hs_port), ("zerosum_tor_state", 18080, 80));
    let c = TorServiceConfig::for_server("/d", 9);
    assert_eq!((c.state_dir.as_str(), c.cache_dir.as_str()), ("/d/tor_state", "/d/tor_cache"));
    assert_eq!((c.local_port, c.hs_port), (9, 80));
}

#[test]
fn files_are_overwritten() {
    assert_eq!(secure_delete(0), vec![]);
    assert_eq!(secure_delete(1), vec![Pass::Random, Pass::Zeros, Pass::Ones]);
    assert_eq!(purge_passes(), vec![Pass::Random, Pass::Zeros]);
    assert_eq!(pass_bytes(Pass::Zeros, 3), vec![0, 0, 0]);
    assert_eq!(pass_bytes(Pass::Ones, 2), vec![255, 255]);
    assert_eq!(pass_bytes(Pass::Random, 100).len(), 100);
    assert_ne!(pass_bytes(Pass::Random, 100), pass_bytes(Pass::Random, 100));
}

#[test]
fn panic_destroys_known_files_first() {
    let targets = execute_panic("/d");
    assert_eq!(targets.len(), 9);
    assert_eq!(targets[0], "/d/identity.enc");
    assert_eq!(targets[8], "/d/tor_client_cache");
    assert_eq!(purge_history("/d", true), Some(s("/d/history.enc")));
    assert_eq!(purge_history("/d", false), None);
}

#[test]
fn stealth_is_reported() {
    let m = Measures::Linux {
        rename: None,
        core_dumps: Some(s("setrlimit returned -1")),
        non_dumpable: None,
    };
    let r = apply_stealth(&m);
    assert_eq!(
        r,
        vec![
            "✓ Process renamed (prctl)",
            "✗ Core dump disable failed: setrlimit returned -1",
            "✓ Process marked non-dumpable"
        ]
    );
    assert!(is_success(&r[0]) && !is_success(&r[1]));
    assert_eq!(apply_stealth(&Measures::Windows { rename: None }), vec!["✓ Window title renamed"]);
    assert_eq!(apply_stealth(&Measures::Android).len(), 1);
    assert_eq!(
        apply_stealth(&Measures::Other),
        vec!["⚠ No stealth measures available on this platform"]
    );
}

#[test]
fn events_can_be_cloned() {
    let e: NetEvent = NetEvent::SystemMessage(s("x"));
    assert_eq!(show(&e.clone()), "SystemMessage(\"x\")");
}
