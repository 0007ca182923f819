use zerosum::client::commands::Command;
use zerosum::client::contacts::ContactStore;
use zerosum::client::files::FILE_CHUNK;
use zerosum::client::history::{Direction, HistoryStore};
use zerosum::client::network::{handle_command, handle_server_message, NetCommand, NetEvent};
use zerosum::client::session::{Action, Client, Then};
use zerosum::crypto::identity::Identity;
use zerosum::crypto::ratchet::SessionRatchet;
use zerosum::crypto::store::SessionStore;
use zerosum::protocol::message::{ClientMessage, ServerMessage};
use zerosum::textmap::TextMap;

fn s(t: &str) -> String {
    t.to_string()
}

fn show<T: std::fmt::Debug>(t: &T) -> String {
    format!("{:?}", t)
}

fn client(name: &str, history: bool) -> Client {
    Client::start(
        s(name),
        Identity::generate(3),
        SessionStore::new(),
        ContactStore::new(),
        HistoryStore::new(None, s("pw"), history),
        history,
    )
}

/// The last line of the system log.
fn last(c: &Client) -> &str {
    c.state.system_messages.last().unwrap().content.as_str()
}

fn run(c: &mut Client, cmd: Command) -> Action {
    assert!(c.can_handle(&cmd));
    c.handle_command(cmd)
}

fn tell(c: &mut Client, event: NetEvent) -> Action {
    assert!(c.can_take(&event));
    c.handle_net_event(event)
}

/// What was to be sent; what follows is completed.
fn sent(c: &mut Client, action: Action) -> NetCommand {
    match action {
        Action::Send { command, then } => {
            c.complete(then);
            command
        }
        other => panic!("nothing sent: {:?}", other),
    }
}

/// The keys that the server hands out for a client.
fn bundle(c: &Client, name: &str, otpk: Option<u32>) -> NetEvent {
    NetEvent::BundleReceived {
        username: s(name),
        identity_public_key: c.identity.identity_public_key(),
        signed_prekey: c.identity.spk_public().as_bytes().to_vec(),
        signed_prekey_signature: c.identity.sign_spk(),
        one_time_prekey: otpk.map(|i| c.identity.otpk_publics()[i as usize].clone()),
        otpk_index: otpk,
    }
}

/// Two clients that have just connected.
fn connected(otpk: Option<u32>) -> (Client, Client) {
    let mut alice = client("alice", true);
    let mut bob = client("bob", true);
    let action = run(&mut alice, Command::Request(s("bob")));
    assert_eq!(last(&alice), "Sending chat request to bob...");
    assert!(matches!(sent(&mut alice, action), NetCommand::FetchBundle { target } if target == "bob"));
    let b = bundle(&bob, "bob", otpk);
    let action = tell(&mut alice, b);
    let request = match handle_command(sent(&mut alice, action)) {
        ClientMessage::ChatRequest { to, identity_public_key, ephemeral_pub, otpk_index } => {
            assert_eq!(to, "bob");
            ServerMessage::IncomingChatRequest {
                from: s("alice"),
                identity_public_key,
                ephemeral_pub,
                otpk_index,
            }
        }
        other => panic!("no request: {:?}", other),
    };
    assert_eq!(last(&alice), "📤 Chat request sent to bob. Waiting for them to accept...");
    tell(&mut bob, handle_server_message(request).unwrap());
    assert!(bob.pending.contains_key("alice"));
    let action = run(&mut bob, Command::Accept(s("alice")));
    assert!(matches!(sent(&mut bob, action), NetCommand::ChatAccept { to } if to == "alice"));
    assert_eq!(last(&bob), "  Use /select alice to start chatting.");
    assert!(!bob.pending.contains_key("alice"));
    let key = bob.identity.identity_public_key();
    tell(
        &mut alice,
        NetEvent::ChatRequestAccepted { from: s("bob"), identity_public_key: key },
    );
    (alice, bob)
}

fn relay(from: &str, command: NetCommand) -> NetEvent {
    match handle_command(command) {
        ClientMessage::SendMessage { ciphertext, nonce, .. } => {
            handle_server_message(ServerMessage::IncomingMessage {
                from: s(from),
                ciphertext,
                nonce,
                server_timestamp: 1,
            })
            .unwrap()
        }
        other => panic!("no message: {:?}", other),
    }
}

#[test]
fn start_shows_contacts_and_welcome() {
    let mut contacts = ContactStore::new();
    contacts.add("bob");
    contacts.verify("bob");
    contacts.set_alias("bob", "Bobby");
    let c = Client::start(
        s("me"),
        Identity::generate(1),
        SessionStore::new(),
        contacts,
        HistoryStore::new(None, s("pw"), false),
        true,
    );
    assert_eq!(c.state.contacts.len(), 1);
    assert_eq!(c.state.contacts[0].alias, Some(s("Bobby")));
    assert!(c.state.contacts[0].verified && !c.state.contacts[0].online);
    assert!(c.state.history_enabled);
    assert_eq!(
        c.state.system_messages[0].content,
        "Welcome to ZeroSum v2. Type /help for commands."
    );
    assert_eq!(last(&c), "Use /request <username> to start chatting with someone.");
}

#[test]
fn new_client_registers_and_known_one_logs_in() {
    let c = client("me", false);
    match c.sign_in(true, "hunter2") {
        NetCommand::Register { username, password_hash, one_time_prekeys, .. } => {
            assert_eq!(username, "me");
            assert_eq!(password_hash.len(), 32);
            assert_eq!(one_time_prekeys, c.identity.otpk_publics());
        }
        other => panic!("no registration: {:?}", other),
    }
    assert!(matches!(c.sign_in(false, "hunter2"), NetCommand::Login { username, .. } if username == "me"));
}

#[test]
fn conversation_in_both_directions() {
    for otpk in [None, Some(0), Some(2)] {
        let (mut alice, mut bob) = connected(otpk);
        run(&mut alice, Command::Select(s("bob")));
        run(&mut bob, Command::Select(s("alice")));
        for (text, answer) in [("hello", "hi"), ("wie geht's? – gut", "👍")] {
            let action = run(&mut alice, Command::Message(s(text)));
            let command = sent(&mut alice, action);
            tell(&mut bob, relay("alice", command));
            assert_eq!(bob.state.active_messages().last().unwrap().content, text);
            let action = run(&mut bob, Command::Message(s(answer)));
            let command = sent(&mut bob, action);
            tell(&mut alice, relay("bob", command));
            assert_eq!(alice.state.active_messages().last().unwrap().content, answer);
        }
        assert_eq!(alice.state.active_messages().len(), 4);
        assert_eq!(alice.history.all().len(), 4);
        assert_eq!(alice.history.all()[0].direction, Direction::Sent);
        assert_eq!(bob.history.all()[0].direction, Direction::Received);
        assert_eq!(bob.history.all()[0].content, "hello");
    }
}

#[test]
fn texts_of_every_length_arrive() {
    let (mut alice, mut bob) = connected(None);
    run(&mut alice, Command::Select(s("bob")));
    run(&mut bob, Command::Select(s("alice")));
    for len in [1usize, 507, 508, 509, 510, 511, 512, 513, 1021, 2000] {
        let text = "x".repeat(len);
        let action = run(&mut alice, Command::Message(text.clone()));
        let command = sent(&mut alice, action);
        tell(&mut bob, relay("alice", command));
        assert_eq!(bob.state.active_messages().last().unwrap().content, text);
    }
}

#[test]
fn nothing_is_recorded_before_it_is_sent() {
    let (mut alice, _) = connected(None);
    run(&mut alice, Command::Select(s("bob")));
    let action = run(&mut alice, Command::Message(s("hello")));
    assert!(alice.state.active_messages().is_empty());
    assert!(alice.history.all().is_empty());
    match action {
        Action::Send { command: NetCommand::SendMessage { to, nonce, .. }, then } => {
            assert_eq!((to.as_str(), nonce.len()), ("bob", 24));
            alice.complete_at(then, 99);
        }
        other => panic!("nothing sent: {:?}", other),
    }
    assert_eq!(alice.history.all()[0].timestamp, 99);
    assert_eq!(alice.state.active_messages()[0].sender, "alice");
}

#[test]
fn messages_need_a_chat_and_a_session() {
    let mut c = client("me", false);
    let before = c.state.system_messages.len();
    assert!(matches!(run(&mut c, Command::Message(s(""))), Action::Nothing));
    assert_eq!(c.state.system_messages.len(), before);
    run(&mut c, Command::Message(s("x")));
    assert_eq!(last(&c), "No contact selected. Use /select <username>");
    c.state.active_peer = Some(s("bob"));
    run(&mut c, Command::Message(s("x")));
    assert_eq!(last(&c), "No session with bob. Use /request bob first.");
    tell(
        &mut c,
        NetEvent::MessageReceived { from: s("bob"), ciphertext: vec![], nonce: vec![], timestamp: 0 },
    );
    assert_eq!(last(&c), "Message from bob but no session. They may need to /request you.");
}

#[test]
fn unreadable_messages_are_reported() {
    let (mut alice, _) = connected(None);
    tell(
        &mut alice,
        NetEvent::MessageReceived { from: s("bob"), ciphertext: vec![1], nonce: vec![0; 24], timestamp: 0 },
    );
    assert_eq!(
        last(&alice),
        "⚠ Decrypt failed from bob: Ratchet decryption failed — session may be out of sync"
    );
    tell(
        &mut alice,
        NetEvent::MessageReceived { from: s("bob"), ciphertext: vec![1], nonce: vec![0], timestamp: 0 },
    );
    assert_eq!(last(&alice), "⚠ Decrypt failed from bob: Invalid nonce length");
}

#[test]
fn requests_are_listed_accepted_and_rejected() {
    let mut c = client("me", false);
    run(&mut c, Command::Requests);
    assert_eq!(last(&c), "  No pending requests.");
    tell(
        &mut c,
        NetEvent::IncomingChatRequest {
            from: s("bob"),
            identity_public_key: vec![1],
            ephemeral_pub: vec![2],
            otpk_index: Some(9),
        },
    );
    let n = c.state.system_messages.len();
    assert_eq!(c.state.system_messages[n - 3].content, "📩 Chat request from: bob");
    assert_eq!(c.state.system_messages[n - 2].content, "   Type /accept bob or /reject bob");
    assert_eq!(last(&c), "");
    run(&mut c, Command::Requests);
    assert_eq!(last(&c), "  📩 bob — /accept bob or /reject bob");
    let action = run(&mut c, Command::Reject(s("bob")));
    assert!(matches!(sent(&mut c, action), NetCommand::ChatReject { to } if to == "bob"));
    assert_eq!(last(&c), "Rejected chat request from bob.");
    run(&mut c, Command::Reject(s("bob")));
    assert_eq!(last(&c), "No pending request from bob.");
    run(&mut c, Command::Accept(s("bob")));
    assert_eq!(last(&c), "No pending request from bob. Use /requests to see pending.");
    assert!(!c.sessions.has_session("bob"));
}

#[test]
fn rejected_request_removes_the_session() {
    let mut alice = client("alice", false);
    let bob = client("bob", false);
    let b = bundle(&bob, "bob", Some(1));
    tell(&mut alice, b);
    assert!(alice.sessions.has_session("bob"));
    tell(&mut alice, NetEvent::ChatRequestRejected { from: s("bob") });
    assert!(!alice.sessions.has_session("bob"));
    assert_eq!(last(&alice), "✗ bob rejected your chat request.");
}

#[test]
fn contact_is_verified_and_loses_it_with_a_new_key() {
    let (mut alice, bob) = connected(None);
    run(&mut alice, Command::Verify(None));
    assert_eq!(last(&alice), "Usage: /verify <username>");
    run(&mut alice, Command::Verify(Some(s("bob"))));
    assert_eq!(last(&alice), "Compare this over a separate channel (voice, in person).");
    assert!(!alice.contacts.get("bob").unwrap().verified);
    assert!(!alice.state.contacts[0].verified);
    let n = alice.state.system_messages.len();
    let number = alice.state.system_messages[n - 2].content.clone();
    alice.confirm(s("bob"));
    assert_eq!(last(&alice), "✓ bob is verified.");
    assert!(alice.contacts.get("bob").unwrap().verified);
    assert!(alice.state.contacts[0].verified);
    let mut bob = bob;
    run(&mut bob, Command::Verify(Some(s("alice"))));
    let n = bob.state.system_messages.len();
    assert_eq!(
        number.replace("with bob", "with alice"),
        bob.state.system_messages[n - 2].content
    );
    tell(
        &mut alice,
        NetEvent::ChatRequestAccepted { from: s("bob"), identity_public_key: vec![9] },
    );
    assert!(!alice.contacts.get("bob").unwrap().verified);
    run(&mut alice, Command::Verify(Some(s("eve"))));
    assert_eq!(last(&alice), "Contact not found: eve");
    alice.contacts.add("eve");
    run(&mut alice, Command::Verify(Some(s("eve"))));
    assert_eq!(last(&alice), "No key known for eve.");
    alice.confirm(s("eve"));
    assert_eq!(last(&alice), "No key known for eve.");
    assert!(!alice.contacts.get("eve").unwrap().verified);
    alice.confirm(s("mallory"));
    assert_eq!(last(&alice), "Contact not found: mallory");
}

#[test]
fn unsigned_prekeys_are_refused() {
    let mut alice = client("alice", false);
    let bob = client("bob", false);
    let eve = client("eve", false);
    let good = bob.identity.sign_spk();
    let mut bent = good.clone();
    bent[5] ^= 1;
    for signature in [vec![], good[..63].to_vec(), vec![0; 64], bent, eve.identity.sign_spk()] {
        let event = NetEvent::BundleReceived {
            username: s("bob"),
            identity_public_key: bob.identity.identity_public_key(),
            signed_prekey: bob.identity.spk_public().as_bytes().to_vec(),
            signed_prekey_signature: signature,
            one_time_prekey: None,
            otpk_index: None,
        };
        assert!(matches!(tell(&mut alice, event), Action::Nothing));
        assert!(!alice.sessions.has_session("bob"));
        assert_eq!(
            last(&alice),
            "Key exchange failed with bob: Invalid signature of the signed prekey"
        );
    }
    let event = NetEvent::BundleReceived {
        username: s("bob"),
        identity_public_key: vec![1, 2, 3],
        signed_prekey: bob.identity.spk_public().as_bytes().to_vec(),
        signed_prekey_signature: good,
        one_time_prekey: None,
        otpk_index: None,
    };
    assert!(matches!(tell(&mut alice, event), Action::Nothing));
    let b = bundle(&bob, "bob", None);
    assert!(matches!(tell(&mut alice, b), Action::Send { .. }));
    assert!(alice.sessions.has_session("bob"));
}

#[test]
fn contacts_are_removed() {
    let (mut alice, _) = connected(None);
    alice.contacts.add("eve");
    alice.state.contacts.push(alice.state.contacts[0].clone());
    alice.state.contacts[1].username = s("eve");
    run(&mut alice, Command::Select(s("eve")));
    assert_eq!(alice.state.selected_contact, Some(1));
    run(&mut alice, Command::Remove(s("bob")));
    assert_eq!(last(&alice), "Removed contact: bob");
    assert!(!alice.contacts.has("bob") && alice.contacts.has("eve"));
    assert_eq!(alice.state.contacts.len(), 1);
    assert_eq!(alice.state.contacts[0].username, "eve");
    assert_eq!((alice.state.selected_contact, alice.state.active_peer.clone()), (Some(0), Some(s("eve"))));
    run(&mut alice, Command::Remove(s("eve")));
    assert_eq!((alice.state.selected_contact, alice.state.active_peer.clone()), (None, None));
    run(&mut alice, Command::Remove(s("eve")));
    assert_eq!(last(&alice), "Contact not found: eve");
}

#[test]
fn files_arrive_and_the_chat_goes_on() {
    let (mut alice, mut bob) = connected(None);
    assert!(matches!(run(&mut alice, Command::File(s("a"))), Action::Nothing));
    assert_eq!(last(&alice), "No contact selected. Use /select <username>");
    run(&mut alice, Command::Select(s("bob")));
    run(&mut bob, Command::Select(s("alice")));
    for len in [0usize, 1, 509, FILE_CHUNK, 2 * FILE_CHUNK + 7] {
        let data: Vec<u8> = (0..len).map(|i| (i * 7) as u8).collect();
        let (peer, path) = match run(&mut alice, Command::File(s("/home/alice/x.bin"))) {
            Action::ReadFile { peer, path } => (peer, path),
            other => panic!("no file asked for: {:?}", other),
        };
        assert_eq!((peer.as_str(), path.as_str()), ("bob", "/home/alice/x.bin"));
        let (commands, then) = alice.send_file(peer, &path, &data);
        let total = commands.len();
        assert_eq!(total, if len > FILE_CHUNK { 3 } else { 1 });
        let mut got: Vec<u8> = Vec::new();
        for (i, command) in commands.into_iter().enumerate() {
            let event = match handle_command(command) {
                ClientMessage::SendFile { to, filename, chunk_index, total_chunks, ciphertext, nonce } => {
                    assert_eq!((to.as_str(), total_chunks as usize), ("bob", total));
                    assert_eq!(ciphertext.len() % 512, 16);
                    handle_server_message(ServerMessage::IncomingFile {
                        from: s("alice"),
                        filename,
                        chunk_index,
                        total_chunks,
                        ciphertext,
                        nonce,
                        server_timestamp: 1,
                    })
                    .unwrap()
                }
                other => panic!("no chunk: {:?}", other),
            };
            match tell(&mut bob, event) {
                Action::SaveChunk { filename, chunk_index, data } => {
                    assert_eq!((filename.as_str(), chunk_index as usize), ("x.bin", i));
                    got.extend(data);
                }
                other => panic!("nothing saved: {:?}", other),
            }
            assert_eq!(last(&bob), format!("File from alice: x.bin ({}/{})", i + 1, total));
        }
        assert_eq!(got, data);
        alice.complete(then);
        assert_eq!(last(&alice), "File sent to bob: x.bin");
        let action = run(&mut alice, Command::Message(s("got it?")));
        let command = sent(&mut alice, action);
        tell(&mut bob, relay("alice", command));
        assert_eq!(bob.state.active_messages().last().unwrap().content, "got it?");
    }
}

#[test]
fn files_need_a_session_that_can_count_them() {
    let (mut alice, mut bob) = connected(None);
    let (commands, _) = alice.send_file(s("eve"), "a", b"x");
    assert!(commands.is_empty());
    assert_eq!(last(&alice), "No session with eve. Use /request eve first.");
    alice.sessions.get_session_mut("bob").unwrap().send_chain.counter = u32::MAX;
    let (commands, _) = alice.send_file(s("bob"), "dir/a", b"x");
    assert!(commands.is_empty());
    assert_eq!(last(&alice), "File too large: a");
    let event = NetEvent::FileReceived {
        from: s("alice"),
        filename: s("a"),
        chunk_index: 0,
        total_chunks: 1,
        data: vec![1, 2, 3],
        nonce: vec![0; 24],
        timestamp: 0,
    };
    assert!(matches!(tell(&mut bob, event), Action::Nothing));
    assert!(last(&bob).starts_with("⚠ Decrypt failed from alice: "));
}

#[test]
fn screen_is_locked_until_the_password_comes() {
    let mut c = client("me", false);
    c.state.input = s("half a line");
    run(&mut c, Command::Lock);
    assert!(c.state.locked && c.state.input.is_empty());
    assert_eq!(last(&c), "Screen locked.");
    run(&mut c, Command::Unlock(s("guess")));
    assert!(c.state.locked);
    assert_eq!(last(&c), "Wrong password.");
    run(&mut c, Command::Unlock(s("pw")));
    assert!(!c.state.locked);
    assert_eq!(last(&c), "Screen unlocked.");
}

#[test]
fn chats_are_selected_named_and_cleared() {
    let (mut alice, _) = connected(None);
    alice.state.contacts[0].unread = 4;
    run(&mut alice, Command::Select(s("eve")));
    assert_eq!(last(&alice), "eve is not a contact. Use /request eve first.");
    run(&mut alice, Command::Select(s("bob")));
    assert_eq!(alice.state.active_peer, Some(s("bob")));
    assert_eq!((alice.state.selected_contact, alice.state.contacts[0].unread), (Some(0), 0));
    run(&mut alice, Command::Alias(s("bob"), s("Bobby")));
    assert_eq!(last(&alice), "Alias: bob → Bobby");
    assert_eq!(alice.contacts.display_name("bob"), "Bobby");
    run(&mut alice, Command::Contacts);
    assert_eq!(last(&alice), "  ● ✗ Bobby");
    alice.state.add_chat_message("bob", "bob", "x");
    run(&mut alice, Command::Clear);
    assert!(alice.state.active_messages().is_empty());
    alice.state.active_peer = None;
    run(&mut alice, Command::Clear);
    assert!(alice.state.system_messages.is_empty());
}

#[test]
fn small_commands() {
    let mut c = client("me", false);
    run(&mut c, Command::Contacts);
    assert_eq!(last(&c), "  No contacts. Use /request <username>");
    run(&mut c, Command::Status);
    assert_eq!(last(&c), "Connected: false | Sessions: 0 | Pending: 0");
    run(&mut c, Command::History(true));
    assert!(c.history.is_enabled() && c.state.history_enabled);
    assert_eq!(last(&c), "History ON.");
    run(&mut c, Command::History(false));
    assert_eq!(last(&c), "History OFF.");
    assert!(matches!(run(&mut c, Command::Purge), Action::PurgeHistory));
    assert_eq!(last(&c), "History purged.");
    run(&mut c, Command::Reconnect);
    assert_eq!(last(&c), "Auto-reconnecting...");
    run(&mut c, Command::Unknown(s("Usage: x")));
    assert_eq!(last(&c), "Usage: x");
    run(&mut c, Command::Help);
    assert!(c.state.show_help);
    run(&mut c, Command::Quit);
    assert!(c.state.should_quit);
}

#[test]
fn panic_ends_everything() {
    let mut c = client("me", true);
    c.history.add("bob", Direction::Sent, "secret");
    c.sessions.put_session(s("bob"), SessionRatchet::new(&[7u8; 32], true));
    c.contacts.add("bob");
    c.state.add_chat_message("bob", "bob", "x");
    tell(
        &mut c,
        NetEvent::IncomingChatRequest {
            from: s("eve"),
            identity_public_key: vec![1],
            ephemeral_pub: vec![2],
            otpk_index: None,
        },
    );
    tell(&mut c, NetEvent::ChatRequestAccepted { from: s("bob"), identity_public_key: vec![3] });
    assert!(matches!(run(&mut c, Command::Panic), Action::Panic));
    assert!(c.contacts.usernames().is_empty() && c.pending.len() == 0);
    assert!(c.state.contacts.is_empty() && c.state.messages.len() == 0);
    assert_eq!(c.state.system_messages.len(), 1);
    assert!(c.history.all().is_empty() && c.state.should_quit);
    assert_eq!(last(&c), "!!! PANIC !!!");
    assert!(c.sessions.peers().is_empty());
}

#[test]
fn events_are_logged() {
    let mut c = client("me", false);
    for (event, line) in [
        (NetEvent::Connected, "Connected to server."),
        (NetEvent::Disconnected(s("gone")), "Disconnected: gone"),
        (NetEvent::RegisterOk, "✓ Registered successfully!"),
        (NetEvent::RegisterFail(s("no")), "Registration failed: no"),
        (NetEvent::LoginOk, "✓ Logged in!"),
        (NetEvent::LoginFail(s("no")), "Login failed: no"),
        (NetEvent::BundleError(s("bob"), s("none")), "User 'bob' not found: none"),
        (NetEvent::ChatAck { ok: false, error: None }, "Chat request failed: "),
        (NetEvent::SendFail(s("full")), "Send failed: full"),
        (NetEvent::HeartbeatAck { pending: 2 }, "2 pending message(s)"),
        (NetEvent::Error(s("bad")), "Server error: bad"),
        (NetEvent::SystemMessage(s("note")), "note"),
        (
            NetEvent::FileReceived {
                from: s("bob"),
                filename: s("a.txt"),
                chunk_index: 0,
                total_chunks: 3,
                data: vec![],
                nonce: vec![],
                timestamp: 0,
            },
            "File from bob: a.txt (1/3)",
        ),
    ] {
        tell(&mut c, event);
        assert_eq!(last(&c), line);
    }
    assert!(!c.state.connected);
    let n = c.state.system_messages.len();
    for event in [
        NetEvent::MessageSent,
        NetEvent::HeartbeatAck { pending: 0 },
        NetEvent::ChatAck { ok: true, error: None },
    ] {
        tell(&mut c, event);
    }
    assert_eq!(c.state.system_messages.len(), n);
    tell(&mut c, NetEvent::Connected);
    assert!(c.state.connected);
}

#[test]
fn full_counters_are_noticed() {
    let (mut alice, _) = connected(None);
    alice.state.contacts[0].unread = u32::MAX;
    let event = NetEvent::MessageReceived { from: s("bob"), ciphertext: vec![], nonce: vec![], timestamp: 0 };
    assert!(!alice.can_take(&event));
    alice.state.active_peer = Some(s("bob"));
    assert!(alice.can_take(&event));
    assert!(alice.can_handle(&Command::Message(s("x"))));
    alice.sessions.get_session_mut("bob").unwrap().send_chain.counter = u32::MAX;
    assert!(!alice.can_handle(&Command::Message(s("x"))));
}

#[test]
fn keys_are_needed_only_where_they_are_read() {
    let (mut alice, bob) = connected(None);
    let asked = bundle(&bob, "carol", None);
    let request = NetEvent::IncomingChatRequest {
        from: s("dave"),
        identity_public_key: vec![1; 32],
        ephemeral_pub: vec![2; 32],
        otpk_index: Some(1),
    };
    tell(&mut alice, request);
    assert!(alice.can_handle(&Command::Accept(s("dave"))));
    alice.identity.one_time_prekey_secrets[0].pop();
    assert!(!alice.identity.has_valid_keys());
    assert!(alice.can_handle(&Command::Accept(s("dave"))));
    alice.identity.one_time_prekey_secrets[1].pop();
    assert!(!alice.can_handle(&Command::Accept(s("dave"))));
    assert!(alice.can_handle(&Command::Accept(s("nobody"))));
    assert!(alice.can_take(&asked));
    assert!(alice.can_handle(&Command::Verify(Some(s("bob")))));
    alice.identity.signing_key_bytes.pop();
    assert!(!alice.can_take(&asked));
    assert!(!alice.can_handle(&Command::Verify(Some(s("bob")))));
    assert!(alice.can_handle(&Command::Verify(Some(s("nobody")))));
    run(&mut alice, Command::Status);
    assert_eq!(last(&alice), "Connected: false | Sessions: 1 | Pending: 1");
    assert!(matches!(alice.sign_in(false, "pw"), NetCommand::Login { .. }));
}

#[test]
fn completing_tells_the_user() {
    let mut c = client("me", false);
    c.complete(Then::Accepted { from: s("bob") });
    let n = c.state.system_messages.len();
    assert_eq!(
        c.state.system_messages[n - 2].content,
        "✓ Accepted chat request from bob. Session established!"
    );
    assert_eq!(show(&Then::<String>::Nothing), "Nothing");
}

#[test]
fn map_keeps_the_order_of_names() {
    let mut m = TextMap::new();
    for (i, name) in ["a", "b", "c", "d"].iter().enumerate() {
        m.insert(s(name), i);
    }
    assert_eq!(m.remove("b"), Some(1));
    assert_eq!(m.names(), vec![s("a"), s("c"), s("d")]);
    assert_eq!(m.remove("b"), None);
    assert_eq!(m.names(), vec![s("a"), s("c"), s("d")]);
}
