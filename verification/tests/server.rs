use zerosum::protocol::message::{ClientMessage, ServerMessage};
use zerosum::protocol::ProtoError;
use zerosum::server::config::{bind_addr, env_no_tor, is_yes, use_tor};
use zerosum::server::db::{
    add_prekeys, authenticate, deliver, deliver_controls, deliver_messages, deliver_queue, fetch_bundle,
    pending_count, queue_control, queue_control_at, queue_file, queue_file_at, queue_message, read_row,
    register_user, set_online, set_online_at,
    BundleRow, DbError, PrekeyRow,
};
use zerosum::server::handler::{
    Answer, ClientHandler, Effect, Next, OnFailure, Pending, Request, Step,
};

fn s(t: &str) -> String {
    t.to_string()
}

fn show<T: std::fmt::Debug>(t: &T) -> String {
    format!("{:?}", t)
}

/// The request and the pending state of a step that only asks.
fn asked(step: Step) -> (Request, Pending) {
    assert!(step.effects.is_empty());
    match step.next {
        Next::Ask { request, pending } => (request, pending),
        other => panic!("no question: {:?}", other),
    }
}

fn logged_in(name: &str) -> ClientHandler {
    let mut h = ClientHandler::new();
    let (_, p) =
        asked(h.handle_msg(ClientMessage::Login { username: s(name), password_hash: vec![1] }));
    h.resume(p, Answer::Authenticated { ok: true });
    h
}

// ── Handshake ───────────────────────────────────────────────

#[test]
fn greeting_accepts_the_version() {
    let h = ClientHandler::new();
    let (m, go) = h.greet(ClientMessage::Hello { version: 3 });
    assert!(go);
    assert!(matches!(m, ServerMessage::HelloAck { version: 3, ok: true }));
    let (m, go) = h.greet(ClientMessage::Hello { version: 2 });
    assert!(!go);
    assert!(matches!(m, ServerMessage::HelloAck { version: 3, ok: false }));
    let (m, go) = h.greet(ClientMessage::Heartbeat);
    assert!(!go);
    assert!(matches!(m, ServerMessage::Error { message } if message == "Expected Hello"));
}

#[test]
fn second_hello_is_ignored() {
    let step = ClientHandler::new().handle_msg(ClientMessage::Hello { version: 9 });
    assert!(step.effects.is_empty());
    assert!(matches!(step.next, Next::Serve));
}

// ── Accounts ────────────────────────────────────────────────

#[test]
fn registration_welcomes_the_user() {
    let mut h = ClientHandler::new();
    let (req, p) = asked(h.handle_msg(ClientMessage::Register {
        username: s("alice"),
        password_hash: vec![1],
        identity_public_key: vec![2],
        signed_prekey: vec![3],
        signed_prekey_signature: vec![4],
        one_time_prekeys: vec![vec![5]],
    }));
    assert_eq!(
        show(&req),
        "RegisterUser { username: \"alice\", password_hash: [1], identity_public_key: [2], \
         signed_prekey: [3], signed_prekey_signature: [4], one_time_prekeys: [[5]] }"
    );
    let step = h.resume(p, Answer::Registered { error: None });
    assert_eq!(h.username, Some(s("alice")));
    assert_eq!(step.effects.len(), 4);
    assert_eq!(show(&step.effects[0]), "SetOnline { username: \"alice\", online: true }");
    assert_eq!(show(&step.effects[1]), "Enlist { username: \"alice\" }");
    assert_eq!(show(&step.effects[2]), "Reply(RegisterAck { ok: true, error: None })");
    assert_eq!(show(&step.effects[3]), "DeliverQueue { username: \"alice\" }");
    assert!(matches!(step.next, Next::Serve));
}

#[test]
fn refused_registration_changes_nothing() {
    let mut h = ClientHandler::new();
    let p = Pending::Registering { username: s("alice") };
    let step = h.resume(p, Answer::Registered { error: Some(DbError::UsernameTaken.message()) });
    assert_eq!(h.username, None);
    assert_eq!(
        show(&step.effects),
        "[Reply(RegisterAck { ok: false, error: Some(\"Username already taken\") })]"
    );
}

#[test]
fn login_outcomes() {
    let mut h = ClientHandler::new();
    let p = Pending::LoggingIn { username: s("alice") };
    let step = h.resume(p.clone(), Answer::Authenticated { ok: false });
    assert_eq!(h.username, None);
    assert_eq!(
        show(&step.effects),
        "[Reply(LoginAck { ok: false, error: Some(\"Invalid credentials\") })]"
    );
    let step = h.resume(p.clone(), Answer::NotAuthenticated { error: s("User not found") });
    assert_eq!(
        show(&step.effects),
        "[Reply(LoginAck { ok: false, error: Some(\"User not found\") })]"
    );
    let step = h.resume(p, Answer::Authenticated { ok: true });
    assert_eq!(h.username, Some(s("alice")));
    assert_eq!(show(&step.effects[2]), "Reply(LoginAck { ok: true, error: None })");
}

#[test]
fn strangers_get_nothing() {
    let h = ClientHandler::new();
    for m in [
        ClientMessage::Heartbeat,
        ClientMessage::RefillPrekeys { one_time_prekeys: vec![vec![1]] },
    ] {
        let step = h.handle_msg(m);
        assert!(step.effects.is_empty());
        assert!(matches!(step.next, Next::Serve));
    }
    assert!(h.farewell().is_empty());
}

#[test]
fn heartbeat_delivers_what_is_pending() {
    let mut h = logged_in("alice");
    let step = h.handle_msg(ClientMessage::Heartbeat);
    assert_eq!(show(&step.effects), "[SetOnline { username: \"alice\", online: true }]");
    let step = h.resume(Pending::Heartbeat, Answer::Pending { count: 0 });
    assert_eq!(show(&step.effects), "[Reply(HeartbeatAck { pending_messages: 0 })]");
    let step = h.resume(Pending::Heartbeat, Answer::Pending { count: 2 });
    assert_eq!(step.effects.len(), 2);
    assert_eq!(show(&step.effects[1]), "DeliverQueue { username: \"alice\" }");
}

#[test]
fn farewell_takes_the_user_offline() {
    assert_eq!(
        show(&logged_in("alice").farewell()),
        "[SetOnline { username: \"alice\", online: false }, Delist { username: \"alice\" }]"
    );
}

#[test]
fn goodbye_closes() {
    let step = logged_in("alice").handle_msg(ClientMessage::Goodbye);
    assert_eq!(show(&step.effects), "[Reply(GoodbyeAck)]");
    assert!(matches!(step.next, Next::Close));
}

#[test]
fn read_errors_close() {
    let h = logged_in("alice");
    let step = h.on_frame(Err(ProtoError::ConnectionClosed));
    assert!(step.effects.is_empty() && matches!(step.next, Next::Close));
    let step = h.on_frame(Ok(ClientMessage::Goodbye));
    assert_eq!(step.effects.len(), 1);
}

#[test]
fn direct_messages_are_forwarded() {
    let h = logged_in("alice");
    let step = h.on_direct(Some(ServerMessage::GoodbyeAck));
    assert_eq!(show(&step.effects), "[Forward(GoodbyeAck)]");
    assert!(h.on_direct(None).effects.is_empty());
}

#[test]
fn failures_weigh_differently() {
    let e: Effect = Effect::SetOnline { username: s("a"), online: true };
    assert_eq!(e.on_failure(), OnFailure::Ignore);
    let e: Effect = Effect::Forward(ServerMessage::GoodbyeAck);
    assert_eq!(e.on_failure(), OnFailure::Leave);
    let e: Effect = Effect::Reply(ServerMessage::GoodbyeAck);
    assert_eq!(e.on_failure(), OnFailure::Abort);
}

// ── Relaying ────────────────────────────────────────────────

#[test]
fn message_is_delivered_to_a_connected_user() {
    let mut h = logged_in("alice");
    let (req, p) = asked(h.handle_msg(ClientMessage::SendMessage {
        to: s("bob"),
        ciphertext: vec![1, 2],
        nonce: vec![3],
    }));
    assert_eq!(show(&req), "UserExists { username: \"bob\" }");
    let (req, p) = asked(h.resume_at(p, Answer::Exists { yes: true }, 77));
    assert_eq!(
        show(&req),
        "Deliver { to: \"bob\", message: IncomingMessage { from: \"alice\", \
         ciphertext: [1, 2], nonce: [3], server_timestamp: 77 } }"
    );
    let step = h.resume(p, Answer::Delivered);
    assert_eq!(show(&step.effects), "[Reply(SendAck { ok: true, error: None })]");
}

#[test]
fn message_is_stored_for_an_absent_user_and_arrives_unchanged() {
    let mut h = logged_in("alice");
    let (_, p) = asked(h.handle_msg(ClientMessage::SendMessage {
        to: s("bob"),
        ciphertext: vec![1, 2],
        nonce: vec![3],
    }));
    let (req, p) = asked(h.resume_at(p, Answer::Exists { yes: true }, 77));
    let message = match req {
        Request::Deliver { message, .. } => message,
        _ => panic!("not delivered"),
    };
    let direct = show(&message);
    let step = h.resume(p, Answer::Undelivered { message });
    assert_eq!(show(&step.effects[1]), "Reply(SendAck { ok: true, error: None })");
    match step.effects[0].clone() {
        Effect::QueueMessage { to, from, ciphertext, nonce, timestamp } => {
            let row = queue_message(to, from, ciphertext, nonce, timestamp);
            assert_eq!(row.recipient, "bob");
            assert_eq!(row.msg_type, "message");
            assert_eq!(show(&deliver(read_row(9, row))), direct);
        }
        other => panic!("not queued: {:?}", other),
    }
}

#[test]
fn file_is_stored_and_arrives_with_the_time_of_storing() {
    let mut h = logged_in("alice");
    let (_, p) = asked(h.handle_msg(ClientMessage::SendFile {
        to: s("bob"),
        filename: s("f.txt"),
        chunk_index: 4,
        total_chunks: 5,
        ciphertext: vec![1],
        nonce: vec![2],
    }));
    let (req, p) = asked(h.resume_at(p, Answer::Exists { yes: true }, 10));
    let message = match req {
        Request::Deliver { message, .. } => message,
        _ => panic!("not delivered"),
    };
    let step = h.resume(p, Answer::Undelivered { message });
    match step.effects[0].clone() {
        Effect::QueueFile { to, from, filename, chunk_index, total_chunks, ciphertext, nonce } => {
            let row =
                queue_file_at(to, from, filename, chunk_index, total_chunks, ciphertext, nonce, 20);
            assert_eq!(
                show(&deliver(read_row(1, row))),
                "IncomingFile { from: \"alice\", filename: \"f.txt\", chunk_index: 4, \
                 total_chunks: 5, ciphertext: [1], nonce: [2], server_timestamp: 20 }"
            );
        }
        other => panic!("not queued: {:?}", other),
    }
    let now = queue_file(s("a"), s("b"), s("c"), 0, 1, vec![], vec![]);
    assert_eq!(now.msg_type, "file");
    assert!(now.timestamp > 1_600_000_000);
}

#[test]
fn unknown_recipients_are_refused() {
    let mut h = logged_in("alice");
    let (_, p) = asked(h.handle_msg(ClientMessage::SendMessage {
        to: s("nobody"),
        ciphertext: vec![],
        nonce: vec![],
    }));
    let step = h.resume(p, Answer::Exists { yes: false });
    assert_eq!(
        show(&step.effects),
        "[Reply(SendAck { ok: false, error: Some(\"User not found\") })]"
    );
    assert!(matches!(step.next, Next::Serve));
    let (_, p) = asked(h.handle_msg(ClientMessage::ChatRequest {
        to: s("nobody"),
        identity_public_key: vec![],
        ephemeral_pub: vec![],
        otpk_index: None,
    }));
    let step = h.resume(p, Answer::Exists { yes: false });
    assert_eq!(
        show(&step.effects),
        "[Reply(ChatAck { ok: false, error: Some(\"User not found\") })]"
    );
}

#[test]
fn chat_request_is_stored_as_a_control_message() {
    let mut h = logged_in("alice");
    let (_, p) = asked(h.handle_msg(ClientMessage::ChatRequest {
        to: s("bob"),
        identity_public_key: vec![1],
        ephemeral_pub: vec![2],
        otpk_index: Some(3),
    }));
    let (req, p) = asked(h.resume(p, Answer::Exists { yes: true }));
    let message = match req {
        Request::Deliver { message, .. } => message,
        _ => panic!("not delivered"),
    };
    let direct = show(&message);
    let step = h.resume(p, Answer::Undelivered { message });
    assert_eq!(show(&step.effects[1]), "Reply(ChatAck { ok: true, error: None })");
    match step.effects[0].clone() {
        Effect::QueueControl { to, from, kind, message } => {
            assert_eq!((to.as_str(), from.as_str()), ("bob", "alice"));
            assert_eq!(kind, "chat_request");
            let frames = deliver_controls(vec![(kind, Some(message))]);
            assert_eq!(show(&frames[0]), direct);
        }
        other => panic!("not queued: {:?}", other),
    }
}

#[test]
fn accepting_sends_the_own_identity_key() {
    let mut h = logged_in("bob");
    let (req, p) = asked(h.handle_msg(ClientMessage::ChatAccept { to: s("alice") }));
    assert_eq!(show(&req), "IdentityKey { username: \"bob\" }");
    let (req, _) = asked(h.resume(p.clone(), Answer::IdentityKey { key: Some(vec![8]) }));
    assert_eq!(
        show(&req),
        "Deliver { to: \"alice\", message: ChatRequestAccepted { from: \"bob\", \
         identity_public_key: [8] } }"
    );
    let (req, p) = asked(h.resume(p, Answer::IdentityKey { key: None }));
    assert!(show(&req).contains("identity_public_key: []"));
    let message = match req {
        Request::Deliver { message, .. } => message,
        _ => panic!("not delivered"),
    };
    let step = h.resume(p, Answer::Undelivered { message });
    assert!(show(&step.effects[0]).contains("kind: \"chat_accept\""));
}

#[test]
fn rejecting_is_delivered_or_stored() {
    let mut h = logged_in("bob");
    let (req, p) = asked(h.handle_msg(ClientMessage::ChatReject { to: s("alice") }));
    let message = match req {
        Request::Deliver { to, message } => {
            assert_eq!(to, "alice");
            message
        }
        _ => panic!("not delivered"),
    };
    let step = h.resume(p.clone(), Answer::Undelivered { message });
    assert!(show(&step.effects[0]).contains("kind: \"chat_reject\""));
    let step = h.resume(p, Answer::Delivered);
    assert_eq!(show(&step.effects), "[Reply(ChatAck { ok: true, error: None })]");
}

#[test]
fn nobody_is_the_sender_before_a_login() {
    let h = ClientHandler::new();
    let (req, _) = asked(h.handle_msg(ClientMessage::ChatReject { to: s("alice") }));
    assert!(show(&req).contains("from: \"\""));
}

#[test]
fn bundle_is_handed_out() {
    let mut h = logged_in("alice");
    let (req, p) = asked(h.handle_msg(ClientMessage::FetchBundle { target_username: s("bob") }));
    assert_eq!(show(&req), "FetchBundle { username: \"bob\" }");
    let step = h.resume(
        p.clone(),
        Answer::Bundle {
            identity_public_key: vec![1],
            signed_prekey: vec![2],
            signed_prekey_signature: vec![3],
            one_time_prekey: Some(vec![4]),
            otpk_index: Some(5),
        },
    );
    assert_eq!(
        show(&step.effects),
        "[Reply(Bundle { username: \"bob\", identity_public_key: [1], signed_prekey: [2], \
         signed_prekey_signature: [3], one_time_prekey: Some([4]), otpk_index: Some(5) })]"
    );
    let step = h.resume(p, Answer::NoBundle { error: s("User not found") });
    assert_eq!(
        show(&step.effects),
        "[Reply(BundleError { username: \"bob\", error: \"User not found\" })]"
    );
}

#[test]
fn refill_is_acknowledged() {
    let mut h = logged_in("alice");
    let (req, p) =
        asked(h.handle_msg(ClientMessage::RefillPrekeys { one_time_prekeys: vec![vec![1]] }));
    assert_eq!(show(&req), "AddPrekeys { username: \"alice\", prekeys: [[1]] }");
    let step = h.resume(p.clone(), Answer::Refilled { count: Some(9) });
    assert_eq!(show(&step.effects), "[Reply(RefillAck { ok: true, count: 9 })]");
    let step = h.resume(p, Answer::Refilled { count: None });
    assert_eq!(show(&step.effects), "[Reply(RefillAck { ok: false, count: 0 })]");
}

#[test]
fn answer_to_another_question_has_no_effect() {
    let mut h = logged_in("alice");
    let step = h.resume(Pending::Refilling, Answer::Delivered);
    assert!(step.effects.is_empty());
    assert!(matches!(step.next, Next::Serve));
}

// ── Rows ────────────────────────────────────────────────────

#[test]
fn prekeys_are_numbered() {
    let rows = register_user(false, &[vec![7], vec![8]]).unwrap();
    assert_eq!(rows, vec![(0, vec![7]), (1, vec![8])]);
    assert_eq!(register_user(true, &[]), Err(DbError::UsernameTaken));
    assert_eq!(add_prekeys(Some(4), &[vec![7], vec![8]]), vec![(5, vec![7]), (6, vec![8])]);
    assert_eq!(add_prekeys(None, &[vec![7]]), vec![(0, vec![7])]);
}

#[test]
fn password_hashes_are_compared() {
    assert_eq!(authenticate(Some(vec![1, 2]), &[1, 2]), Ok(true));
    assert_eq!(authenticate(Some(vec![1, 2]), &[1, 3]), Ok(false));
    assert_eq!(authenticate(Some(vec![1, 2]), &[1]), Ok(false));
    assert_eq!(authenticate(None, &[1, 2]), Err(DbError::UserNotFound));
}

#[test]
fn presence_has_a_time() {
    assert_eq!(set_online(true).0, 1);
    assert_eq!(set_online(false).0, 0);
    assert!(set_online(true).1 > 1_600_000_000);
    assert_eq!(set_online_at(true, -5), (1, -5));
    assert_eq!(set_online_at(false, 7), (0, 7));
}

#[test]
fn bundle_takes_one_prekey() {
    let user = BundleRow {
        identity_public_key: vec![1],
        signed_prekey: vec![2],
        signed_prekey_signature: vec![3],
    };
    let prekey = PrekeyRow { id: 40, public_key: vec![4], key_index: 6 };
    let b = fetch_bundle(Some(user.clone()), Some(prekey)).unwrap();
    assert_eq!(b.one_time_prekey, Some(vec![4]));
    assert_eq!(b.otpk_index, Some(6));
    assert_eq!(b.mark_used, Some(40));
    let b = fetch_bundle(Some(user), None).unwrap();
    assert_eq!((b.one_time_prekey, b.otpk_index, b.mark_used), (None, None, None));
    assert_eq!(b.signed_prekey, vec![2]);
    assert_eq!(fetch_bundle(None, None).err(), Some(DbError::UserNotFound));
}

#[test]
fn pending_counts_both_queues() {
    assert_eq!(pending_count(2, 3), 5);
}

#[test]
fn stored_rows_have_defaults() {
    let mut row = queue_message(s("bob"), s("alice"), vec![1], vec![2], u64::MAX);
    assert_eq!(row.timestamp, -1);
    row.msg_type = s("file");
    assert_eq!(
        show(&deliver(read_row(1, row))),
        format!(
            "IncomingFile {{ from: \"alice\", filename: \"\", chunk_index: 0, total_chunks: 1, \
             ciphertext: [1], nonce: [2], server_timestamp: {} }}",
            u64::MAX
        )
    );
}

#[test]
fn queue_keeps_its_order() {
    let rows: Vec<_> = (0..3)
        .map(|i| read_row(i, queue_message(s("bob"), s("alice"), vec![i as u8], vec![], 0)))
        .collect();
    let frames = deliver_messages(rows);
    let order: Vec<u8> = frames
        .iter()
        .map(|f| match f {
            ServerMessage::IncomingMessage { ciphertext, .. } => ciphertext[0],
            _ => panic!("no message"),
        })
        .collect();
    assert_eq!(order, vec![0, 1, 2]);
}

#[test]
fn unknown_controls_are_skipped() {
    let frames = deliver_controls(vec![
        (s("chat_accept"), Some(ServerMessage::GoodbyeAck)),
        (s("chat_dance"), Some(ServerMessage::GoodbyeAck)),
        (s("chat_reject"), None),
        (s("chat_reject"), Some(ServerMessage::RefillAck { ok: true, count: 1 })),
    ]);
    assert_eq!(show(&frames), "[GoodbyeAck, RefillAck { ok: true, count: 1 }]");
}

// ── Set-up ──────────────────────────────────────────────────

#[test]
fn tor_is_on_unless_switched_off() {
    assert!(use_tor(false, None));
    assert!(!use_tor(true, None));
    assert!(!use_tor(false, Some(s("YES"))));
    assert!(use_tor(false, Some(s("0"))));
    assert!(env_no_tor(Some(s("True"))));
    assert!(env_no_tor(Some(s("1"))));
    assert!(!env_no_tor(None));
    assert!(!env_no_tor(Some(s("yës"))));
    assert!(is_yes("yes") && !is_yes("YES"));
}

#[test]
fn server_listens_locally() {
    assert_eq!(bind_addr(18080), "127.0.0.1:18080");
    assert_eq!(bind_addr(0), "127.0.0.1:0");
}

#[test]
fn control_rows_hold_what_was_sent() {
    let row = queue_control(
        "bob".to_string(),
        "alice".to_string(),
        "chat_request".to_string(),
        vec![1, 2, 3],
    );
    assert_eq!(row.recipient, "bob");
    assert_eq!(row.sender, "alice");
    assert_eq!(row.msg_type, "chat_request");
    assert_eq!(row.data, vec![1, 2, 3]);
    assert!(row.timestamp > 1_600_000_000);
    let row = queue_control_at(s("a"), s("b"), s("chat_accept"), vec![4], 99);
    assert_eq!((row.recipient, row.sender, row.msg_type), (s("a"), s("b"), s("chat_accept")));
    assert_eq!((row.data, row.timestamp), (vec![4], 99));
}

#[test]
fn control_messages_come_before_messages() {
    let rejected = ServerMessage::ChatRequestRejected { from: s("alice") };
    let row = queue_message(s("bob"), s("alice"), vec![1], vec![2], 3);
    let frames = deliver_queue(
        vec![(s("chat_reject"), Some(rejected)), (s("chat_accept"), None)],
        vec![read_row(1, row)],
    );
    assert_eq!(frames.len(), 2);
    assert!(matches!(&frames[0], ServerMessage::ChatRequestRejected { .. }));
    assert!(matches!(&frames[1], ServerMessage::IncomingMessage { server_timestamp: 3, .. }));
}

#[test]
fn prekeys_are_handed_out_once() {
    let keys = vec![vec![10u8], vec![11], vec![12]];
    let rows = register_user(false, &keys).unwrap();
    let mut table: Vec<(i64, i64, Vec<u8>, bool)> = rows
        .into_iter()
        .enumerate()
        .map(|(id, (index, key))| (id as i64 + 7, index, key, false))
        .collect();
    let user = BundleRow {
        identity_public_key: vec![1],
        signed_prekey: vec![2],
        signed_prekey_signature: vec![3],
    };
    let mut seen: Vec<u32> = Vec::new();
    for k in 0..5 {
        let offer = table.iter().find(|r| !r.3).map(|r| PrekeyRow {
            id: r.0,
            public_key: r.2.clone(),
            key_index: r.1,
        });
        let bundle = fetch_bundle(Some(user.clone()), offer).unwrap();
        if k < 3 {
            let index = bundle.otpk_index.unwrap();
            assert!(!seen.contains(&index));
            assert_eq!(bundle.one_time_prekey, Some(keys[index as usize].clone()));
            seen.push(index);
        } else {
            assert!(bundle.one_time_prekey.is_none() && bundle.otpk_index.is_none());
        }
        for row in table.iter_mut() {
            if bundle.mark_used == Some(row.0) {
                row.3 = true;
            }
        }
    }
}
