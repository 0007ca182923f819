//! What each event of the network comes to: what changes, what stays, and what
//! is sent.

use vstd::prelude::*;
use vstd::utf8::*;

use crate::client::command_laws;
use crate::client::files;
use crate::client::history;
use crate::client::history::Direction;
use crate::client::network::{NetCommand, NetEvent, NetEventView};
use crate::client::session;
use crate::client::session::{Action, ActionView, ClientView, PendingRequest, Then};
use crate::client::tui;
use crate::client::tui::{AppView, ContactDisplay, LineView};
use crate::crypto::primitives;
use crate::crypto::ratchet;
use crate::crypto::x3dh;
use crate::protocol;
use crate::text;

verus! {

/// Each part of the client is changed by the events that are about it, and by no
/// others. No event touches the identity, the line being typed, the chat on the
/// screen or the lock, and none loses a line of the log.
pub proof fn law_events_mind_their_own_business(
    c: ClientView,
    event: NetEventView,
    ephemeral: Seq<u8>,
    now: i64,
)
    ensures
        ({
            let after = session::informed(c, event, ephemeral, now).0;
            &&& after.identity == c.identity
            &&& after.state.username == c.state.username && after.state.input == c.state.input
            &&& after.state.active_peer == c.state.active_peer
            &&& after.state.selected_contact == c.state.selected_contact
            &&& after.state.locked == c.state.locked
            &&& after.state.history_enabled == c.state.history_enabled
            &&& after.history.enabled == c.history.enabled
            &&& after.history.password == c.history.password
            &&& !(event is Connected || event is Disconnected) ==> after.state.connected
                == c.state.connected
            &&& !(event is BundleReceived || event is ChatRequestRejected || event
                is MessageReceived || event is FileReceived) ==> after.sessions == c.sessions
            &&& !(event is ChatRequestAccepted) ==> after.contacts == c.contacts
            &&& !(event is IncomingChatRequest) ==> after.pending == c.pending
            &&& !(event is MessageReceived) ==> after.history == c.history
            &&& !(event is MessageReceived) ==> after.state.messages == c.state.messages
            &&& !(event is MessageReceived || event is ChatRequestAccepted)
                ==> after.state.contacts == c.state.contacts
            &&& command_laws::log_goes_on(c, after)
        }),
{
    let after = session::informed(c, event, ephemeral, now).0;
    let log = c.state.system_messages;
    assert(after.state.system_messages.take(log.len() as int) =~= log);
}

/// Something has to be done for two kinds of event: keys are answered with a chat
/// request, and a chunk of a file is written. All others are taken note of.
pub proof fn law_events_ask_for_little(
    c: ClientView,
    event: NetEventView,
    ephemeral: Seq<u8>,
    now: i64,
)
    ensures
        ({
            let action = session::informed(c, event, ephemeral, now).1;
            &&& action matches Action::Send { command, .. } ==> event is BundleReceived && command
                is ChatRequest
            &&& action is SaveChunk ==> event is FileReceived
            &&& !(action is ReadFile) && !(action is PurgeHistory) && !(action is Panic)
        }),
{
}

/// The client knows whether it is connected: after the event that says so, and
/// until the other one.
pub proof fn law_connection_is_what_the_network_says(
    c: ClientView,
    reason: Seq<char>,
    ephemeral: Seq<u8>,
    now: i64,
)
    ensures
        ({
            let up = session::informed(c, NetEvent::Connected, ephemeral, now).0;
            let down = session::informed(c, NetEvent::Disconnected(reason), ephemeral, now).0;
            &&& up.state.connected && !down.state.connected
            &&& command_laws::only_log_grew(
                ClientView { state: AppView { connected: true, ..c.state }, ..c },
                up,
            )
            &&& command_laws::only_log_grew(
                ClientView { state: AppView { connected: false, ..c.state }, ..c },
                down,
            )
            &&& command_laws::last_line(up) == "Connected to server."@
            &&& command_laws::last_line(down) == "Disconnected: "@ + reason
        }),
{
    command_laws::law_notes_go_to_the_log(
        ClientView { state: AppView { connected: true, ..c.state }, ..c },
        "Connected to server."@,
        seq![],
    );
    command_laws::law_notes_go_to_the_log(
        ClientView { state: AppView { connected: false, ..c.state }, ..c },
        "Disconnected: "@ + reason,
        seq![],
    );
}

/// A chat request that comes in waits for the user under its sender's name, with
/// the keys that came; it makes no session and no contact.
pub proof fn law_incoming_request_waits(
    c: ClientView,
    from: Seq<char>,
    identity_public_key: Seq<u8>,
    ephemeral_pub: Seq<u8>,
    otpk_index: Option<u32>,
    ephemeral: Seq<u8>,
    now: i64,
)
    ensures
        ({
            let (after, action) = session::informed(
                c,
                NetEvent::IncomingChatRequest {
                    from,
                    identity_public_key,
                    ephemeral_pub,
                    otpk_index,
                },
                ephemeral,
                now,
            );
            &&& action is Nothing
            &&& after.pending == c.pending.insert(
                from,
                PendingRequest { from, identity_public_key, ephemeral_pub, otpk_index },
            )
            &&& after.sessions == c.sessions && after.contacts == c.contacts
            &&& command_laws::only_log_grew(ClientView { pending: after.pending, ..c }, after)
        }),
{
    let after = session::informed(
        c,
        NetEvent::IncomingChatRequest { from, identity_public_key, ephemeral_pub, otpk_index },
        ephemeral,
        now,
    ).0;
    let log = c.state.system_messages;
    assert(after.state.system_messages.take(log.len() as int) =~= log);
}

/// Whoever accepts becomes a contact, with the key that came, unverified unless
/// it was verified with this key, and appears on the screen. The session stays
/// as it was made, and nobody else is affected.
pub proof fn law_acceptance_makes_a_contact(
    c: ClientView,
    from: Seq<char>,
    key: Seq<u8>,
    ephemeral: Seq<u8>,
    now: i64,
    other: Seq<char>,
)
    ensures
        ({
            let (after, action) = session::informed(
                c,
                NetEvent::ChatRequestAccepted { from, identity_public_key: key },
                ephemeral,
                now,
            );
            &&& action is Nothing
            &&& after.sessions == c.sessions && after.pending == c.pending
            &&& after.contacts.dom() == c.contacts.dom().insert(from)
            &&& after.contacts[from].identity_key == Some(key)
            &&& after.contacts[from].verified ==> c.contacts.contains_key(from)
                && c.contacts[from].verified
            &&& c.contacts.contains_key(from) && c.contacts[from].identity_key is Some
                && c.contacts[from].identity_key != Some(key) ==> !after.contacts[from].verified
            &&& c.contacts.contains_key(from) ==> after.contacts[from].alias
                == c.contacts[from].alias
            &&& tui::listed(after.state.contacts, from)
            &&& tui::listed(c.state.contacts, from) ==> after.state.contacts == c.state.contacts
            &&& !tui::listed(c.state.contacts, from) ==> after.state.contacts
                == c.state.contacts.push(
                ContactDisplay {
                    username: from,
                    alias: None,
                    online: true,
                    verified: false,
                    unread: 0,
                },
            )
            &&& other != from && c.contacts.contains_key(other) ==> after.contacts[other]
                == c.contacts[other]
        }),
{
    let after = session::informed(
        c,
        NetEvent::ChatRequestAccepted { from, identity_public_key: key },
        ephemeral,
        now,
    ).0;
    assert(after.contacts.dom() =~= c.contacts.dom().insert(from));
    tui::law_position_is_the_first_entry(c.state.contacts, from);
    tui::law_position_is_the_first_entry(after.state.contacts, from);
    if !tui::listed(c.state.contacts, from) {
        let n = c.state.contacts.len() as int;
        assert(after.state.contacts[n].username == from);
    }
}

/// Whoever rejects is not talked to: the session with that user is gone, and only
/// that one.
pub proof fn law_rejection_ends_the_session(
    c: ClientView,
    from: Seq<char>,
    ephemeral: Seq<u8>,
    now: i64,
)
    ensures
        ({
            let (after, action) = session::informed(
                c,
                NetEvent::ChatRequestRejected { from },
                ephemeral,
                now,
            );
            &&& action is Nothing
            &&& after.sessions == c.sessions.remove(from)
            &&& command_laws::only_log_grew(ClientView { sessions: after.sessions, ..c }, after)
            &&& command_laws::last_line(after) == "✗ "@ + from + " rejected your chat request."@
        }),
{
    command_laws::law_notes_go_to_the_log(
        ClientView { sessions: c.sessions.remove(from), ..c },
        "✗ "@ + from + " rejected your chat request."@,
        seq![],
    );
}

/// Keys whose prekey is signed make a session as the one that asks, from the own
/// identity and a fresh ephemeral key on this side and all the keys that came on
/// the other; and a chat request goes out that names the own public keys and the
/// prekey that was used.
pub proof fn law_signed_keys_make_a_session(
    c: ClientView,
    username: Seq<char>,
    identity_public_key: Seq<u8>,
    signed_prekey: Seq<u8>,
    signed_prekey_signature: Seq<u8>,
    one_time_prekey: Option<Seq<u8>>,
    otpk_index: Option<u32>,
    ephemeral: Seq<u8>,
    now: i64,
    other: Seq<char>,
)
    requires
        x3dh::prekey_signed(identity_public_key, signed_prekey, signed_prekey_signature),
        signed_prekey.len() == 32,
        one_time_prekey matches Some(k) ==> k.len() == 32,
    ensures
        ({
            let (after, action) = session::informed(
                c,
                NetEvent::BundleReceived {
                    username,
                    identity_public_key,
                    signed_prekey,
                    signed_prekey_signature,
                    one_time_prekey,
                    otpk_index,
                },
                ephemeral,
                now,
            );
            let own = x3dh::x25519_secret(c.identity.signing_key);
            let secret = primitives::hkdf_key(
                Seq::new(32, |i: int| 0xffu8) + primitives::x25519_shared_with(own, signed_prekey)
                    + primitives::x25519_shared_with(
                    ephemeral,
                    x3dh::x25519_identity(identity_public_key),
                ) + primitives::x25519_shared_with(ephemeral, signed_prekey) + (
                match one_time_prekey {
                    Some(k) => primitives::x25519_shared_with(ephemeral, k),
                    None => Seq::<u8>::empty(),
                }),
                encode_utf8("ZeroSum_X3DH_SharedSecret"@),
            );
            let made = after.sessions[username];
            &&& action == (ActionView::Send {
                command: NetCommand::ChatRequest {
                    to: username,
                    identity_public_key: primitives::ed25519_public_of(c.identity.signing_key),
                    ephemeral_pub: primitives::x25519_public_of(ephemeral),
                    otpk_index,
                },
                then: Then::Requested { username },
            })
            &&& after.sessions.dom() == c.sessions.dom().insert(username)
            &&& made.send.chain_key == primitives::hkdf_key(
                secret,
                encode_utf8("ZeroSum_SendChain"@),
            )
            &&& made.recv.chain_key == primitives::hkdf_key(
                secret,
                encode_utf8("ZeroSum_RecvChain"@),
            )
            &&& made.send.counter == 0 && made.recv.counter == 0 && made.established
            &&& other != username && c.sessions.contains_key(other) ==> after.sessions[other]
                == c.sessions[other]
            &&& after == (ClientView { sessions: after.sessions, ..c })
        }),
{
    let after = session::informed(
        c,
        NetEvent::BundleReceived {
            username,
            identity_public_key,
            signed_prekey,
            signed_prekey_signature,
            one_time_prekey,
            otpk_index,
        },
        ephemeral,
        now,
    ).0;
    assert(after.sessions.dom() =~= c.sessions.dom().insert(username));
    x3dh::law_prekey_needs_its_signature(
        identity_public_key,
        signed_prekey,
        signed_prekey_signature,
    );
    x3dh::law_secret_comes_from_all_exchanges(
        x3dh::x25519_secret(c.identity.signing_key),
        ephemeral,
        x3dh::x25519_identity(identity_public_key),
        signed_prekey,
        one_time_prekey,
    );
}

/// The secret that two users agree on comes from both identities, the responder's
/// signed prekey and the one-time prekey with the index that was used.
pub proof fn law_agreed_secret_is_of_both(
    initiator: Seq<u8>,
    ephemeral: Seq<u8>,
    responder: crate::crypto::identity::IdentityView,
    index: Option<u32>,
)
    ensures
        ({
            let own = x3dh::x25519_secret(initiator);
            let theirs = primitives::x25519_public_of(
                x3dh::x25519_secret(responder.signing_key),
            );
            let prekey = primitives::x25519_public_of(responder.signed_prekey);
            session::agreed_secret(initiator, ephemeral, responder, index) == primitives::hkdf_key(
                Seq::new(32, |i: int| 0xffu8) + primitives::x25519_shared_with(own, prekey)
                    + primitives::x25519_shared_with(ephemeral, theirs)
                    + primitives::x25519_shared_with(ephemeral, prekey) + (match index {
                    Some(i) => if i < responder.one_time_prekeys.len() {
                        primitives::x25519_shared_with(
                            ephemeral,
                            primitives::x25519_public_of(responder.one_time_prekeys[i as int]),
                        )
                    } else {
                        Seq::<u8>::empty()
                    },
                    None => Seq::<u8>::empty(),
                }),
                encode_utf8("ZeroSum_X3DH_SharedSecret"@),
            )
        }),
{
    x3dh::law_secret_comes_from_all_exchanges(
        x3dh::x25519_secret(initiator),
        ephemeral,
        primitives::x25519_public_of(x3dh::x25519_secret(responder.signing_key)),
        responder.spk_public(),
        x3dh::opt_public(session::otpk_of(responder, index)),
    );
}

/// A message that can be read appears in the chat of its sender and, where
/// history is on, is recorded as received from that user. One that cannot be
/// read appears nowhere and is told of. In both cases the session with the
/// sender, and no other, moves on by one message.
pub proof fn law_message_appears_in_its_chat(
    c: ClientView,
    from: Seq<char>,
    ciphertext: Seq<u8>,
    nonce: Seq<u8>,
    timestamp: u64,
    ephemeral: Seq<u8>,
    now: i64,
    other: Seq<char>,
)
    requires
        c.sessions.contains_key(from),
        c.sessions[from].recv.counter < u32::MAX,
        tui::can_bump(c.state, from),
    ensures
        ({
            let (after, action) = session::informed(
                c,
                NetEvent::MessageReceived { from, ciphertext, nonce, timestamp },
                ephemeral,
                now,
            );
            let read = ratchet::received(c.sessions[from], ciphertext, nonce);
            let chain = c.sessions[from].recv;
            &&& action is Nothing
            &&& after.sessions.dom() == c.sessions.dom()
            &&& after.sessions[from].recv.counter == chain.counter + 1
            &&& after.sessions[from].recv.chain_key == primitives::hkdf_key(
                chain.chain_key,
                encode_utf8("ZeroSum_ChainKey"@),
            )
            &&& after.sessions[from].send == c.sessions[from].send
            &&& other != from && c.sessions.contains_key(other) ==> after.sessions[other]
                == c.sessions[other]
            &&& other != from ==> tui::chat_with(after.state, other) == tui::chat_with(
                c.state,
                other,
            )
            &&& after.contacts == c.contacts && after.pending == c.pending
            &&& match read {
                Ok(padded) => {
                    let words = session::shown_text(padded);
                    &&& tui::chat_with(after.state, from) == tui::chat_with(c.state, from).push(
                        LineView { sender: from, content: words, is_system: false },
                    )
                    &&& after.state.system_messages == c.state.system_messages
                    &&& !c.history.enabled ==> after.history == c.history
                    &&& c.history.enabled ==> after.history.entries == c.history.entries.push(
                        history::HistoryEntry {
                            timestamp: now,
                            peer: from,
                            direction: Direction::Received,
                            content: words,
                        },
                    ) && after.history.dirty
                },
                Err(e) => {
                    &&& after.state.messages == c.state.messages && after.history == c.history
                    &&& after.state.contacts == c.state.contacts
                    &&& command_laws::last_line(after) == "⚠ Decrypt failed from "@ + from + ": "@
                        + e.text()
                },
            }
        }),
{
    let after = session::informed(
        c,
        NetEvent::MessageReceived { from, ciphertext, nonce, timestamp },
        ephemeral,
        now,
    ).0;
    assert(after.sessions.dom() =~= c.sessions.dom());
}

/// A message of somebody without a session is not read: nothing changes, and the
/// user is told who wrote.
pub proof fn law_message_needs_a_session(
    c: ClientView,
    from: Seq<char>,
    ciphertext: Seq<u8>,
    nonce: Seq<u8>,
    timestamp: u64,
    ephemeral: Seq<u8>,
    now: i64,
)
    requires
        !c.sessions.contains_key(from),
    ensures
        ({
            let (after, action) = session::informed(
                c,
                NetEvent::MessageReceived { from, ciphertext, nonce, timestamp },
                ephemeral,
                now,
            );
            &&& action is Nothing && command_laws::only_log_grew(c, after)
            &&& command_laws::last_line(after) == "Message from "@ + from
                + " but no session. They may need to /request you."@
        }),
{
    command_laws::law_notes_go_to_the_log(
        c,
        "Message from "@ + from + " but no session. They may need to /request you."@,
        seq![],
    );
}

/// The words of a message are those that its padding hides; a message without
/// padding is taken as it is.
pub proof fn law_words_are_what_padding_hides(padded: Seq<u8>, line: Seq<char>)
    ensures
        protocol::unpadded(padded) matches Some(data) ==> session::shown_text(padded)
            == text::lossy(data) && session::chunk_content(padded) == data,
        protocol::unpadded(padded) is None ==> session::shown_text(padded) == text::lossy(padded)
            && session::chunk_content(padded) == padded,
        encode_utf8(line).len() <= u32::MAX ==> session::chunk_content(
            protocol::padded(encode_utf8(line)),
        ) == encode_utf8(line),
        session::survives_padding(line) <==> encode_utf8(line).len() <= u32::MAX,
{
    if encode_utf8(line).len() <= u32::MAX {
        protocol::law_padding_is_undone(encode_utf8(line));
    }
}

/// A chunk of a file that can be read is written under the file's own name, at its
/// own place, with what its padding hides. The session moves on by one message,
/// whether or not the chunk could be read. Without a session nothing is
/// written.
pub proof fn law_chunk_is_written_under_its_name(
    c: ClientView,
    from: Seq<char>,
    filename: Seq<char>,
    chunk_index: u32,
    total_chunks: u32,
    data: Seq<u8>,
    nonce: Seq<u8>,
    timestamp: u64,
    ephemeral: Seq<u8>,
    now: i64,
    other: Seq<char>,
)
    requires
        chunk_index < u32::MAX,
        c.sessions.contains_key(from) ==> c.sessions[from].recv.counter < u32::MAX,
    ensures
        ({
            let (after, action) = session::informed(
                c,
                NetEvent::FileReceived {
                    from,
                    filename,
                    chunk_index,
                    total_chunks,
                    data,
                    nonce,
                    timestamp,
                },
                ephemeral,
                now,
            );
            let n = c.state.system_messages.len() as int;
            &&& after.state.system_messages.len() > n
            &&& after.state.system_messages[n].content == "File from "@ + from + ": "@ + filename
                + (" ("@ + text::decimal((chunk_index + 1) as nat) + "/"@ + text::decimal(
                total_chunks as nat,
            ) + ")"@)
            &&& !c.sessions.contains_key(from) ==> action is Nothing
                && command_laws::only_log_grew(c, after)
            &&& c.sessions.contains_key(from) ==> {
                &&& command_laws::only_log_grew(
                    ClientView { sessions: after.sessions, ..c },
                    after,
                )
                &&& after.sessions.dom() == c.sessions.dom()
                &&& after.sessions[from].recv.counter == c.sessions[from].recv.counter + 1
                &&& after.sessions[from].recv.chain_key == primitives::hkdf_key(
                    c.sessions[from].recv.chain_key,
                    encode_utf8("ZeroSum_ChainKey"@),
                )
                &&& after.sessions[from].send == c.sessions[from].send
                &&& other != from && c.sessions.contains_key(other) ==> after.sessions[other]
                    == c.sessions[other]
                &&& match ratchet::received(c.sessions[from], data, nonce) {
                    Ok(padded) => action == (ActionView::SaveChunk {
                        filename: files::name_in(filename),
                        chunk_index,
                        data: session::chunk_content(padded),
                    }),
                    Err(e) => action is Nothing && command_laws::last_line(after)
                        == "⚠ Decrypt failed from "@ + from + ": "@ + e.text(),
                }
            }
        }),
{
    let after = session::informed(
        c,
        NetEvent::FileReceived {
            from,
            filename,
            chunk_index,
            total_chunks,
            data,
            nonce,
            timestamp,
        },
        ephemeral,
        now,
    ).0;
    let log = c.state.system_messages;
    assert(after.state.system_messages.take(log.len() as int) =~= log);
    if c.sessions.contains_key(from) {
        assert(after.sessions.dom() =~= c.sessions.dom());
    }
}

/// While history is off, nothing that the network brings is recorded.
pub proof fn law_history_off_records_no_event(
    c: ClientView,
    event: NetEventView,
    ephemeral: Seq<u8>,
    now: i64,
)
    requires
        !c.history.enabled,
    ensures
        session::informed(c, event, ephemeral, now).0.history == c.history,
{
}

/// Of everything else the user is told in the log, in the words that came, and
/// nothing changes.
pub proof fn law_news_is_told(
    c: ClientView,
    words: Seq<char>,
    username: Seq<char>,
    pending: u32,
    ephemeral: Seq<u8>,
    now: i64,
)
    ensures
        ({
            let registered = session::informed(c, NetEvent::RegisterOk, ephemeral, now);
            let not_registered = session::informed(
                c,
                NetEvent::RegisterFail(words),
                ephemeral,
                now,
            );
            let logged_in = session::informed(c, NetEvent::LoginOk, ephemeral, now);
            let not_logged_in = session::informed(c, NetEvent::LoginFail(words), ephemeral, now);
            let no_bundle = session::informed(
                c,
                NetEvent::BundleError(username, words),
                ephemeral,
                now,
            );
            let not_sent = session::informed(c, NetEvent::SendFail(words), ephemeral, now);
            let error = session::informed(c, NetEvent::Error(words), ephemeral, now);
            let note = session::informed(c, NetEvent::SystemMessage(words), ephemeral, now);
            let refused = session::informed(
                c,
                NetEvent::ChatAck { ok: false, error: Some(words) },
                ephemeral,
                now,
            );
            let beat = session::informed(c, NetEvent::HeartbeatAck { pending }, ephemeral, now);
            &&& told(c, registered, "✓ Registered successfully!"@)
            &&& told(c, not_registered, "Registration failed: "@ + words)
            &&& told(c, logged_in, "✓ Logged in!"@)
            &&& told(c, not_logged_in, "Login failed: "@ + words)
            &&& told(c, no_bundle, "User '"@ + username + "' not found: "@ + words)
            &&& told(c, not_sent, "Send failed: "@ + words)
            &&& told(c, error, "Server error: "@ + words)
            &&& told(c, note, words)
            &&& told(c, refused, "Chat request failed: "@ + words)
            &&& pending > 0 ==> told(c, beat, text::decimal(pending as nat)
                + " pending message(s)"@)
            &&& pending == 0 ==> beat == (c, ActionView::Nothing)
            &&& session::informed(c, NetEvent::MessageSent, ephemeral, now) == (
                c,
                ActionView::Nothing,
            )
            &&& session::informed(
                c,
                NetEvent::ChatAck { ok: true, error: Some(words) },
                ephemeral,
                now,
            ) == (c, ActionView::Nothing)
        }),
{
    command_laws::law_notes_go_to_the_log(c, "✓ Registered successfully!"@, seq![]);
    command_laws::law_notes_go_to_the_log(c, "Registration failed: "@ + words, seq![]);
    command_laws::law_notes_go_to_the_log(c, "✓ Logged in!"@, seq![]);
    command_laws::law_notes_go_to_the_log(c, "Login failed: "@ + words, seq![]);
    command_laws::law_notes_go_to_the_log(
        c,
        "User '"@ + username + "' not found: "@ + words,
        seq![],
    );
    command_laws::law_notes_go_to_the_log(c, "Send failed: "@ + words, seq![]);
    command_laws::law_notes_go_to_the_log(c, "Server error: "@ + words, seq![]);
    command_laws::law_notes_go_to_the_log(c, words, seq![]);
    command_laws::law_notes_go_to_the_log(c, "Chat request failed: "@ + words, seq![]);
    command_laws::law_notes_go_to_the_log(
        c,
        text::decimal(pending as nat) + " pending message(s)"@,
        seq![],
    );
}

/// The user is told a line, and that is all.
pub open spec fn told(
    before: ClientView,
    outcome: (ClientView, ActionView),
    line: Seq<char>,
) -> bool {
    &&& outcome.1 is Nothing
    &&& command_laws::only_log_grew(before, outcome.0)
    &&& outcome.0.state.system_messages.len() == before.state.system_messages.len() + 1
    &&& command_laws::last_line(outcome.0) == line
}

} // verus!
