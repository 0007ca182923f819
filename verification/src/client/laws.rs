//! What holds of two clients and the server between them.

use vstd::prelude::*;
use vstd::utf8::*;

use crate::client::commands::Command;
use crate::client::files;
use crate::client::history;
use crate::client::history::Direction;
use crate::client::network;
use crate::client::network::{NetCommand, NetCommandView, NetEvent, NetEventView};
use crate::client::session;
use crate::client::session::{Action, ActionView, ClientView, PendingRequest, Then};
use crate::client::tui;
use crate::crypto::identity::IdentityView;
use crate::crypto::primitives;
use crate::crypto::ratchet;
use crate::crypto::x3dh;
use crate::crypto::CryptoError;
use crate::protocol;
use crate::server::handler;
use crate::server::handler::{Answer, Next, Request};
use crate::server::laws;

verus! {

/// The keys that a bundle hands out are those of an identity.
pub open spec fn bundle_is_of(
    responder: IdentityView,
    identity_public_key: Seq<u8>,
    signed_prekey: Seq<u8>,
    signed_prekey_signature: Seq<u8>,
    one_time_prekey: Option<Seq<u8>>,
    otpk_index: Option<u32>,
) -> bool {
    &&& responder.wf()
    &&& identity_public_key == responder.public_key() && identity_public_key.len() == 32
    &&& signed_prekey == responder.spk_public() && signed_prekey.len() == 32
    &&& signed_prekey_signature == responder.spk_signature() && signed_prekey_signature.len() == 64
    &&& one_time_prekey == x3dh::opt_public(session::otpk_of(responder, otpk_index))
    &&& one_time_prekey matches Some(k) ==> k.len() == 32
}

/// A chat request makes one session on both sides. One client asks with the
/// keys of another, the other accepts what was asked: afterwards each reads
/// what the other sends.
pub proof fn law_chat_request_connects(
    initiator: ClientView,
    initiator_after: ClientView,
    responder: ClientView,
    responder_after: ClientView,
    initiator_name: Seq<char>,
    responder_name: Seq<char>,
    identity_public_key: Seq<u8>,
    signed_prekey: Seq<u8>,
    signed_prekey_signature: Seq<u8>,
    one_time_prekey: Option<Seq<u8>>,
    otpk_index: Option<u32>,
    ephemeral: Seq<u8>,
)
    requires
        initiator.identity.wf(),
        ephemeral.len() == 32,
        bundle_is_of(
            responder.identity,
            identity_public_key,
            signed_prekey,
            signed_prekey_signature,
            one_time_prekey,
            otpk_index,
        ),
        session::request_agrees(
            initiator,
            initiator_after,
            NetEvent::BundleReceived {
                username: responder_name,
                identity_public_key,
                signed_prekey,
                signed_prekey_signature,
                one_time_prekey,
                otpk_index,
            },
            ephemeral,
        ),
        session::accept_agrees(responder, responder_after, initiator_name),
        responder.pending.contains_key(initiator_name),
        responder.pending[initiator_name] == (PendingRequest {
            from: initiator_name,
            identity_public_key: initiator.identity.public_key(),
            ephemeral_pub: primitives::x25519_public_of(ephemeral),
            otpk_index,
        }),
        initiator.identity.public_key().len() == 32,
        primitives::x25519_public_of(ephemeral).len() == 32,
    ensures
        initiator_after.sessions.contains_key(responder_name),
        responder_after.sessions.contains_key(initiator_name),
        ratchet::in_step(
            initiator_after.sessions[responder_name],
            responder_after.sessions[initiator_name],
        ),
        ratchet::in_step(
            responder_after.sessions[initiator_name],
            initiator_after.sessions[responder_name],
        ),
{
    let secret = session::agreed_secret(
        initiator.identity.signing_key,
        ephemeral,
        responder.identity,
        otpk_index,
    );
    assert(responder.identity.public_key() == identity_public_key);
    assert(initiator_after.sessions[responder_name] == ratchet::new_session(secret, true));
    assert(responder.pending[initiator_name].identity_public_key == primitives::ed25519_public_of(
        initiator.identity.signing_key,
    ));
    assert(responder_after.sessions[initiator_name] == ratchet::new_session(secret, false));
    ratchet::law_new_sessions_are_in_step(secret);
}

/// What is written is what is read. Two clients have a session in step; one
/// sends a text, the other handles what arrives: the text appears there word
/// for word, and the session is still in step. The text has less than 2^32
/// bytes, as the number in front of a padded payload counts no more.
pub proof fn law_message_is_read_as_written(
    sender: ClientView,
    sender_after: ClientView,
    receiver: ClientView,
    receiver_after: ClientView,
    sender_name: Seq<char>,
    receiver_name: Seq<char>,
    line: Seq<char>,
    nonce: Seq<u8>,
    action: ActionView,
    now: i64,
)
    requires
        line.len() > 0,
        session::survives_padding(line),
        sender.state.active_peer == Some(receiver_name),
        sender.sessions.contains_key(receiver_name),
        receiver.sessions.contains_key(sender_name),
        ratchet::in_step(sender.sessions[receiver_name], receiver.sessions[sender_name]),
        (sender_after, action) == session::message_sent(sender, line, nonce),
        session::readable(sender, action, line),
        action matches Action::Send {
            command: NetCommand::SendMessage { ciphertext, nonce: n, .. },
            ..
        } ==> {
            &&& receiver_after == session::message_received(
                receiver,
                sender_name,
                ciphertext,
                n,
                now,
            )
            &&& session::shown_as_written(
                receiver,
                receiver_after,
                sender_name,
                ciphertext,
                n,
                now,
            )
        },
    ensures
        action is Send,
        receiver_after.state == tui::chatted(receiver.state, sender_name, sender_name, line),
        receiver_after.history == history::recorded(
            receiver.history,
            sender_name,
            Direction::Received,
            line,
            now,
        ),
        ratchet::in_step(
            sender_after.sessions[receiver_name],
            receiver_after.sessions[sender_name],
        ),
        sender_after.sessions[receiver_name].recv == sender.sessions[receiver_name].recv,
        receiver_after.sessions[sender_name].send == receiver.sessions[sender_name].send,
{
    let padded = protocol::padded(encode_utf8(line));
    protocol::law_padding_fills_blocks(encode_utf8(line));
    assert(padded.len() <= primitives::MAX_PLAINTEXT);
    assert(action is Send);
    let command = action->Send_command;
    let ciphertext = command->SendMessage_ciphertext;
    assert(ratchet::in_step(sender.sessions[receiver_name], receiver.sessions[sender_name]));
    assert(ratchet::received(receiver.sessions[sender_name], ciphertext, nonce) == Ok::<
        Seq<u8>,
        CryptoError,
    >(padded));
    ratchet::law_sessions_stay_in_step(
        sender.sessions[receiver_name],
        receiver.sessions[sender_name],
    );
}

/// The server changes nothing on the way: what one client sends to a user that
/// is connected is the event that the other client handles.
pub proof fn law_server_relays_messages(
    sender_name: Seq<char>,
    to: Seq<char>,
    ciphertext: Seq<u8>,
    nonce: Seq<u8>,
    now: i64,
)
    ensures
        ({
            let sent = network::message_of(NetCommand::SendMessage { to, ciphertext, nonce });
            let asked = handler::first_step(Some(sender_name), sent);
            let found = laws::answered(
                Some(sender_name),
                asked,
                Answer::Exists { yes: true },
                now,
            );
            &&& found.next matches Next::Ask { request: Request::Deliver { to: t, message }, .. }
            &&& t == to
            &&& network::event_of(message) == Some(
                NetEvent::<Seq<char>, Seq<u8>>::MessageReceived {
                    from: sender_name,
                    ciphertext,
                    nonce,
                    timestamp: now as u64,
                },
            )
        }),
{
}

/// A chat request reaches the user that it is meant for as it was made: it is
/// pending there under the sender's name, with the sender's keys.
pub proof fn law_server_relays_chat_requests(
    initiator: ClientView,
    responder: ClientView,
    initiator_name: Seq<char>,
    responder_name: Seq<char>,
    identity_public_key: Seq<u8>,
    signed_prekey: Seq<u8>,
    signed_prekey_signature: Seq<u8>,
    one_time_prekey: Option<Seq<u8>>,
    otpk_index: Option<u32>,
    ephemeral: Seq<u8>,
    other: Seq<u8>,
    now: i64,
)
    requires
        x3dh::prekey_signed(identity_public_key, signed_prekey, signed_prekey_signature),
    ensures
        ({
            let action = session::bundle_received(
                initiator,
                responder_name,
                identity_public_key,
                signed_prekey,
                signed_prekey_signature,
                one_time_prekey,
                otpk_index,
                ephemeral,
            ).1;
            let sent = network::message_of(action->Send_command);
            let found = laws::answered(
                Some(initiator_name),
                handler::first_step(Some(initiator_name), sent),
                Answer::Exists { yes: true },
                now,
            );
            &&& found.next matches Next::Ask { request: Request::Deliver { to, message }, .. }
            &&& to == responder_name
            &&& network::event_of(message) matches Some(event)
            &&& session::informed(responder, event, other, now).0.pending
                == responder.pending.insert(
                initiator_name,
                PendingRequest {
                    from: initiator_name,
                    identity_public_key: initiator.identity.public_key(),
                    ephemeral_pub: primitives::x25519_public_of(ephemeral),
                    otpk_index,
                },
            )
        }),
{
}

/// Keys that nobody vouches for are not used: where the signed prekey of a
/// bundle is not signed by its identity key, no session is made or replaced,
/// and nothing is sent.
pub proof fn law_unsigned_prekey_is_refused(
    c: ClientView,
    username: Seq<char>,
    identity_public_key: Seq<u8>,
    signed_prekey: Seq<u8>,
    signed_prekey_signature: Seq<u8>,
    one_time_prekey: Option<Seq<u8>>,
    otpk_index: Option<u32>,
    ephemeral: Seq<u8>,
    now: i64,
)
    requires
        !x3dh::prekey_signed(identity_public_key, signed_prekey, signed_prekey_signature),
    ensures
        ({
            let event = NetEvent::BundleReceived {
                username,
                identity_public_key,
                signed_prekey,
                signed_prekey_signature,
                one_time_prekey,
                otpk_index,
            };
            let (after, action) = session::informed(c, event, ephemeral, now);
            after.sessions == c.sessions && action is Nothing
        }),
{
}

/// Nothing is shown or recorded as sent before it has been sent.
pub proof fn law_message_is_recorded_after_sending(
    c: ClientView,
    line: Seq<char>,
    nonce: Seq<u8>,
    now: i64,
)
    requires
        session::message_sent(c, line, nonce).1 is Send,
    ensures
        ({
            let (after, action) = session::message_sent(c, line, nonce);
            let peer = c.state.active_peer->Some_0;
            &&& after.state == c.state && after.history == c.history
            &&& action->then == (Then::Sent { peer, text: line })
            &&& session::completed(after, action->then, now).state == tui::chatted(
                c.state,
                peer,
                c.state.username,
                line,
            )
        }),
{
}

/// The event that a chunk of a file becomes on its way.
pub open spec fn chunk_event(from: Seq<char>, command: NetCommandView, timestamp: u64) -> NetEventView
{
    NetEvent::FileReceived {
        from,
        filename: command->SendFile_filename,
        chunk_index: command->SendFile_chunk_index,
        total_chunks: command->total_chunks,
        data: command->SendFile_ciphertext,
        nonce: command->SendFile_nonce,
        timestamp,
    }
}

/// The server changes nothing of a file on the way: each chunk that one client
/// sends to a user that is connected is the event that the other client
/// handles.
pub proof fn law_server_relays_files(
    sender_name: Seq<char>,
    command: NetCommandView,
    now: i64,
)
    requires
        command is SendFile,
    ensures
        ({
            let asked = handler::first_step(Some(sender_name), network::message_of(command));
            let found = laws::answered(
                Some(sender_name),
                asked,
                Answer::Exists { yes: true },
                now,
            );
            &&& found.next matches Next::Ask { request: Request::Deliver { to, message }, .. }
            &&& to == command->SendFile_to
            &&& network::event_of(message) == Some(chunk_event(sender_name, command, now as u64))
        }),
{
}

/// Clients that handle the chunks of a file one after the other.
pub open spec fn handles_chunks(
    receivers: Seq<ClientView>,
    actions: Seq<ActionView>,
    from: Seq<char>,
    commands: Seq<NetCommandView>,
    timestamp: u64,
    ephemeral: Seq<u8>,
    now: i64,
) -> bool {
    &&& receivers.len() == commands.len() + 1
    &&& actions.len() == commands.len()
    &&& forall|i: int|
        0 <= i < commands.len() ==> (receivers[i + 1], #[trigger] actions[i]) == session::informed(
            receivers[i],
            chunk_event(from, commands[i], timestamp),
            ephemeral,
            now,
        )
}

proof fn lemma_chunks_move_on(
    receivers: Seq<ClientView>,
    actions: Seq<ActionView>,
    from: Seq<char>,
    commands: Seq<NetCommandView>,
    timestamp: u64,
    ephemeral: Seq<u8>,
    now: i64,
    k: nat,
)
    requires
        handles_chunks(receivers, actions, from, commands, timestamp, ephemeral, now),
        receivers[0].sessions.contains_key(from),
        k <= commands.len(),
    ensures
        receivers[k as int].sessions.contains_key(from),
        receivers[k as int].sessions[from] == ratchet::after_receives(
            receivers[0].sessions[from],
            k,
        ),
    decreases k,
{
    if k > 0 {
        lemma_chunks_move_on(
            receivers,
            actions,
            from,
            commands,
            timestamp,
            ephemeral,
            now,
            (k - 1) as nat,
        );
        let i = k - 1;
        assert((receivers[i + 1], actions[i]) == session::informed(
            receivers[i],
            chunk_event(from, commands[i], timestamp),
            ephemeral,
            now,
        ));
    }
}

/// A file arrives as it was sent. Two clients have a session in step; one sends
/// a file, the other handles the chunks in order: what it writes, chunk by
/// chunk, is the file, under the same name, and the session is still in step.
pub proof fn law_file_arrives_whole(
    sender: ClientView,
    sender_name: Seq<char>,
    receiver_name: Seq<char>,
    path: Seq<char>,
    data: Seq<u8>,
    nonces: Seq<Seq<u8>>,
    receivers: Seq<ClientView>,
    actions: Seq<ActionView>,
    timestamp: u64,
    ephemeral: Seq<u8>,
    now: i64,
)
    requires
        session::file_sent(sender, receiver_name, path, data, nonces).2 is FileSent,
        session::chunks_readable(
            sender.sessions[receiver_name],
            session::file_sent(sender, receiver_name, path, data, nonces).1,
            data,
        ),
        handles_chunks(
            receivers,
            actions,
            sender_name,
            session::file_sent(sender, receiver_name, path, data, nonces).1,
            timestamp,
            ephemeral,
            now,
        ),
        receivers[0].sessions.contains_key(sender_name),
        ratchet::in_step(sender.sessions[receiver_name], receivers[0].sessions[sender_name]),
    ensures
        actions.len() == files::chunk_total(data.len()),
        forall|i: int|
            0 <= i < actions.len() ==> #[trigger] actions[i] == (ActionView::SaveChunk {
                filename: files::name_in(path),
                chunk_index: i as u32,
                data: files::chunk(data, i),
            }),
        files::joined(actions.map_values(|a: ActionView| a->data)) == data,
        ratchet::in_step(
            session::file_sent(
                sender,
                receiver_name,
                path,
                data,
                nonces,
            ).0.sessions[receiver_name],
            receivers.last().sessions[sender_name],
        ),
{
    let (after, commands, then) = session::file_sent(sender, receiver_name, path, data, nonces);
    let sending = sender.sessions[receiver_name];
    let receiving = receivers[0].sessions[sender_name];
    let n = commands.len();
    assert forall|i: int| 0 <= i < actions.len() implies #[trigger] actions[i] == (
    ActionView::SaveChunk {
        filename: files::name_in(path),
        chunk_index: i as u32,
        data: files::chunk(data, i),
    }) by {
        lemma_chunks_move_on(
            receivers,
            actions,
            sender_name,
            commands,
            timestamp,
            ephemeral,
            now,
            i as nat,
        );
        let ready = receivers[i].sessions[sender_name];
        assert(ratchet::in_step(ratchet::after_sends(sending, i as nat), ready));
        files::law_chunks_make_up_the_file(data);
        assert(files::chunks_of(data)[i].len() <= files::FILE_CHUNK);
        protocol::law_padding_is_undone(files::chunk(data, i));
        files::law_name_is_no_path(path);
        assert((receivers[i + 1], actions[i]) == session::informed(
            receivers[i],
            chunk_event(sender_name, commands[i], timestamp),
            ephemeral,
            now,
        ));
    }
    files::law_chunks_make_up_the_file(data);
    assert(actions.map_values(|a: ActionView| a->data) =~= files::chunks_of(data));
    lemma_chunks_move_on(
        receivers,
        actions,
        sender_name,
        commands,
        timestamp,
        ephemeral,
        now,
        n,
    );
}

/// Showing a safety number vouches for nobody: the contacts are as they were,
/// in the store and on the screen, and nothing is sent.
pub proof fn law_showing_a_number_verifies_nobody(
    c: ClientView,
    peer: Option<Seq<char>>,
    nonce: Seq<u8>,
    names: Seq<Seq<char>>,
)
    ensures
        ({
            let (after, action) = session::commanded(c, Command::Verify(peer), nonce, names);
            &&& after.contacts == c.contacts && after.state.contacts == c.state.contacts
            &&& action is Nothing
        }),
{
}

/// Only the user vouches for a contact, with the confirmation: no command and no
/// event makes a contact verified, and the confirmation of one contact verifies
/// no other.
pub proof fn law_only_a_confirmation_verifies(
    c: ClientView,
    event: NetEventView,
    cmd: crate::client::commands::CommandView,
    ephemeral: Seq<u8>,
    now: i64,
    nonce: Seq<u8>,
    names: Seq<Seq<char>>,
    confirmed: Seq<char>,
    username: Seq<char>,
)
    requires
        c.contacts.contains_key(username) ==> !c.contacts[username].verified,
    ensures
        ({
            let after = session::peer_confirmed(c, confirmed).contacts;
            after.contains_key(username) && confirmed != username ==> !after[username].verified
        }),
        ({
            let after = session::commanded(c, cmd, nonce, names).0.contacts;
            after.contains_key(username) ==> !after[username].verified
        }),
        ({
            let after = session::informed(c, event, ephemeral, now).0.contacts;
            after.contains_key(username) ==> !after[username].verified
        }),
{
}

/// A contact that was removed is gone, from the store and from the screen. All
/// others stay.
pub proof fn law_removed_contact_is_gone(c: ClientView, username: Seq<char>)
    ensures
        ({
            let after = session::contact_removed(c, username);
            &&& after.contacts.dom() =~= c.contacts.dom().remove(username)
            &&& forall|other: Seq<char>|
                other != username && c.contacts.contains_key(other)
                    ==> #[trigger] after.contacts[other] == c.contacts[other]
            &&& !tui::listed(after.state.contacts, username)
            &&& forall|d: tui::DisplayView|
                d.username != username ==> (#[trigger] after.state.contacts.contains(d)
                    <==> c.state.contacts.contains(d))
            &&& after.state.active_peer != Some(username) || after == session::noted(
                c,
                "Contact not found: "@ + username,
            )
        }),
{
    tui::lemma_without(c.state.contacts, username);
}

/// A locked screen is unlocked by the password and by nothing else, neither by
/// a key nor by what the network brings.
pub proof fn law_only_the_password_unlocks(
    c: ClientView,
    key: tui::KeyEvent,
    attempt: Seq<char>,
    event: NetEventView,
    ephemeral: Seq<u8>,
    now: i64,
)
    requires
        c.state.locked,
    ensures
        tui::pressed(c.state, key).0.locked,
        session::informed(c, event, ephemeral, now).0.state.locked,
        session::unlock_tried(c, attempt).state.locked <==> attempt != c.history.password,
{
}

/// A text never leaves the client in the clear, nor without a session: what is
/// sent to a user is sealed with the next key of the session with that user.
pub proof fn law_messages_leave_sealed(
    c: ClientView,
    cmd: crate::client::commands::CommandView,
    nonce: Seq<u8>,
    names: Seq<Seq<char>>,
)
    ensures
        session::commanded(c, cmd, nonce, names).1 matches Action::Send {
            command: NetCommand::SendMessage { to, ciphertext, nonce: n },
            ..
        } ==> {
            &&& cmd matches Command::Message(line)
            &&& c.sessions.contains_key(to) && c.state.active_peer == Some(to) && n == nonce
            &&& ciphertext == primitives::xchacha_sealed(
                ratchet::message_key(c.sessions[to].send),
                nonce,
                protocol::padded(encode_utf8(line)),
            )
        },
{
}

/// A request that was rejected leaves no session behind on either side.
pub proof fn law_rejection_leaves_no_session(
    initiator: ClientView,
    responder: ClientView,
    initiator_name: Seq<char>,
    responder_name: Seq<char>,
    ephemeral: Seq<u8>,
    now: i64,
)
    ensures
        !session::informed(
            initiator,
            NetEvent::ChatRequestRejected { from: responder_name },
            ephemeral,
            now,
        ).0.sessions.contains_key(responder_name),
        session::request_rejected(responder, initiator_name).0.sessions == responder.sessions,
        !session::request_rejected(responder, initiator_name).0.pending.contains_key(
            initiator_name,
        ),
{
}

/// After the emergency word nothing is left in memory of sessions, contacts,
/// requests, history and chats, the files are destroyed, and the client quits.
pub proof fn law_panic_ends_everything(
    c: ClientView,
    nonce: Seq<u8>,
    names: Seq<Seq<char>>,
)
    ensures
        ({
            let (after, action) = session::commanded(c, Command::Panic, nonce, names);
            &&& after.sessions.dom() =~= Set::empty()
            &&& after.contacts.dom() =~= Set::empty()
            &&& after.pending.dom() =~= Set::empty()
            &&& history::whole(after.history).len() == 0 && !after.history.dirty
            &&& after.state.contacts.len() == 0
            &&& after.state.messages.dom() =~= Set::empty()
            &&& after.state.input_history.len() == 0
            &&& after.state.should_quit
            &&& after.state.active_peer is None && after.state.selected_contact is None
            &&& after.state.system_messages.len() == 1
            &&& after.history.password == c.history.password
            &&& action is Panic
        }),
{
}

/// Only the user ends the client: no event of the network makes it quit, and
/// of the commands only the two that are meant to.
pub proof fn law_only_the_user_quits(
    c: ClientView,
    event: crate::client::network::NetEventView,
    cmd: crate::client::commands::CommandView,
    ephemeral: Seq<u8>,
    now: i64,
    nonce: Seq<u8>,
    names: Seq<Seq<char>>,
)
    requires
        !c.state.should_quit,
    ensures
        !session::informed(c, event, ephemeral, now).0.state.should_quit,
        session::commanded(c, cmd, nonce, names).0.state.should_quit <==> (cmd is Quit
            || cmd is Panic),
{
}

// ── From one client to the other ────────────────────────────

/// The event that comes of a message which one client wants handed to another:
/// the server asks itself who is meant, finds `answer`, and hands the message
/// to that user's connection.
pub open spec fn event_at(
    sender: Seq<char>,
    command: NetCommandView,
    answer: Answer<Seq<char>, Seq<u8>>,
    now: i64,
    to: Seq<char>,
) -> Option<NetEventView> {
    let first = handler::first_step(Some(sender), network::message_of(command));
    let step = match first.next {
        Next::Ask { request: Request::Deliver { .. }, .. } => first,
        _ => laws::answered(Some(sender), first, answer, now),
    };
    match step.next {
        Next::Ask { request: Request::Deliver { to: t, message }, .. } => if t == to {
            network::event_of(message)
        } else {
            None
        },
        _ => None,
    }
}

/// What a user accepts arrives as accepted: the sender of the request gets to know
/// the user by name, with the identity key that the server has for that name;
/// the session stays, and the user becomes a contact with that key.
pub proof fn law_acceptance_arrives(
    responder: ClientView,
    responder_name: Seq<char>,
    initiator: ClientView,
    initiator_name: Seq<char>,
    key: Seq<u8>,
    nonce: Seq<u8>,
    names: Seq<Seq<char>>,
    ephemeral: Seq<u8>,
    now: i64,
)
    requires
        responder.pending.contains_key(initiator_name),
    ensures
        ({
            let action = session::commanded(
                responder,
                Command::Accept(initiator_name),
                nonce,
                names,
            ).1;
            let asked = handler::first_step(
                Some(responder_name),
                network::message_of(action->Send_command),
            );
            let event = event_at(
                responder_name,
                action->Send_command,
                Answer::IdentityKey { key: Some(key) },
                now,
                initiator_name,
            );
            &&& action is Send
            &&& asked.next matches Next::Ask { request: Request::IdentityKey { username }, .. }
                && username == responder_name
            &&& event == Some(
                NetEvent::<Seq<char>, Seq<u8>>::ChatRequestAccepted {
                    from: responder_name,
                    identity_public_key: key,
                },
            )
            &&& ({
                let after = session::informed(initiator, event->Some_0, ephemeral, now).0;
                &&& after.sessions == initiator.sessions
                &&& after.contacts.contains_key(responder_name)
                &&& after.contacts[responder_name].identity_key == Some(key)
            })
        }),
{
}

/// What a user rejects arrives as rejected: the sender of the request gets to know
/// who has rejected, and has no session with that user any more.
pub proof fn law_rejection_arrives(
    responder: ClientView,
    responder_name: Seq<char>,
    initiator: ClientView,
    initiator_name: Seq<char>,
    answer: Answer<Seq<char>, Seq<u8>>,
    nonce: Seq<u8>,
    names: Seq<Seq<char>>,
    ephemeral: Seq<u8>,
    now: i64,
)
    requires
        responder.pending.contains_key(initiator_name),
    ensures
        ({
            let action = session::commanded(
                responder,
                Command::Reject(initiator_name),
                nonce,
                names,
            ).1;
            let event = event_at(
                responder_name,
                action->Send_command,
                answer,
                now,
                initiator_name,
            );
            &&& action is Send
            &&& event == Some(
                NetEvent::<Seq<char>, Seq<u8>>::ChatRequestRejected { from: responder_name },
            )
            &&& session::informed(initiator, event->Some_0, ephemeral, now).0.sessions
                == initiator.sessions.remove(responder_name)
        }),
{
}

/// Nobody hears anything else than what was sent: of all that a client can ask
/// for, only an acceptance arrives as an acceptance, only a rejection as a
/// rejection, a request as a request, a message as a message, and a file as a
/// file; and it comes from the sender, whatever the server finds.
pub proof fn law_nothing_arrives_as_something_else(
    sender: Seq<char>,
    command: NetCommandView,
    answer: Answer<Seq<char>, Seq<u8>>,
    now: i64,
    to: Seq<char>,
)
    ensures
        match event_at(sender, command, answer, now, to) {
            Some(NetEvent::ChatRequestAccepted { from, .. }) => from == sender && command
                == NetCommandView::ChatAccept { to },
            Some(NetEvent::ChatRequestRejected { from }) => from == sender && command
                == NetCommandView::ChatReject { to },
            Some(NetEvent::IncomingChatRequest { from, .. }) => from == sender && command
                is ChatRequest && command->ChatRequest_to == to,
            Some(NetEvent::MessageReceived { from, .. }) => from == sender && command
                is SendMessage && command->SendMessage_to == to,
            Some(NetEvent::FileReceived { from, .. }) => from == sender && command is SendFile
                && command->SendFile_to == to,
            Some(_) => false,
            None => true,
        },
{
}

/// A bundle that the server answers for an identity leads to one session on both
/// sides. The initiator handles what the server wrote, and sends what comes of
/// it; the responder handles what the server hands over, and accepts: then each
/// reads what the other sends.
pub proof fn law_bundle_leads_to_a_common_session(
    initiator: ClientView,
    initiator_after: ClientView,
    responder: ClientView,
    responder_after: ClientView,
    initiator_name: Seq<char>,
    responder_name: Seq<char>,
    identity_public_key: Seq<u8>,
    signed_prekey: Seq<u8>,
    signed_prekey_signature: Seq<u8>,
    one_time_prekey: Option<Seq<u8>>,
    otpk_index: Option<u32>,
    ephemeral: Seq<u8>,
    other: Seq<u8>,
    now: i64,
)
    requires
        initiator.identity.wf(),
        ephemeral.len() == 32,
        bundle_is_of(
            responder.identity,
            identity_public_key,
            signed_prekey,
            signed_prekey_signature,
            one_time_prekey,
            otpk_index,
        ),
        x3dh::prekey_signed(identity_public_key, signed_prekey, signed_prekey_signature),
        initiator.identity.public_key().len() == 32,
        primitives::x25519_public_of(ephemeral).len() == 32,
        ({
            let answered = laws::answered(
                Some(initiator_name),
                handler::first_step(
                    Some(initiator_name),
                    network::message_of(NetCommand::FetchBundle { target: responder_name }),
                ),
                Answer::Bundle {
                    identity_public_key,
                    signed_prekey,
                    signed_prekey_signature,
                    one_time_prekey,
                    otpk_index,
                },
                now,
            );
            let read = network::event_of(answered.effects[0]->Reply_0)->Some_0;
            let sent = session::informed(initiator, read, ephemeral, now).1->Send_command;
            let asked = event_at(
                initiator_name,
                sent,
                Answer::Exists { yes: true },
                now,
                responder_name,
            )->Some_0;
            let waiting = session::informed(responder, asked, other, now).0;
            &&& initiator_after == session::informed(initiator, read, ephemeral, now).0
            &&& session::request_agrees(initiator, initiator_after, read, ephemeral)
            &&& responder_after == session::request_accepted(waiting, initiator_name).0
            &&& session::accept_agrees(waiting, responder_after, initiator_name)
        }),
    ensures
        initiator_after.sessions.contains_key(responder_name),
        responder_after.sessions.contains_key(initiator_name),
        ratchet::in_step(
            initiator_after.sessions[responder_name],
            responder_after.sessions[initiator_name],
        ),
        ratchet::in_step(
            responder_after.sessions[initiator_name],
            initiator_after.sessions[responder_name],
        ),
{
    let bundle = NetEvent::<Seq<char>, Seq<u8>>::BundleReceived {
        username: responder_name,
        identity_public_key,
        signed_prekey,
        signed_prekey_signature,
        one_time_prekey,
        otpk_index,
    };
    let answered = laws::answered(
        Some(initiator_name),
        handler::first_step(
            Some(initiator_name),
            network::message_of(NetCommand::FetchBundle { target: responder_name }),
        ),
        Answer::Bundle {
            identity_public_key,
            signed_prekey,
            signed_prekey_signature,
            one_time_prekey,
            otpk_index,
        },
        now,
    );
    let read = network::event_of(answered.effects[0]->Reply_0)->Some_0;
    assert(read == bundle);
    let sent = session::informed(initiator, read, ephemeral, now).1->Send_command;
    let asked = event_at(
        initiator_name,
        sent,
        Answer::Exists { yes: true },
        now,
        responder_name,
    )->Some_0;
    let waiting = session::informed(responder, asked, other, now).0;
    law_chat_request_connects(
        initiator,
        initiator_after,
        waiting,
        responder_after,
        initiator_name,
        responder_name,
        identity_public_key,
        signed_prekey,
        signed_prekey_signature,
        one_time_prekey,
        otpk_index,
        ephemeral,
    );
}

/// A user is let in by the password that was registered with: what a client sends
/// to register and what it sends to log in hold the same name and the same
/// hash, and the server registers and asks for just these.
pub proof fn law_login_matches_registration(
    identity: IdentityView,
    username: Seq<char>,
    password: Seq<char>,
    me: Option<Seq<char>>,
)
    ensures
        ({
            let registering = handler::first_step(
                me,
                network::message_of(session::first_command(identity, true, username, password)),
            );
            let logging_in = handler::first_step(
                me,
                network::message_of(session::first_command(identity, false, username, password)),
            );
            &&& registering.next matches Next::Ask {
                request: Request::RegisterUser { username: u, password_hash: h, .. },
                ..
            }
            &&& logging_in.next matches Next::Ask {
                request: Request::Authenticate { username: v, password_hash: g },
                ..
            }
            &&& u == username && v == username && h == g
            &&& h == primitives::sha256_of(
                encode_utf8("ZeroSum_PasswordHash_"@) + encode_utf8(password),
            )
        }),
{
}

} // verus!
