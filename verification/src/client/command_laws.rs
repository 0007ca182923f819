//! What each command of the user comes to: what changes, what stays, and what
//! is sent.

use vstd::prelude::*;
use vstd::utf8::*;

use crate::client::commands::{Command, CommandView};
use crate::client::contacts::Contact;
use crate::client::files;
use crate::client::history;
use crate::client::history::{Direction, HistoryView};
use crate::client::network::{NetCommand, NetCommandView};
use crate::client::session;
use crate::client::session::{Action, ActionView, ClientView, PendingView, Then};
use crate::client::tui;
use crate::client::tui::{AppView, ContactDisplay, LineView};
use crate::crypto::encrypt;
use crate::crypto::fingerprint;
use crate::crypto::identity::IdentityView;
use crate::crypto::primitives;
use crate::crypto::ratchet;
use crate::crypto::x3dh;
use crate::protocol;
use crate::text;

verus! {

/// Whether the log of a client goes on from that of an earlier one.
pub open spec fn log_goes_on(before: ClientView, after: ClientView) -> bool {
    let old_log = before.state.system_messages;
    let new_log = after.state.system_messages;
    &&& old_log.len() <= new_log.len()
    &&& new_log.take(old_log.len() as int) == old_log
}

/// Whether a client is an earlier one, but for more lines in its log.
pub open spec fn only_log_grew(before: ClientView, after: ClientView) -> bool {
    &&& log_goes_on(before, after)
    &&& after == (ClientView {
        state: AppView { system_messages: after.state.system_messages, ..before.state },
        ..before
    })
}

/// The last line of the log.
pub open spec fn last_line(c: ClientView) -> Seq<char> {
    c.state.system_messages.last().content
}

proof fn lemma_noted(c: ClientView, line: Seq<char>)
    ensures
        only_log_grew(c, session::noted(c, line)),
        last_line(session::noted(c, line)) == line,
        session::noted(c, line).state.system_messages.len() == c.state.system_messages.len() + 1,
        session::noted(c, line).state.system_messages.last() == (LineView {
            sender: "system"@,
            content: line,
            is_system: true,
        }),
{
    let log = c.state.system_messages;
    assert(session::noted(c, line).state.system_messages.take(log.len() as int) =~= log);
}

proof fn lemma_noted_all(c: ClientView, lines: Seq<Seq<char>>)
    ensures
        only_log_grew(c, session::noted_all(c, lines)),
        session::noted_all(c, lines).state.system_messages.len() == c.state.system_messages.len()
            + lines.len(),
        forall|i: int|
            0 <= i < lines.len() ==> (#[trigger] session::noted_all(
                c,
                lines,
            ).state.system_messages[c.state.system_messages.len() + i]).content == lines[i],
{
    let log = c.state.system_messages;
    assert(session::noted_all(c, lines).state.system_messages.take(log.len() as int) =~= log);
}

/// A line that the client notes stands at the end of the log; nothing else
/// changes.
pub proof fn law_notes_go_to_the_log(c: ClientView, line: Seq<char>, lines: Seq<Seq<char>>)
    ensures
        only_log_grew(c, session::noted(c, line)),
        last_line(session::noted(c, line)) == line,
        session::noted(c, line).state.system_messages.len() == c.state.system_messages.len() + 1,
        only_log_grew(c, session::noted_all(c, lines)),
        session::noted_all(c, lines).state.system_messages.len() == c.state.system_messages.len()
            + lines.len(),
{
    lemma_noted(c, line);
    lemma_noted_all(c, lines);
}

// ── What commands leave alone ───────────────────────────────

/// Each part of the client is changed by the commands that are about it, and by
/// no others. The identity is changed by none.
pub proof fn law_commands_mind_their_own_business(
    c: ClientView,
    cmd: CommandView,
    nonce: Seq<u8>,
    names: Seq<Seq<char>>,
)
    ensures
        ({
            let after = session::commanded(c, cmd, nonce, names).0;
            &&& after.identity == c.identity
            &&& after.state.username == c.state.username
            &&& after.state.connected == c.state.connected
            &&& !(cmd is Message || cmd is Accept || cmd is Panic) ==> after.sessions
                == c.sessions
            &&& !(cmd is Accept || cmd is Remove || cmd is Alias || cmd is Panic)
                ==> after.contacts == c.contacts
            &&& !(cmd is Accept || cmd is Reject || cmd is Panic) ==> after.pending == c.pending
            &&& !(cmd is History || cmd is Purge || cmd is Panic) ==> after.history == c.history
            &&& !(cmd is Clear || cmd is Panic) ==> after.state.messages == c.state.messages
            &&& !(cmd is Select || cmd is Remove || cmd is Panic) ==> after.state.active_peer
                == c.state.active_peer
            &&& !(cmd is Accept || cmd is Select || cmd is Remove || cmd is Alias || cmd is Panic)
                ==> after.state.contacts == c.state.contacts
            &&& !(cmd is Lock || cmd is Unlock) ==> after.state.locked == c.state.locked
            &&& !(cmd is Lock) ==> after.state.input == c.state.input
            &&& !(cmd is Quit || cmd is Panic) ==> after.state.should_quit == c.state.should_quit
            &&& !(cmd is History) ==> after.state.history_enabled == c.state.history_enabled
            &&& !(cmd is Help || cmd is Lock) ==> after.state.show_help == c.state.show_help
            &&& !(cmd is Clear || cmd is Panic) ==> log_goes_on(c, after)
        }),
{
    let after = session::commanded(c, cmd, nonce, names).0;
    let log = c.state.system_messages;
    if !(cmd is Clear || cmd is Panic) {
        assert(after.state.system_messages.take(log.len() as int) =~= log);
    }
}

/// What has to be done for a command is what that command is about: a message is
/// sent for a message, a request for a request, and so on; nothing is sent,
/// read or destroyed for any other.
pub proof fn law_actions_belong_to_their_commands(
    c: ClientView,
    cmd: CommandView,
    nonce: Seq<u8>,
    names: Seq<Seq<char>>,
)
    ensures
        ({
            let action = session::commanded(c, cmd, nonce, names).1;
            &&& action matches Action::Send { command, .. } ==> {
                ||| cmd is Message && command is SendMessage
                ||| cmd is Request && command is FetchBundle
                ||| cmd is Accept && command is ChatAccept
                ||| cmd is Reject && command is ChatReject
            }
            &&& action is ReadFile ==> cmd is File
            &&& action is PurgeHistory <==> cmd is Purge
            &&& action is Panic <==> cmd is Panic
            &&& !(action is SaveChunk)
        }),
{
}

// ── Messages and requests ───────────────────────────────────

/// A message goes to the chat on the screen, sealed with the next key of the
/// session with that user, and the session moves on by one message; no other
/// session does. What follows once it has been sent is to show and record these
/// very words.
pub proof fn law_message_goes_to_the_active_chat(
    c: ClientView,
    line: Seq<char>,
    nonce: Seq<u8>,
    names: Seq<Seq<char>>,
    peer: Seq<char>,
    other: Seq<char>,
)
    requires
        line.len() > 0,
        c.state.active_peer == Some(peer),
        c.sessions.contains_key(peer),
        c.sessions[peer].send.counter < u32::MAX,
        protocol::padded(encode_utf8(line)).len() <= primitives::MAX_PLAINTEXT,
    ensures
        ({
            let (after, action) = session::commanded(c, Command::Message(line), nonce, names);
            let chain = c.sessions[peer].send;
            &&& action == (ActionView::Send {
                command: NetCommand::SendMessage {
                    to: peer,
                    ciphertext: primitives::xchacha_sealed(
                        primitives::hkdf_key(chain.chain_key, encode_utf8("ZeroSum_MsgKey"@)),
                        nonce,
                        protocol::padded(encode_utf8(line)),
                    ),
                    nonce,
                },
                then: Then::Sent { peer, text: line },
            })
            &&& after.sessions.dom() == c.sessions.dom()
            &&& after.sessions[peer].send.chain_key == primitives::hkdf_key(
                chain.chain_key,
                encode_utf8("ZeroSum_ChainKey"@),
            )
            &&& after.sessions[peer].send.counter == chain.counter + 1
            &&& after.sessions[peer].recv == c.sessions[peer].recv
            &&& other != peer && c.sessions.contains_key(other) ==> after.sessions[other]
                == c.sessions[other]
            &&& after == (ClientView { sessions: after.sessions, ..c })
        }),
{
    let after = session::commanded(c, Command::Message(line), nonce, names).0;
    assert(after.sessions.dom() =~= c.sessions.dom());
}

/// Where there is no chat on the screen, or no session with that user, nothing is
/// sent and nothing changes; the user is told. An empty line is nothing at all.
pub proof fn law_message_needs_a_chat_and_a_session(
    c: ClientView,
    line: Seq<char>,
    nonce: Seq<u8>,
    names: Seq<Seq<char>>,
)
    ensures
        ({
            let (after, action) = session::commanded(c, Command::Message(line), nonce, names);
            &&& line.len() == 0 ==> after == c && action is Nothing
            &&& line.len() > 0 && (match c.state.active_peer {
                None => true,
                Some(peer) => !c.sessions.contains_key(peer),
            }) ==> only_log_grew(c, after) && after.state.system_messages.len()
                == c.state.system_messages.len() + 1 && action is Nothing
            &&& line.len() > 0 && c.state.active_peer is None ==> last_line(after)
                == "No contact selected. Use /select <username>"@
            &&& line.len() > 0 && (c.state.active_peer matches Some(peer)
                && !c.sessions.contains_key(peer)) ==> last_line(after) == "No session with "@
                + c.state.active_peer->Some_0 + ". Use /request "@ + c.state.active_peer->Some_0
                + " first."@
        }),
{
    lemma_noted(c, "No contact selected. Use /select <username>"@);
    if let Some(peer) = c.state.active_peer {
        lemma_noted(c, session::no_session_line(peer));
    }
}

/// A chat request begins with asking the server for that user's keys; nothing is
/// changed yet.
pub proof fn law_request_asks_for_that_users_keys(
    c: ClientView,
    target: Seq<char>,
    nonce: Seq<u8>,
    names: Seq<Seq<char>>,
)
    ensures
        ({
            let (after, action) = session::commanded(c, Command::Request(target), nonce, names);
            &&& action == (ActionView::Send {
                command: NetCommand::FetchBundle { target },
                then: Then::Nothing,
            })
            &&& only_log_grew(c, after)
        }),
{
    lemma_noted(c, "Sending chat request to "@ + target + "..."@);
}

/// The key that an index of a request stands for is the one-time prekey with that
/// index; without an index there is none.
pub proof fn law_index_names_its_prekey(identity: IdentityView, index: Option<u32>)
    ensures
        index matches Some(i) ==> {
            &&& i < identity.one_time_prekeys.len() ==> session::otpk_of(identity, index) == Some(
                identity.one_time_prekeys[i as int],
            )
            &&& i >= identity.one_time_prekeys.len() ==> session::otpk_of(identity, index) is None
        },
        index is None ==> session::otpk_of(identity, index) is None,
{
}

/// The secret that follows from a request comes from the own identity, the own
/// signed prekey and the prekey that the request names, on this side, and from
/// the identity and the ephemeral key of the request, on the other.
pub proof fn law_request_secret_uses_the_requests_keys(
    identity: IdentityView,
    request: PendingView,
)
    requires
        request.identity_public_key.len() == 32,
        request.ephemeral_pub.len() == 32,
    ensures
        ({
            let own = x3dh::x25519_secret(identity.signing_key);
            let theirs = x3dh::x25519_identity(request.identity_public_key);
            session::request_secret(identity, request) == primitives::hkdf_key(
                Seq::new(32, |i: int| 0xffu8) + primitives::x25519_shared_with(
                    identity.signed_prekey,
                    theirs,
                ) + primitives::x25519_shared_with(own, request.ephemeral_pub)
                    + primitives::x25519_shared_with(identity.signed_prekey, request.ephemeral_pub)
                    + (match request.otpk_index {
                    Some(i) => if i < identity.one_time_prekeys.len() {
                        primitives::x25519_shared_with(
                            identity.one_time_prekeys[i as int],
                            request.ephemeral_pub,
                        )
                    } else {
                        Seq::<u8>::empty()
                    },
                    None => Seq::<u8>::empty(),
                }),
                encode_utf8("ZeroSum_X3DH_SharedSecret"@),
            )
        }),
{
    x3dh::law_answer_comes_from_all_exchanges(
        x3dh::x25519_secret(identity.signing_key),
        identity.signed_prekey,
        session::otpk_of(identity, request.otpk_index),
        x3dh::x25519_identity(request.identity_public_key),
        request.ephemeral_pub,
    );
}

/// A key of 32 bytes is taken as it is; in place of anything else there are
/// zeros, or nothing.
pub proof fn law_keys_have_full_length(key: Seq<u8>)
    ensures
        session::key32(key).len() == 32,
        key.len() == 32 ==> session::key32(key) == key,
        key.len() != 32 ==> session::key32(key) == Seq::new(32, |i: int| 0u8),
        key.len() == 32 ==> session::some_key32(Some(key)) == Some(key),
        key.len() != 32 ==> session::some_key32(Some(key)) is None,
        session::some_key32(None) is None,
{
}

/// Accepting a request makes the session that follows from it, makes the sender a
/// contact with the key of the request, in the store and on the screen, takes
/// the request off, and tells the sender. Nobody else is affected.
pub proof fn law_accepting_makes_a_session(
    c: ClientView,
    from: Seq<char>,
    nonce: Seq<u8>,
    names: Seq<Seq<char>>,
    other: Seq<char>,
)
    requires
        c.pending.contains_key(from),
    ensures
        ({
            let (after, action) = session::commanded(c, Command::Accept(from), nonce, names);
            let key = c.pending[from].identity_public_key;
            let made = after.sessions[from];
            let secret = session::request_secret(c.identity, c.pending[from]);
            &&& action == (ActionView::Send {
                command: NetCommand::ChatAccept { to: from },
                then: Then::Accepted { from },
            })
            &&& after.pending == c.pending.remove(from)
            &&& after.sessions.dom() == c.sessions.dom().insert(from)
            &&& made.send.chain_key == primitives::hkdf_key(
                secret,
                encode_utf8("ZeroSum_RecvChain"@),
            )
            &&& made.recv.chain_key == primitives::hkdf_key(
                secret,
                encode_utf8("ZeroSum_SendChain"@),
            )
            &&& made.send.counter == 0 && made.recv.counter == 0 && made.established
            &&& after.contacts.dom() == c.contacts.dom().insert(from)
            &&& after.contacts[from].identity_key == Some(key)
            &&& after.contacts[from].verified ==> c.contacts.contains_key(from)
                && c.contacts[from].verified
            &&& c.contacts.contains_key(from) && c.contacts[from].identity_key is Some
                && c.contacts[from].identity_key != Some(key) ==> !after.contacts[from].verified
            &&& tui::listed(after.state.contacts, from)
            &&& tui::listed(c.state.contacts, from) ==> after.state.contacts == c.state.contacts
            &&& !tui::listed(c.state.contacts, from) ==> after.state.contacts
                == c.state.contacts.push(
                ContactDisplay {
                    username: from,
                    alias: None,
                    online: true,
                    verified: false,
                    unread: 0,
                },
            )
            &&& other != from && c.sessions.contains_key(other) ==> after.sessions[other]
                == c.sessions[other]
            &&& other != from && c.contacts.contains_key(other) ==> after.contacts[other]
                == c.contacts[other]
            &&& after == (ClientView {
                state: AppView { contacts: after.state.contacts, ..c.state },
                sessions: after.sessions,
                contacts: after.contacts,
                pending: after.pending,
                ..c
            })
        }),
{
    let (after, action) = session::commanded(c, Command::Accept(from), nonce, names);
    assert(after.sessions.dom() =~= c.sessions.dom().insert(from));
    assert(after.contacts.dom() =~= c.contacts.dom().insert(from));
    tui::law_position_is_the_first_entry(c.state.contacts, from);
    tui::law_position_is_the_first_entry(after.state.contacts, from);
    if !tui::listed(c.state.contacts, from) {
        let n = c.state.contacts.len() as int;
        assert(after.state.contacts[n].username == from);
    }
}

/// Rejecting a request takes it off and tells the sender; no session is made and
/// no contact.
pub proof fn law_rejecting_makes_nothing(
    c: ClientView,
    from: Seq<char>,
    nonce: Seq<u8>,
    names: Seq<Seq<char>>,
)
    requires
        c.pending.contains_key(from),
    ensures
        ({
            let (after, action) = session::commanded(c, Command::Reject(from), nonce, names);
            &&& action == (ActionView::Send {
                command: NetCommand::ChatReject { to: from },
                then: Then::Rejected { from },
            })
            &&& after == (ClientView { pending: c.pending.remove(from), ..c })
        }),
{
}

/// Nobody is answered who has not asked: without a pending request of that user,
/// accepting and rejecting do nothing, and the user is told.
pub proof fn law_only_pending_requests_are_answered(
    c: ClientView,
    from: Seq<char>,
    nonce: Seq<u8>,
    names: Seq<Seq<char>>,
)
    requires
        !c.pending.contains_key(from),
    ensures
        ({
            let accepted = session::commanded(c, Command::Accept(from), nonce, names);
            let rejected = session::commanded(c, Command::Reject(from), nonce, names);
            &&& accepted.1 is Nothing && rejected.1 is Nothing
            &&& only_log_grew(c, accepted.0) && only_log_grew(c, rejected.0)
            &&& last_line(rejected.0) == "No pending request from "@ + from + "."@
            &&& last_line(accepted.0) == "No pending request from "@ + from
                + ". Use /requests to see pending."@
        }),
{
    lemma_noted(c, "No pending request from "@ + from + "."@);
    lemma_noted(c, "No pending request from "@ + from + ". Use /requests to see pending."@);
}

// ── Contacts ────────────────────────────────────────────────

/// Whoever is a contact or has a session can be put on the screen: the chat is the
/// active one, its entry is the selected one and has nothing unread, and no
/// other entry changes. Anybody else cannot.
pub proof fn law_selecting_opens_a_chat(
    c: ClientView,
    username: Seq<char>,
    nonce: Seq<u8>,
    names: Seq<Seq<char>>,
    i: int,
)
    requires
        0 <= i < c.state.contacts.len(),
        c.state.contacts.len() <= usize::MAX,
    ensures
        ({
            let (after, action) = session::commanded(c, Command::Select(username), nonce, names);
            let known = c.sessions.contains_key(username) || c.contacts.contains_key(username);
            let at = tui::position(c.state.contacts, username);
            &&& action is Nothing
            &&& !known ==> only_log_grew(c, after)
            &&& known ==> after.state.active_peer == Some(username)
            &&& known && tui::listed(c.state.contacts, username) ==> {
                &&& after.state.selected_contact == Some(at as usize)
                &&& after.state.contacts.len() == c.state.contacts.len()
                &&& after.state.contacts[i] == (ContactDisplay {
                    unread: if i == at {
                        0
                    } else {
                        c.state.contacts[i].unread
                    },
                    ..c.state.contacts[i]
                })
            }
            &&& known && !tui::listed(c.state.contacts, username) ==> after.state.contacts
                == c.state.contacts && after.state.selected_contact == c.state.selected_contact
            &&& known ==> after == (ClientView {
                state: AppView {
                    active_peer: after.state.active_peer,
                    selected_contact: after.state.selected_contact,
                    contacts: after.state.contacts,
                    ..c.state
                },
                ..c
            })
        }),
{
    tui::law_position_is_the_first_entry(c.state.contacts, username);
    lemma_noted(c, username + " is not a contact. Use /request "@ + username + " first."@);
}

/// An alias is kept with its contact and shown on the screen; nothing else of any
/// contact changes.
pub proof fn law_alias_belongs_to_its_contact(
    c: ClientView,
    username: Seq<char>,
    alias: Seq<char>,
    nonce: Seq<u8>,
    names: Seq<Seq<char>>,
    other: Seq<char>,
    i: int,
)
    requires
        0 <= i < c.state.contacts.len(),
    ensures
        ({
            let (after, action) = session::commanded(
                c,
                Command::Alias(username, alias),
                nonce,
                names,
            );
            &&& action is Nothing
            &&& after.contacts.dom() == c.contacts.dom()
            &&& c.contacts.contains_key(username) ==> after.contacts[username] == (Contact {
                alias: Some(alias),
                ..c.contacts[username]
            })
            &&& other != username && c.contacts.contains_key(other) ==> after.contacts[other]
                == c.contacts[other]
            &&& after.state.contacts.len() == c.state.contacts.len()
            &&& after.state.contacts[i] == (ContactDisplay {
                alias: if i == tui::position(c.state.contacts, username) {
                    Some(alias)
                } else {
                    c.state.contacts[i].alias
                },
                ..c.state.contacts[i]
            })
            &&& only_log_grew(
                ClientView {
                    contacts: after.contacts,
                    state: AppView { contacts: after.state.contacts, ..c.state },
                    ..c
                },
                after,
            )
        }),
{
    let after = session::commanded(c, Command::Alias(username, alias), nonce, names).0;
    tui::law_position_is_the_first_entry(c.state.contacts, username);
    assert(after.contacts.dom() =~= c.contacts.dom());
    lemma_noted(
        ClientView {
            contacts: after.contacts,
            state: AppView { contacts: after.state.contacts, ..c.state },
            ..c
        },
        "Alias: "@ + username + " → "@ + alias,
    );
    assert(after.state.contacts[i].username == c.state.contacts[i].username);
}

/// What is shown for comparing is the safety number of the own identity key and
/// the key that is stored for the contact that was named, or else for the chat
/// on the screen. Without a contact or a key there is none.
pub proof fn law_safety_number_is_of_both_keys(
    c: ClientView,
    maybe_peer: Option<Seq<char>>,
    nonce: Seq<u8>,
    names: Seq<Seq<char>>,
    peer: Seq<char>,
)
    requires
        peer.len() > 0,
        maybe_peer == Some(peer) || (maybe_peer is None && c.state.active_peer == Some(peer)),
    ensures
        ({
            let (after, action) = session::commanded(c, Command::Verify(maybe_peer), nonce, names);
            let n = c.state.system_messages.len() as int;
            &&& action is Nothing && only_log_grew(c, after)
            &&& !c.contacts.contains_key(peer) ==> last_line(after) == "Contact not found: "@
                + peer
            &&& c.contacts.contains_key(peer) ==> match c.contacts[peer].identity_key {
                None => last_line(after) == "No key known for "@ + peer + "."@,
                Some(key) => after.state.system_messages.len() == n + 2
                    && after.state.system_messages[n].content == "Safety number with "@ + peer
                    + ": "@ + fingerprint::safety_text(
                    primitives::ed25519_public_of(c.identity.signing_key),
                    key,
                ),
            }
        }),
{
    let log = c.state.system_messages;
    let after = session::commanded(c, Command::Verify(maybe_peer), nonce, names).0;
    assert(after.state.system_messages.take(log.len() as int) =~= log);
}

/// A command that names nobody means the chat on the screen.
pub proof fn law_unnamed_peer_is_the_active_one(c: ClientView, peer: Seq<char>)
    ensures
        session::named_peer(c, Some(peer)) == peer,
        c.state.active_peer == Some(peer) ==> session::named_peer(c, None) == peer,
        c.state.active_peer is None ==> session::named_peer(c, None).len() == 0,
{
}

/// Confirming a contact whose key is known verifies it, in the store and on the
/// screen, and changes nothing else of it or of anybody. Without a contact or a
/// key nobody is verified.
pub proof fn law_confirming_verifies_that_contact(
    c: ClientView,
    peer: Seq<char>,
    other: Seq<char>,
    i: int,
)
    requires
        0 <= i < c.state.contacts.len(),
    ensures
        ({
            let after = session::peer_confirmed(c, peer);
            let known = c.contacts.contains_key(peer) && c.contacts[peer].identity_key is Some;
            &&& !known ==> only_log_grew(c, after)
            &&& known ==> {
                &&& after.contacts.dom() == c.contacts.dom()
                &&& after.contacts[peer] == (Contact { verified: true, ..c.contacts[peer] })
                &&& other != peer && c.contacts.contains_key(other) ==> after.contacts[other]
                    == c.contacts[other]
                &&& after.state.contacts.len() == c.state.contacts.len()
                &&& after.state.contacts[i] == (ContactDisplay {
                    verified: c.state.contacts[i].verified || i == tui::position(
                        c.state.contacts,
                        peer,
                    ),
                    ..c.state.contacts[i]
                })
                &&& after.sessions == c.sessions && after.identity == c.identity
                &&& after.pending == c.pending && after.history == c.history
                &&& log_goes_on(c, after)
            }
        }),
{
    let after = session::peer_confirmed(c, peer);
    let log = c.state.system_messages;
    tui::law_position_is_the_first_entry(c.state.contacts, peer);
    lemma_noted(c, "Contact not found: "@ + peer);
    lemma_noted(c, "No key known for "@ + peer + "."@);
    assert(after.contacts.dom() =~= c.contacts.dom());
    assert(after.state.system_messages.take(log.len() as int) =~= log);
}

/// Removing a contact leaves the session with that user as it is, leaves that
/// user's chat if it was on the screen, and keeps the selection on the chat that
/// is still there.
pub proof fn law_removing_leaves_the_chat(
    c: ClientView,
    username: Seq<char>,
    nonce: Seq<u8>,
    names: Seq<Seq<char>>,
)
    requires
        c.contacts.contains_key(username) || tui::listed(c.state.contacts, username),
        c.state.contacts.len() <= usize::MAX,
    ensures
        ({
            let (after, action) = session::commanded(c, Command::Remove(username), nonce, names);
            &&& action is Nothing
            &&& after.contacts == c.contacts.remove(username)
            &&& after.sessions == c.sessions && after.pending == c.pending
            &&& after.state.contacts == c.state.contacts.filter(
                |d: tui::DisplayView| d.username != username,
            )
            &&& c.state.active_peer == Some(username) ==> after.state.active_peer is None
                && after.state.selected_contact is None
            &&& c.state.active_peer != Some(username) ==> after.state.active_peer
                == c.state.active_peer
            &&& after.state.selected_contact matches Some(i) ==> i < after.state.contacts.len()
                && after.state.active_peer == Some(after.state.contacts[i as int].username)
            &&& last_line(after) == "Removed contact: "@ + username
        }),
{
    let after = session::commanded(c, Command::Remove(username), nonce, names).0;
    let keep = |d: tui::DisplayView| d.username != username;
    assert(keep =~= tui::other_than(username));
    let left = after.state.contacts;
    if let Some(peer) = after.state.active_peer {
        tui::law_position_is_the_first_entry(left, peer);
        c.state.contacts.lemma_filter_len(tui::other_than(username));
        assert(left.len() <= c.state.contacts.len());
    }
}

// ── History ─────────────────────────────────────────────────

/// The history is on exactly if the user has switched it on: after the command
/// the store and the screen both say what was asked for. Switching loses
/// nothing of what was recorded, and touches nothing else.
pub proof fn law_history_follows_the_switch(
    c: ClientView,
    on: bool,
    nonce: Seq<u8>,
    names: Seq<Seq<char>>,
)
    requires
        history::up_to_date(c.history),
    ensures
        ({
            let (after, action) = session::commanded(c, Command::History(on), nonce, names);
            &&& after.history.enabled == on
            &&& after.state.history_enabled == on
            &&& history::whole(after.history) == history::whole(c.history)
            &&& after.history.password == c.history.password
            &&& after.history.dirty == c.history.dirty
            &&& history::up_to_date(after.history)
            &&& last_line(after) == if on {
                "History ON."@
            } else {
                "History OFF."@
            }
            &&& action is Nothing
            &&& only_log_grew(
                ClientView {
                    history: after.history,
                    state: AppView { history_enabled: on, ..c.state },
                    ..c
                },
                after,
            )
        }),
{
    let after = session::commanded(c, Command::History(on), nonce, names).0;
    assert(history::whole(after.history) =~= history::whole(c.history));
    lemma_noted(
        ClientView {
            history: after.history,
            state: AppView { history_enabled: on, ..c.state },
            ..c
        },
        if on {
            "History ON."@
        } else {
            "History OFF."@
        },
    );
}

/// While history is off it stays as it is: no command but the one that switches it
/// on, and those that forget it, touches it, and nothing that has been sent is
/// recorded.
pub proof fn law_history_off_records_no_command(
    c: ClientView,
    cmd: CommandView,
    then: Then<Seq<char>>,
    nonce: Seq<u8>,
    names: Seq<Seq<char>>,
    now: i64,
)
    requires
        !c.history.enabled,
    ensures
        cmd != Command::<Seq<char>>::History(true) && !(cmd is Purge) && !(cmd is Panic)
            ==> session::commanded(c, cmd, nonce, names).0.history == c.history,
        session::completed(c, then, now).history == c.history,
{
}

/// After history has been switched off, a message that is sent leaves no trace in
/// it, whatever it says, until it is switched on again.
pub proof fn law_sent_message_leaves_no_trace_when_off(
    c: ClientView,
    line: Seq<char>,
    nonce: Seq<u8>,
    names: Seq<Seq<char>>,
    now: i64,
)
    ensures
        ({
            let off = session::commanded(c, Command::History(false), nonce, names).0;
            let (sent, action) = session::commanded(off, Command::Message(line), nonce, names);
            &&& sent.history == off.history && !sent.history.enabled
            &&& action matches Action::Send { then, .. } ==> session::completed(
                sent,
                then,
                now,
            ).history == off.history
            &&& off.history.entries == c.history.entries && off.history.unread
                == c.history.unread
        }),
{
}

/// Where history is on, a message that has been sent is recorded once, as sent to
/// that user, in its own words.
pub proof fn law_sent_message_is_recorded(
    c: ClientView,
    peer: Seq<char>,
    line: Seq<char>,
    now: i64,
)
    requires
        c.history.enabled,
    ensures
        ({
            let after = session::completed(c, Then::Sent { peer, text: line }, now).history;
            &&& after.entries.len() == c.history.entries.len() + 1
            &&& after.entries.drop_last() == c.history.entries
            &&& after.entries.last().peer == peer && after.entries.last().content == line
            &&& after.entries.last().direction == Direction::Sent
            &&& after.entries.last().timestamp == now && after.dirty
        }),
{
    history::law_message_is_recorded_as_it_was(c.history, peer, Direction::Sent, line, now);
}

/// A purge forgets all history and has the file destroyed; it is not switched off
/// by that.
pub proof fn law_purge_forgets_the_history(
    c: ClientView,
    nonce: Seq<u8>,
    names: Seq<Seq<char>>,
)
    ensures
        ({
            let (after, action) = session::commanded(c, Command::Purge, nonce, names);
            &&& action is PurgeHistory
            &&& after.history == (HistoryView {
                entries: Seq::empty(),
                unread: None,
                dirty: false,
                ..c.history
            })
            &&& last_line(after) == "History purged."@
            &&& only_log_grew(ClientView { history: after.history, ..c }, after)
        }),
{
    let after = session::commanded(c, Command::Purge, nonce, names).0;
    lemma_noted(ClientView { history: after.history, ..c }, "History purged."@);
}

// ── After sending ───────────────────────────────────────────

/// What has been sent appears in the chat that it was sent to, under the own name;
/// of everything else the user is told in the log.
pub proof fn law_what_was_sent_is_shown(
    c: ClientView,
    peer: Seq<char>,
    line: Seq<char>,
    now: i64,
    other: Seq<char>,
)
    requires
        tui::can_bump(c.state, peer),
    ensures
        ({
            let after = session::completed(c, Then::Sent { peer, text: line }, now);
            &&& tui::chat_with(after.state, peer) == tui::chat_with(c.state, peer).push(
                LineView { sender: c.state.username, content: line, is_system: false },
            )
            &&& other != peer ==> tui::chat_with(after.state, other) == tui::chat_with(
                c.state,
                other,
            )
            &&& after.state.system_messages == c.state.system_messages
            &&& after.sessions == c.sessions && after.contacts == c.contacts
            &&& after.pending == c.pending && after.identity == c.identity
        }),
        session::completed(c, Then::Nothing, now) == c,
        only_log_grew(c, session::completed(c, Then::Accepted { from: peer }, now)),
        only_log_grew(c, session::completed(c, Then::Rejected { from: peer }, now)),
        only_log_grew(c, session::completed(c, Then::Requested { username: peer }, now)),
        only_log_grew(c, session::completed(c, Then::FileSent { peer, filename: line }, now)),
        last_line(session::completed(c, Then::Requested { username: peer }, now))
            == "📤 Chat request sent to "@ + peer + ". Waiting for them to accept..."@,
        session::completed(
            c,
            Then::Accepted { from: peer },
            now,
        ).state.system_messages[c.state.system_messages.len() as int].content
            == "✓ Accepted chat request from "@ + peer + ". Session established!"@,
        last_line(session::completed(c, Then::Rejected { from: peer }, now))
            == "Rejected chat request from "@ + peer + "."@,
        last_line(session::completed(c, Then::FileSent { peer, filename: line }, now))
            == "File sent to "@ + peer + ": "@ + line,
{
    let log = c.state.system_messages;
    tui::law_chat_grows_by_one_message(c.state, peer, c.state.username, line, other, 0);
    let accepted = session::completed(c, Then::Accepted { from: peer }, now);
    assert(accepted.state.system_messages.take(log.len() as int) =~= log);
    lemma_noted(c, "Rejected chat request from "@ + peer + "."@);
    lemma_noted(
        c,
        "📤 Chat request sent to "@ + peer + ". Waiting for them to accept..."@,
    );
    lemma_noted(c, "File sent to "@ + peer + ": "@ + line);
}

// ── The rest ────────────────────────────────────────────────

/// Clearing empties the chat on the screen, or else the log, and nothing else.
pub proof fn law_clearing_empties_what_is_shown(
    c: ClientView,
    nonce: Seq<u8>,
    names: Seq<Seq<char>>,
)
    ensures
        ({
            let (after, action) = session::commanded(c, Command::Clear, nonce, names);
            &&& action is Nothing
            &&& tui::on_screen(after.state).len() == 0
            &&& c.state.active_peer matches Some(peer) ==> after == (ClientView {
                state: AppView { messages: c.state.messages.remove(peer), ..c.state },
                ..c
            })
            &&& c.state.active_peer is None ==> after == (ClientView {
                state: AppView { system_messages: Seq::empty(), ..c.state },
                ..c
            })
        }),
{
}

/// A file is read for the chat on the screen if there is a session; else nothing
/// is read, and the user is told.
pub proof fn law_file_is_for_the_active_chat(
    c: ClientView,
    path: Seq<char>,
    nonce: Seq<u8>,
    names: Seq<Seq<char>>,
)
    ensures
        ({
            let (after, action) = session::commanded(c, Command::File(path), nonce, names);
            match c.state.active_peer {
                Some(peer) => {
                    &&& c.sessions.contains_key(peer) ==> after == c && action == (
                    ActionView::ReadFile { peer, path })
                    &&& !c.sessions.contains_key(peer) ==> only_log_grew(c, after) && action
                        is Nothing
                },
                None => only_log_grew(c, after) && action is Nothing,
            }
        }),
{
    lemma_noted(c, "No contact selected. Use /select <username>"@);
    if let Some(peer) = c.state.active_peer {
        lemma_noted(c, session::no_session_line(peer));
    }
}

/// What carries a file to a user is one command for each of its chunks, in order,
/// each under the file's name and number, padded and sealed with a key of its
/// own; the session moves on by as many messages. Without a session, or where
/// the session cannot count that far, nothing is sent.
pub proof fn law_file_is_sent_chunk_by_chunk(
    c: ClientView,
    peer: Seq<char>,
    path: Seq<char>,
    data: Seq<u8>,
    nonces: Seq<Seq<u8>>,
    i: int,
)
    requires
        nonces.len() == files::chunk_total(data.len()),
        0 <= i < nonces.len(),
    ensures
        ({
            let (after, commands, then) = session::file_sent(c, peer, path, data, nonces);
            let n = files::chunk_total(data.len());
            let fits = c.sessions.contains_key(peer) && c.sessions[peer].send.counter + n
                <= u32::MAX;
            &&& !fits ==> commands.len() == 0 && then is Nothing && only_log_grew(c, after)
            &&& fits ==> {
                &&& commands.len() == n
                &&& commands[i] == (NetCommandView::SendFile {
                    to: peer,
                    filename: files::name_in(path),
                    chunk_index: i as u32,
                    total_chunks: n as u32,
                    ciphertext: primitives::xchacha_sealed(
                        ratchet::message_key(
                            ratchet::after_sends(c.sessions[peer], i as nat).send,
                        ),
                        nonces[i],
                        protocol::padded(files::chunk(data, i)),
                    ),
                    nonce: nonces[i],
                })
                &&& then == (Then::FileSent { peer, filename: files::name_in(path) })
                &&& after == (ClientView {
                    sessions: c.sessions.insert(
                        peer,
                        ratchet::after_sends(c.sessions[peer], n),
                    ),
                    ..c
                })
            }
        }),
{
    lemma_noted(c, session::no_session_line(peer));
    lemma_noted(c, "File too large: "@ + files::name_in(path));
}

/// Locking locks, clears what was being typed and closes the help; the password
/// unlocks, and nothing else does. On a screen that is not locked there is
/// nothing to unlock.
pub proof fn law_lock_and_unlock(
    c: ClientView,
    attempt: Seq<char>,
    nonce: Seq<u8>,
    names: Seq<Seq<char>>,
)
    ensures
        ({
            let locked = session::commanded(c, Command::Lock, nonce, names).0;
            let tried = session::commanded(c, Command::Unlock(attempt), nonce, names).0;
            &&& locked.state.locked && locked.state.input.len() == 0 && !locked.state.show_help
            &&& locked.state.cursor_pos == 0
            &&& locked.history == c.history && locked.sessions == c.sessions
            &&& !c.state.locked ==> tried == c
            &&& c.state.locked ==> (tried.state.locked <==> attempt != c.history.password)
            &&& c.state.locked && attempt != c.history.password ==> only_log_grew(c, tried)
                && last_line(tried) == "Wrong password."@
            &&& c.state.locked && attempt == c.history.password ==> only_log_grew(
                ClientView { state: AppView { locked: false, ..c.state }, ..c },
                tried,
            )
            &&& ({
                let again = session::commanded(
                    locked,
                    Command::Unlock(c.history.password),
                    nonce,
                    names,
                ).0;
                !again.state.locked
            })
        }),
{
    lemma_noted(c, "Wrong password."@);
    lemma_noted(
        ClientView { state: AppView { locked: false, ..c.state }, ..c },
        "Screen unlocked."@,
    );
}

/// The help is opened, the client quits, and the user is told what was not
/// understood; nothing more.
pub proof fn law_small_commands_do_one_thing(
    c: ClientView,
    line: Seq<char>,
    nonce: Seq<u8>,
    names: Seq<Seq<char>>,
)
    ensures
        session::commanded(c, Command::Help, nonce, names) == (
            ClientView { state: AppView { show_help: true, ..c.state }, ..c },
            ActionView::Nothing,
        ),
        session::commanded(c, Command::Quit, nonce, names) == (
            ClientView { state: AppView { should_quit: true, ..c.state }, ..c },
            ActionView::Nothing,
        ),
        only_log_grew(c, session::commanded(c, Command::Unknown(line), nonce, names).0),
        last_line(session::commanded(c, Command::Unknown(line), nonce, names).0) == line,
        only_log_grew(c, session::commanded(c, Command::Reconnect, nonce, names).0),
        session::commanded(c, Command::Unknown(line), nonce, names).1 is Nothing,
        session::commanded(c, Command::Reconnect, nonce, names).1 is Nothing,
{
    lemma_noted(c, line);
    lemma_noted(c, "Auto-reconnecting..."@);
}

/// The list of contacts has a line for each contact on the screen, with its name,
/// whether it is online, and whether it is verified; the list of requests a line
/// for each sender, in the order given. Nothing changes by listing.
pub proof fn law_lists_are_complete(
    c: ClientView,
    nonce: Seq<u8>,
    names: Seq<Seq<char>>,
    i: int,
)
    ensures
        ({
            let contacts = session::commanded(c, Command::Contacts, nonce, names).0;
            let requests = session::commanded(c, Command::Requests, nonce, names).0;
            let n = c.state.system_messages.len() as int;
            &&& only_log_grew(c, contacts) && only_log_grew(c, requests)
            &&& c.state.contacts.len() > 0 ==> contacts.state.system_messages.len() == n + 1
                + c.state.contacts.len()
            &&& 0 <= i < c.state.contacts.len() ==> {
                let d = c.state.contacts[i];
                contacts.state.system_messages[n + 1 + i].content == "  "@ + (if d.online {
                    "●"@
                } else {
                    "○"@
                }) + " "@ + (if d.verified {
                    "✓"@
                } else {
                    "✗"@
                }) + " "@ + (match d.alias {
                    Some(alias) => alias,
                    None => d.username,
                })
            }
            &&& names.len() > 0 ==> requests.state.system_messages.len() == n + 1 + names.len()
            &&& 0 <= i < names.len() ==> requests.state.system_messages[n + 1 + i].content
                == "  📩 "@ + names[i] + " — /accept "@ + names[i] + " or /reject "@ + names[i]
        }),
{
    let log = c.state.system_messages;
    let contacts = session::commanded(c, Command::Contacts, nonce, names).0;
    let requests = session::commanded(c, Command::Requests, nonce, names).0;
    assert(contacts.state.system_messages.take(log.len() as int) =~= log);
    assert(requests.state.system_messages.take(log.len() as int) =~= log);
}

/// The order in which requests are listed names every sender, each once.
pub proof fn law_listing_names_every_sender(names: Seq<Seq<char>>, c: ClientView)
    ensures
        session::lists_pending(names, c) <==> names.no_duplicates() && names.to_set()
            =~= c.pending.dom(),
{
    if session::lists_pending(names, c) {
        assert forall|k: Seq<char>| names.to_set().contains(k) <==> c.pending.dom().contains(
            k,
        ) by {
            assert(names.contains(k) <==> c.pending.contains_key(k));
        }
    }
    if names.to_set() =~= c.pending.dom() {
        assert forall|k: Seq<char>| names.contains(k) <==> #[trigger] c.pending.contains_key(k) by {
            assert(names.to_set().contains(k) <==> c.pending.dom().contains(k));
        }
    }
}

/// The state of the connection is told as it is: whether there is one, how many
/// sessions there are, and how many requests wait.
pub proof fn law_status_is_told_as_it_is(c: ClientView, nonce: Seq<u8>, names: Seq<Seq<char>>)
    ensures
        ({
            let after = session::commanded(c, Command::Status, nonce, names).0;
            &&& only_log_grew(c, after)
            &&& last_line(after) == "Connected: "@ + (if c.state.connected {
                "true"@
            } else {
                "false"@
            }) + " | Sessions: "@ + text::decimal(c.sessions.dom().len()) + " | Pending: "@
                + text::decimal(c.pending.dom().len())
        }),
{
    lemma_noted(
        c,
        "Connected: "@ + crate::client::network::bool_word(c.state.connected) + " | Sessions: "@
            + text::decimal(c.sessions.dom().len()) + " | Pending: "@ + text::decimal(
            c.pending.dom().len(),
        ),
    );
}

// ── Starting ────────────────────────────────────────────────

/// A new identity is registered with its own public keys, a known one logs in;
/// both under the user's name and with the digest of the password.
pub proof fn law_first_command_introduces_the_user(
    identity: IdentityView,
    username: Seq<char>,
    password: Seq<char>,
)
    ensures
        session::first_command(identity, true, username, password) == (NetCommandView::Register {
            username,
            password_hash: primitives::sha256_of(
                encode_utf8("ZeroSum_PasswordHash_"@) + encode_utf8(password),
            ),
            identity_public_key: primitives::ed25519_public_of(identity.signing_key),
            signed_prekey: primitives::x25519_public_of(identity.signed_prekey),
            signed_prekey_signature: primitives::ed25519_signature_of(
                identity.signing_key,
                primitives::x25519_public_of(identity.signed_prekey),
            ),
            one_time_prekeys: identity.one_time_prekeys.map_values(
                |s: Seq<u8>| primitives::x25519_public_of(s),
            ),
        }),
        session::first_command(identity, false, username, password) == (NetCommandView::Login {
            username,
            password_hash: primitives::sha256_of(
                encode_utf8("ZeroSum_PasswordHash_"@) + encode_utf8(password),
            ),
        }),
{
    encrypt::law_password_is_hashed(password);
    assert(crate::crypto::identity::publics(identity.one_time_prekeys)
        =~= identity.one_time_prekeys.map_values(|s: Seq<u8>| primitives::x25519_public_of(s)));
}

/// A client that is started shows the contacts that it has stored, with their
/// aliases and marks, offline and with nothing unread, and keeps history as it
/// was asked to.
pub proof fn law_stored_contacts_are_shown(
    username: Seq<char>,
    contacts: Seq<crate::client::contacts::ContactView>,
    history_enabled: bool,
    i: int,
)
    requires
        0 <= i < contacts.len(),
    ensures
        ({
            let s = session::started(username, contacts, history_enabled);
            &&& s.contacts.len() == contacts.len()
            &&& s.contacts[i] == (ContactDisplay {
                username: contacts[i].username,
                alias: contacts[i].alias,
                online: false,
                verified: contacts[i].verified,
                unread: 0,
            })
            &&& s.history_enabled == history_enabled && s.username == username
            &&& !s.connected && !s.locked && s.active_peer is None && !s.should_quit
            &&& s.system_messages.len() == 2
        }),
{
}

} // verus!
