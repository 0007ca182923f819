//! The client itself: what a command of the user and an event of the network
//! do to it.
//!
//! What has to be sent is returned as an [`Action`]. Some things are done only
//! once the sending has succeeded: those are handed back to
//! [`Client::complete`].

use vstd::prelude::*;
use vstd::utf8::*;

use crate::bytes;
use crate::client::commands::{Command, CommandView};
use crate::client::contacts;
use crate::client::contacts::{ContactStore, ContactView};
use crate::client::files;
use crate::client::history;
use crate::client::history::{Direction, HistoryStore, HistoryView};
use crate::client::network;
use crate::client::network::{NetCommand, NetCommandView, NetEvent, NetEventView};
use crate::client::tui;
use crate::client::tui::{AppState, AppView, ContactDisplay, DisplayView};
use crate::clock;
use crate::crypto::encrypt;
use crate::crypto::fingerprint;
use crate::crypto::identity::{Identity, IdentityView};
use crate::crypto::keys::StaticSecret;
use crate::crypto::primitives;
use crate::crypto::ratchet;
use crate::crypto::ratchet::{SessionRatchet, SessionView};
use crate::crypto::store::SessionStore;
use crate::crypto::x3dh;
use crate::crypto::CryptoError;
use crate::protocol;
use crate::text;
use crate::textmap::TextMap;

verus! {

broadcast use {tui::lemma_same_goes_on, tui::lemma_goes_on_further};

// ── State ───────────────────────────────────────────────────

/// Pending incoming chat request (stored until user /accept or /reject)
#[derive(Debug, Clone)]
#[verifier::ext_equal]
pub struct PendingRequest<T = String, B = Vec<u8>> {
    pub from: T,
    pub identity_public_key: B,
    pub ephemeral_pub: B,
    pub otpk_index: Option<u32>,
}

/// The view of a [`PendingRequest`].
pub type PendingView = PendingRequest<Seq<char>, Seq<u8>>;

impl View for PendingRequest<String, Vec<u8>> {
    type V = PendingRequest<Seq<char>, Seq<u8>>;

    open spec fn view(&self) -> PendingRequest<Seq<char>, Seq<u8>> {
        PendingRequest {
            from: self.from@,
            identity_public_key: self.identity_public_key@,
            ephemeral_pub: self.ephemeral_pub@,
            otpk_index: self.otpk_index,
        }
    }
}

/// Everything that a running client holds.
pub struct Client {
    pub state: AppState,
    pub identity: Identity,
    pub sessions: SessionStore,
    pub contacts: ContactStore,
    pub history: HistoryStore,
    /// Pending incoming requests waiting for /accept or /reject
    pub pending: TextMap<PendingRequest>,
}

/// The view of a [`Client`].
#[verifier::ext_equal]
pub ghost struct ClientView {
    pub state: AppView,
    pub identity: IdentityView,
    pub sessions: Map<Seq<char>, SessionView>,
    pub contacts: Map<Seq<char>, ContactView>,
    pub history: HistoryView,
    pub pending: Map<Seq<char>, PendingView>,
}

/// The pending requests, by sender.
pub open spec fn pending_views(m: Map<Seq<char>, PendingRequest>) -> Map<Seq<char>, PendingView> {
    m.map_values(|p: PendingRequest| p@)
}

impl View for Client {
    type V = ClientView;

    open spec fn view(&self) -> ClientView {
        ClientView {
            state: self.state@,
            identity: self.identity@,
            sessions: self.sessions@,
            contacts: self.contacts@,
            history: self.history@,
            pending: pending_views(self.pending@),
        }
    }
}

/// What is left to do after something has been sent.
#[derive(Debug, Clone)]
#[verifier::ext_equal]
pub enum Then<T = String> {
    Nothing,
    /// A message is on its way.
    Sent { peer: T, text: T },
    /// A chat request was accepted.
    Accepted { from: T },
    /// A chat request was rejected.
    Rejected { from: T },
    /// A chat request is on its way.
    Requested { username: T },
    /// All chunks of a file are on their way.
    FileSent { peer: T, filename: T },
}

/// What the client wants done.
#[derive(Debug, Clone)]
#[verifier::ext_equal]
pub enum Action<T = String, B = Vec<u8>, K = Vec<Vec<u8>>> {
    Nothing,
    /// Send something, then complete what follows.
    Send { command: NetCommand<T, B, K>, then: Then<T> },
    /// Read a file, and hand what it holds to [`Client::send_file`].
    ReadFile { peer: T, path: T },
    /// Write a chunk of a file that has come. The first one begins the file.
    SaveChunk { filename: T, chunk_index: u32, data: B },
    /// Overwrite and delete the history file.
    PurgeHistory,
    /// Disconnect, destroy all local data, and write nothing again.
    Panic,
}

/// The view of an [`Action`].
pub type ActionView = Action<Seq<char>, Seq<u8>, Seq<Seq<u8>>>;

impl View for Then<String> {
    type V = Then<Seq<char>>;

    open spec fn view(&self) -> Then<Seq<char>> {
        match *self {
            Then::Nothing => Then::Nothing,
            Then::Sent { peer, text } => Then::Sent { peer: peer@, text: text@ },
            Then::Accepted { from } => Then::Accepted { from: from@ },
            Then::Rejected { from } => Then::Rejected { from: from@ },
            Then::Requested { username } => Then::Requested { username: username@ },
            Then::FileSent { peer, filename } => Then::FileSent {
                peer: peer@,
                filename: filename@,
            },
        }
    }
}

impl View for Action<String, Vec<u8>, Vec<Vec<u8>>> {
    type V = Action<Seq<char>, Seq<u8>, Seq<Seq<u8>>>;

    open spec fn view(&self) -> Action<Seq<char>, Seq<u8>, Seq<Seq<u8>>> {
        match *self {
            Action::Nothing => Action::Nothing,
            Action::Send { command, then } => Action::Send { command: command@, then: then@ },
            Action::ReadFile { peer, path } => Action::ReadFile { peer: peer@, path: path@ },
            Action::SaveChunk { filename, chunk_index, data } => Action::SaveChunk {
                filename: filename@,
                chunk_index,
                data: data@,
            },
            Action::PurgeHistory => Action::PurgeHistory,
            Action::Panic => Action::Panic,
        }
    }
}

impl Client {
    /// The client goes on from an earlier one: every line of its log and its
    /// chats is still there with its time, and the session store has the same
    /// version.
    pub open spec fn goes_on_from(&self, before: Client) -> bool {
        &&& self.state.lines_go_on(before.state)
        &&& self.sessions.version_number() == before.sessions.version_number()
    }

    /// What a command leaves of the lines that were there, with their times.
    /// Clearing empties the log or a chat and keeps the rest; after the
    /// emergency word nothing is left to keep.
    pub open spec fn goes_on_after(&self, before: Client, cmd: CommandView) -> bool {
        &&& match cmd {
            Command::Panic => true,
            Command::Clear => self.state.lines_left(before.state),
            _ => self.state.lines_go_on(before.state),
        }
        &&& self.sessions.version_number() == before.sessions.version_number()
    }
}

/// The client with another line in its system log.
pub open spec fn noted(c: ClientView, line: Seq<char>) -> ClientView {
    ClientView { state: tui::logged(c.state, line), ..c }
}

/// The client with several more lines in its system log.
pub open spec fn noted_all(c: ClientView, lines: Seq<Seq<char>>) -> ClientView {
    ClientView {
        state: AppView {
            system_messages: c.state.system_messages + lines.map_values(
                |l: Seq<char>| tui::system_line(l),
            ),
            ..c.state
        },
        ..c
    }
}

/// The client with a user among the contacts on the screen.
pub open spec fn shown(c: ClientView, username: Seq<char>) -> ClientView {
    if tui::listed(c.state.contacts, username) {
        c
    } else {
        ClientView {
            state: AppView {
                contacts: c.state.contacts.push(
                    ContactDisplay { username, alias: None, online: true, verified: false, unread: 0 },
                ),
                ..c.state
            },
            ..c
        }
    }
}

/// The client with a user among its contacts, and the identity key of that
/// user.
pub open spec fn befriended(c: ClientView, username: Seq<char>, key: Seq<u8>) -> ClientView {
    shown(
        ClientView {
            contacts: contacts::keyed(contacts::added(c.contacts, username), username, key),
            ..c
        },
        username,
    )
}

// ── Keys that came over the network ─────────────────────────

/// A key of 32 bytes; zeros in place of anything else.
pub open spec fn key32(key: Seq<u8>) -> Seq<u8> {
    if key.len() == 32 {
        key
    } else {
        Seq::new(32, |i: int| 0u8)
    }
}

/// A key of 32 bytes, if it is one.
pub open spec fn some_key32(key: Option<Seq<u8>>) -> Option<Seq<u8>> {
    match key {
        Some(k) => if k.len() == 32 {
            Some(k)
        } else {
            None
        },
        None => None,
    }
}

fn key_or_zeros(key: &[u8]) -> (r: [u8; 32])
    ensures
        r@ == key32(key@),
        r@.len() == 32,
{
    if key.len() == 32 {
        bytes::to_array32(key)
    } else {
        let zeros = [0u8;32];
        assert(zeros@ =~= Seq::new(32, |i: int| 0u8));
        zeros
    }
}

/// The one-time prekey that an index stands for.
pub open spec fn otpk_of(identity: IdentityView, index: Option<u32>) -> Option<Seq<u8>> {
    match index {
        Some(i) => if i < identity.one_time_prekeys.len() {
            Some(identity.one_time_prekeys[i as int])
        } else {
            None
        },
        None => None,
    }
}

/// The secret that two users agree on: the initiator, known by its signing key
/// and an ephemeral secret, and the responder with its identity.
pub open spec fn agreed_secret(
    initiator: Seq<u8>,
    ephemeral: Seq<u8>,
    responder: IdentityView,
    index: Option<u32>,
) -> Seq<u8> {
    x3dh::initiator_secret(
        x3dh::x25519_secret(initiator),
        ephemeral,
        primitives::x25519_public_of(x3dh::x25519_secret(responder.signing_key)),
        responder.spk_public(),
        x3dh::opt_public(otpk_of(responder, index)),
    )
}

// ── Starting ────────────────────────────────────────────────

/// How a contact is first shown.
pub open spec fn display_of(contact: ContactView) -> DisplayView {
    ContactDisplay {
        username: contact.username,
        alias: contact.alias,
        online: false,
        verified: contact.verified,
        unread: 0,
    }
}

/// The state of a client that has just been started, with its contacts on the
/// screen in some order.
pub open spec fn started(
    username: Seq<char>,
    contacts: Seq<ContactView>,
    history_enabled: bool,
) -> AppView {
    let state = AppView {
        history_enabled,
        contacts: contacts.map_values(|c: ContactView| display_of(c)),
        ..tui::initial(username)
    };
    tui::logged(
        tui::logged(state, "Welcome to ZeroSum v2. Type /help for commands."@),
        "Use /request <username> to start chatting with someone."@,
    )
}

/// What a client sends first: a new identity is registered, a known one logs
/// in.
pub open spec fn first_command(
    identity: IdentityView,
    is_new: bool,
    username: Seq<char>,
    password: Seq<char>,
) -> NetCommandView {
    if is_new {
        NetCommand::Register {
            username,
            password_hash: encrypt::password_hash(password),
            identity_public_key: identity.public_key(),
            signed_prekey: identity.spk_public(),
            signed_prekey_signature: identity.spk_signature(),
            one_time_prekeys: crate::crypto::identity::publics(identity.one_time_prekeys),
        }
    } else {
        NetCommand::Login { username, password_hash: encrypt::password_hash(password) }
    }
}

impl Client {
    /// A client that has just been started.
    pub fn start(
        username: String,
        identity: Identity,
        sessions: SessionStore,
        contacts: ContactStore,
        history: HistoryStore,
        history_enabled: bool,
    ) -> (r: Client)
        ensures
            r@ == (ClientView {
                state: started(
                    username@,
                    contacts.names().map_values(|k: Seq<char>| contacts@[k]),
                    history_enabled,
                ),
                identity: identity@,
                sessions: sessions@,
                contacts: contacts@,
                history: history@,
                pending: Map::empty(),
            }),
            r.sessions.version_number() == sessions.version_number(),
    {
        let mut state = AppState::new(username);
        state.history_enabled = history_enabled;
        let list = contacts.list();
        let ghost listed = contacts.names().map_values(|k: Seq<char>| contacts@[k]);
        let n: usize = list.len();
        assert(state@.contacts =~= listed.take(0).map_values(|c: ContactView| display_of(c)));
        for i in 0..n
            invariant
                n == list@.len(),
                n == listed.len(),
                forall|j: int| 0 <= j < n ==> (#[trigger] list@[j])@ == listed[j],
                state@ == (AppView {
                    history_enabled,
                    contacts: listed.take(i as int).map_values(|c: ContactView| display_of(c)),
                    ..tui::initial(username@)
                }),
        {
            let c = list[i];
            assert(c@ == listed[i as int]);
            let ghost before = state@.contacts;
            let alias = match &c.alias {
                Some(a) => Some(a.clone()),
                None => None,
            };
            state.contacts.push(
                ContactDisplay {
                    username: c.username.clone(),
                    alias,
                    online: false,
                    verified: c.verified,
                    unread: 0,
                },
            );
            assert(state@.contacts =~= before.push(display_of(c@)));
            assert(state@.contacts =~= listed.take(i + 1).map_values(
                |c: ContactView| display_of(c),
            ));
        }
        assert(listed.take(n as int) =~= listed);
        state.add_system_message("Welcome to ZeroSum v2. Type /help for commands.");
        state.add_system_message("Use /request <username> to start chatting with someone.");
        let r = Client { state, identity, sessions, contacts, history, pending: TextMap::new() };
        assert(r@.pending =~= Map::<Seq<char>, PendingView>::empty());
        r
    }

    /// What a client sends first: a new identity is registered, a known one
    /// logs in.
    pub fn sign_in(&self, is_new: bool, password: &str) -> (r: NetCommand)
        requires
            is_new ==> self@.identity.wf(),
        ensures
            r@ == first_command(self@.identity, is_new, self@.state.username, password@),
    {
        let username = self.state.username.clone();
        let password_hash = encrypt::hash_password(password);
        if is_new {
            NetCommand::Register {
                username,
                password_hash,
                identity_public_key: self.identity.identity_public_key(),
                signed_prekey: bytes::copy_bytes(
                    self.identity.spk_public().as_bytes().as_slice(),
                ),
                signed_prekey_signature: self.identity.sign_spk(),
                one_time_prekeys: self.identity.otpk_publics(),
            }
        } else {
            NetCommand::Login { username, password_hash }
        }
    }
}

// ── Commands ────────────────────────────────────────────────

/// The line for a chat without a session.
pub open spec fn no_session_line(peer: Seq<char>) -> Seq<char> {
    "No session with "@ + peer + ". Use /request "@ + peer + " first."@
}

/// A message to the active chat.
pub open spec fn message_sent(c: ClientView, line: Seq<char>, nonce: Seq<u8>) -> (
    ClientView,
    ActionView,
) {
    if line.len() == 0 {
        (c, Action::Nothing)
    } else {
        match c.state.active_peer {
            None => (noted(c, "No contact selected. Use /select <username>"@), Action::Nothing),
            Some(peer) => if c.sessions.contains_key(peer) {
                let padded = protocol::padded(encode_utf8(line));
                let session = c.sessions[peer];
                let after = ClientView {
                    sessions: c.sessions.insert(peer, ratchet::after_send(session)),
                    ..c
                };
                if padded.len() <= primitives::MAX_PLAINTEXT {
                    (
                        after,
                        Action::Send {
                            command: NetCommand::SendMessage {
                                to: peer,
                                ciphertext: primitives::xchacha_sealed(
                                    ratchet::message_key(session.send),
                                    nonce,
                                    padded,
                                ),
                                nonce,
                            },
                            then: Then::Sent { peer, text: line },
                        },
                    )
                } else {
                    (
                        noted(after, "Encryption failed: "@ + "Ratchet encryption failed"@),
                        Action::Nothing,
                    )
                }
            } else {
                (noted(c, no_session_line(peer)), Action::Nothing)
            },
        }
    }
}

/// What is sent to a chat is read there: a receiver whose session is in step
/// gets the padded form of the text.
pub open spec fn readable(before: ClientView, action: ActionView, line: Seq<char>) -> bool {
    action matches Action::Send {
        command: NetCommand::SendMessage { to, ciphertext, nonce },
        ..
    } ==> before.sessions.contains_key(to) && forall|receiver: SessionView| #[trigger]
        ratchet::in_step(before.sessions[to], receiver) ==> ratchet::received(
            receiver,
            ciphertext,
            nonce,
        ) == Ok::<Seq<u8>, CryptoError>(protocol::padded(encode_utf8(line)))
}

/// A message can be sent now: no counter overflows.
pub open spec fn can_send(c: ClientView, line: Seq<char>) -> bool {
    line.len() > 0 ==> (c.state.active_peer matches Some(peer) ==> (c.sessions.contains_key(peer)
        ==> c.sessions[peer].send.counter < u32::MAX && encode_utf8(line).len()
        + protocol::LENGTH_SIZE + protocol::PAD_BLOCK_SIZE <= usize::MAX))
}

/// The first step of a chat request.
pub open spec fn bundle_asked(c: ClientView, target: Seq<char>) -> (ClientView, ActionView) {
    (
        noted(c, "Sending chat request to "@ + target + "..."@),
        Action::Send { command: NetCommand::FetchBundle { target }, then: Then::Nothing },
    )
}

/// The secret that follows from a chat request.
pub open spec fn request_secret(identity: IdentityView, request: PendingView) -> Seq<u8> {
    x3dh::responder_secret(
        x3dh::x25519_secret(identity.signing_key),
        identity.signed_prekey,
        otpk_of(identity, request.otpk_index),
        x3dh::x25519_identity(key32(request.identity_public_key)),
        key32(request.ephemeral_pub),
    )
}

/// A chat request is accepted.
pub open spec fn request_accepted(c: ClientView, from: Seq<char>) -> (ClientView, ActionView) {
    if c.pending.contains_key(from) {
        let request = c.pending[from];
        let secret = request_secret(c.identity, request);
        (
            befriended(
                ClientView {
                    pending: c.pending.remove(from),
                    sessions: c.sessions.insert(from, ratchet::new_session(secret, false)),
                    ..c
                },
                from,
                request.identity_public_key,
            ),
            Action::Send {
                command: NetCommand::ChatAccept { to: from },
                then: Then::Accepted { from },
            },
        )
    } else {
        (
            noted(
                c,
                "No pending request from "@ + from + ". Use /requests to see pending."@,
            ),
            Action::Nothing,
        )
    }
}

/// The session that accepting a request gives is the one that its sender has:
/// if the request names the public keys of a signing key and of an ephemeral
/// secret, the session comes from the secret agreed on with these.
pub open spec fn accept_agrees(before: ClientView, after: ClientView, from: Seq<char>) -> bool {
    forall|initiator: Seq<u8>, ephemeral: Seq<u8>|
        before.pending.contains_key(from) && initiator.len() == 32 && ephemeral.len() == 32
            && before.pending[from].identity_public_key.len() == 32
            && before.pending[from].ephemeral_pub.len() == 32
            && before.pending[from].identity_public_key
            == #[trigger] primitives::ed25519_public_of(initiator)
            && before.pending[from].ephemeral_pub == #[trigger] primitives::x25519_public_of(
            ephemeral,
        ) ==> after.sessions.contains_key(from) && after.sessions[from] == ratchet::new_session(
            agreed_secret(
                initiator,
                ephemeral,
                before.identity,
                before.pending[from].otpk_index,
            ),
            false,
        )
}

/// A chat request is rejected.
pub open spec fn request_rejected(c: ClientView, from: Seq<char>) -> (ClientView, ActionView) {
    if c.pending.contains_key(from) {
        (
            ClientView { pending: c.pending.remove(from), ..c },
            Action::Send {
                command: NetCommand::ChatReject { to: from },
                then: Then::Rejected { from },
            },
        )
    } else {
        (noted(c, "No pending request from "@ + from + "."@), Action::Nothing)
    }
}

/// A chat is put on the screen.
pub open spec fn peer_selected(c: ClientView, username: Seq<char>) -> ClientView {
    if c.sessions.contains_key(username) || c.contacts.contains_key(username) {
        let i = tui::position(c.state.contacts, username);
        let state = AppView { active_peer: Some(username), ..c.state };
        ClientView {
            state: if tui::listed(c.state.contacts, username) {
                AppView {
                    selected_contact: Some(i as usize),
                    contacts: state.contacts.update(
                        i,
                        ContactDisplay { unread: 0, ..state.contacts[i] },
                    ),
                    ..state
                }
            } else {
                state
            },
            ..c
        }
    } else {
        noted(c, username + " is not a contact. Use /request "@ + username + " first."@)
    }
}

/// The contacts on the screen with one of them changed.
pub open spec fn display_changed(
    c: ClientView,
    username: Seq<char>,
    change: spec_fn(DisplayView) -> DisplayView,
) -> ClientView {
    let i = tui::position(c.state.contacts, username);
    if i < c.state.contacts.len() {
        ClientView {
            state: AppView {
                contacts: c.state.contacts.update(i, change(c.state.contacts[i])),
                ..c.state
            },
            ..c
        }
    } else {
        c
    }
}

/// A contact gets another name on the screen.
pub open spec fn alias_set(c: ClientView, username: Seq<char>, alias: Seq<char>) -> ClientView {
    let stored = ClientView { contacts: contacts::aliased(c.contacts, username, alias), ..c };
    noted(
        display_changed(
            stored,
            username,
            |d: DisplayView| ContactDisplay { alias: Some(alias), ..d },
        ),
        "Alias: "@ + username + " → "@ + alias,
    )
}

/// The user that a command names; the active chat where it names none.
pub open spec fn named_peer(c: ClientView, maybe_peer: Option<Seq<char>>) -> Seq<char> {
    match maybe_peer {
        Some(p) => p,
        None => network::or_empty(c.state.active_peer),
    }
}

/// The safety number with a contact is shown. Whether it matches is for the
/// user to find out, so the contact is no more verified than before.
pub open spec fn safety_shown(c: ClientView, maybe_peer: Option<Seq<char>>) -> ClientView {
    let peer = named_peer(c, maybe_peer);
    if peer.len() == 0 {
        noted(c, "Usage: /verify <username>"@)
    } else if !c.contacts.contains_key(peer) {
        noted(c, "Contact not found: "@ + peer)
    } else {
        match c.contacts[peer].identity_key {
            None => noted(c, "No key known for "@ + peer + "."@),
            Some(key) => noted(
                noted(
                    c,
                    "Safety number with "@ + peer + ": "@ + fingerprint::safety_text(
                        c.identity.public_key(),
                        key,
                    ),
                ),
                "Compare this over a separate channel (voice, in person)."@,
            ),
        }
    }
}

/// The user has compared the safety number with a contact whose key is known:
/// the contact counts as verified.
pub open spec fn peer_confirmed(c: ClientView, peer: Seq<char>) -> ClientView {
    if !c.contacts.contains_key(peer) {
        noted(c, "Contact not found: "@ + peer)
    } else if c.contacts[peer].identity_key is None {
        noted(c, "No key known for "@ + peer + "."@)
    } else {
        noted(
            display_changed(
                ClientView { contacts: contacts::marked_verified(c.contacts, peer), ..c },
                peer,
                |d: DisplayView| ContactDisplay { verified: true, ..d },
            ),
            "✓ "@ + peer + " is verified."@,
        )
    }
}

/// A contact is removed, from the store and from the screen. The selection
/// follows the active chat.
pub open spec fn contact_removed(c: ClientView, username: Seq<char>) -> ClientView {
    if c.contacts.contains_key(username) || tui::listed(c.state.contacts, username) {
        let left = tui::without(c.state.contacts, username);
        let active = if c.state.active_peer == Some(username) {
            None
        } else {
            c.state.active_peer
        };
        noted(
            ClientView {
                contacts: c.contacts.remove(username),
                state: AppView {
                    contacts: left,
                    active_peer: active,
                    selected_contact: match active {
                        Some(peer) => if tui::listed(left, peer) {
                            Some(tui::position(left, peer) as usize)
                        } else {
                            None
                        },
                        None => None,
                    },
                    ..c.state
                },
                ..c
            },
            "Removed contact: "@ + username,
        )
    } else {
        noted(c, "Contact not found: "@ + username)
    }
}

/// The screen is locked.
pub open spec fn screen_locked(c: ClientView) -> ClientView {
    noted(
        ClientView {
            state: AppView { locked: true, show_help: false, ..tui::without_input(c.state) },
            ..c
        },
        "Screen locked."@,
    )
}

/// Something was handed in on a locked screen: the password unlocks it.
pub open spec fn unlock_tried(c: ClientView, attempt: Seq<char>) -> ClientView {
    if !c.state.locked {
        c
    } else if attempt == c.history.password {
        noted(
            ClientView { state: AppView { locked: false, ..c.state }, ..c },
            "Screen unlocked."@,
        )
    } else {
        noted(c, "Wrong password."@)
    }
}

/// A file is to be sent to the active chat.
pub open spec fn file_asked(c: ClientView, path: Seq<char>) -> (ClientView, ActionView) {
    match c.state.active_peer {
        None => (noted(c, "No contact selected. Use /select <username>"@), Action::Nothing),
        Some(peer) => if c.sessions.contains_key(peer) {
            (c, Action::ReadFile { peer, path })
        } else {
            (noted(c, no_session_line(peer)), Action::Nothing)
        },
    }
}

/// The emergency word: nothing is left of sessions, contacts, requests, history
/// and chats, the files are destroyed, and the client quits.
pub open spec fn panicked(c: ClientView) -> (ClientView, ActionView) {
    (
        ClientView {
            sessions: Map::empty(),
            contacts: Map::empty(),
            pending: Map::empty(),
            history: history::purged(c.history),
            state: AppView {
                active_peer: None,
                selected_contact: None,
                messages: Map::empty(),
                system_messages: seq![tui::system_line("!!! PANIC !!!"@)],
                contacts: seq![],
                input_history: seq![],
                input_history_idx: None,
                should_quit: true,
                ..c.state
            },
            ..c
        },
        Action::Panic,
    )
}

/// The screen is cleared.
pub open spec fn screen_cleared(c: ClientView) -> ClientView {
    ClientView {
        state: match c.state.active_peer {
            Some(peer) => AppView { messages: c.state.messages.remove(peer), ..c.state },
            None => AppView { system_messages: seq![], ..c.state },
        },
        ..c
    }
}

/// History is switched on or off.
pub open spec fn history_switched(c: ClientView, on: bool) -> ClientView {
    noted(
        ClientView {
            history: if on {
                history::switched_on(c.history)
            } else {
                history::switched_off(c.history)
            },
            state: AppView { history_enabled: on, ..c.state },
            ..c
        },
        if on {
            "History ON."@
        } else {
            "History OFF."@
        },
    )
}

/// The line for a contact in the list of contacts.
pub open spec fn contact_line(d: DisplayView) -> Seq<char> {
    "  "@ + (if d.online {
        "●"@
    } else {
        "○"@
    }) + " "@ + (if d.verified {
        "✓"@
    } else {
        "✗"@
    }) + " "@ + (match d.alias {
        Some(alias) => alias,
        None => d.username,
    })
}

/// The contacts are listed.
pub open spec fn contacts_listed(c: ClientView) -> ClientView {
    let header = noted(c, "── Contacts ──"@);
    if c.state.contacts.len() == 0 {
        noted(header, "  No contacts. Use /request <username>"@)
    } else {
        noted_all(header, c.state.contacts.map_values(|d: DisplayView| contact_line(d)))
    }
}

/// The line for a pending request in the list of requests.
pub open spec fn request_line(name: Seq<char>) -> Seq<char> {
    "  📩 "@ + name + " — /accept "@ + name + " or /reject "@ + name
}

/// `names` lists the senders of the pending requests, each once.
pub open spec fn lists_pending(names: Seq<Seq<char>>, c: ClientView) -> bool {
    &&& names.no_duplicates()
    &&& forall|k: Seq<char>| names.contains(k) <==> #[trigger] c.pending.contains_key(k)
}

/// The pending requests are listed.
pub open spec fn requests_listed(c: ClientView, names: Seq<Seq<char>>) -> ClientView {
    let header = noted(c, "── Pending Chat Requests ──"@);
    if names.len() == 0 {
        noted(header, "  No pending requests."@)
    } else {
        noted_all(header, names.map_values(|n: Seq<char>| request_line(n)))
    }
}

/// The state of the connection is told.
pub open spec fn status_told(c: ClientView) -> ClientView {
    noted(
        c,
        "Connected: "@ + network::bool_word(c.state.connected) + " | Sessions: "@ + text::decimal(
            c.sessions.dom().len(),
        ) + " | Pending: "@ + text::decimal(c.pending.dom().len()),
    )
}

/// What a command does: the client after it, and what has to be done. `nonce`
/// is the nonce for a message, `names` the order in which requests are listed.
pub open spec fn commanded(
    c: ClientView,
    cmd: CommandView,
    nonce: Seq<u8>,
    names: Seq<Seq<char>>,
) -> (ClientView, ActionView) {
    match cmd {
        Command::Message(line) => message_sent(c, line, nonce),
        Command::Request(target) => bundle_asked(c, target),
        Command::Accept(from) => request_accepted(c, from),
        Command::Reject(from) => request_rejected(c, from),
        Command::Select(username) => (peer_selected(c, username), Action::Nothing),
        Command::Remove(username) => (contact_removed(c, username), Action::Nothing),
        Command::Alias(username, alias) => (alias_set(c, username, alias), Action::Nothing),
        Command::Verify(peer) => (safety_shown(c, peer), Action::Nothing),
        Command::Clear => (screen_cleared(c), Action::Nothing),
        Command::History(on) => (history_switched(c, on), Action::Nothing),
        Command::Purge => (
            noted(
                ClientView { history: history::purged(c.history), ..c },
                "History purged."@,
            ),
            Action::PurgeHistory,
        ),
        Command::File(path) => file_asked(c, path),
        Command::Help => (
            ClientView { state: AppView { show_help: true, ..c.state }, ..c },
            Action::Nothing,
        ),
        Command::Panic => panicked(c),
        Command::Quit => (
            ClientView { state: AppView { should_quit: true, ..c.state }, ..c },
            Action::Nothing,
        ),
        Command::Contacts => (contacts_listed(c), Action::Nothing),
        Command::Requests => (requests_listed(c, names), Action::Nothing),
        Command::Status => (status_told(c), Action::Nothing),
        Command::Reconnect => (noted(c, "Auto-reconnecting..."@), Action::Nothing),
        Command::Lock => (screen_locked(c), Action::Nothing),
        Command::Unlock(attempt) => (unlock_tried(c, attempt), Action::Nothing),
        Command::Unknown(msg) => (noted(c, msg), Action::Nothing),
    }
}

/// Whether a chat request can be accepted: the keys that answer it have 32 bytes
/// each.
pub open spec fn can_accept(c: ClientView, from: Seq<char>) -> bool {
    c.pending.contains_key(from) ==> c.identity.signing_key.len() == 32
        && c.identity.signed_prekey.len() == 32 && (otpk_of(
        c.identity,
        c.pending[from].otpk_index,
    ) matches Some(k) ==> k.len() == 32)
}

/// Whether a safety number can be shown, where one is asked for: the signing key
/// has 32 bytes.
pub open spec fn can_compare(c: ClientView, maybe_peer: Option<Seq<char>>) -> bool {
    let peer = named_peer(c, maybe_peer);
    peer.len() > 0 && c.contacts.contains_key(peer) && c.contacts[peer].identity_key is Some
        ==> c.identity.signing_key.len() == 32
}

/// Whether a command can be handled: no counter overflows, and the keys that it
/// needs have 32 bytes.
pub open spec fn can_command(c: ClientView, cmd: CommandView) -> bool {
    match cmd {
        Command::Message(line) => can_send(c, line),
        Command::Accept(from) => can_accept(c, from),
        Command::Verify(peer) => can_compare(c, peer),
        _ => true,
    }
}

impl Client {
    fn note(&mut self, line: &str)
        ensures
            final(self)@ == noted(old(self)@, line@),
            final(self).goes_on_from(*old(self)),
    {
        self.state.add_system_message(line);
    }

    fn note_all(&mut self, lines: &Vec<String>)
        ensures
            final(self)@ == noted_all(old(self)@, tui::texts(lines@)),
            final(self).goes_on_from(*old(self)),
    {
        let ghost all = tui::texts(lines@);
        let n: usize = lines.len();
        let ghost base = self@;
        assert(self@ =~= noted_all(base, all.take(0)));
        for i in 0..n
            invariant
                n == lines@.len(),
                all == tui::texts(lines@),
                self@ == noted_all(base, all.take(i as int)),
                self.goes_on_from(*old(self)),
        {
            let ghost before = self@;
            self.note(lines[i].as_str());
            assert(all.take(i + 1) =~= all.take(i as int).push(lines@[i as int]@));
            assert(self@.state.system_messages =~= noted_all(
                base,
                all.take(i + 1),
            ).state.system_messages);
        }
        assert(all.take(n as int) =~= all);
    }

    fn show_contact(&mut self, username: &String)
        ensures
            final(self)@ == shown(old(self)@, username@),
            final(self).goes_on_from(*old(self)),
    {
        if tui::find_contact(&self.state.contacts, username.as_str()).is_none() {
            self.state.contacts.push(
                ContactDisplay {
                    username: username.clone(),
                    alias: None,
                    online: true,
                    verified: false,
                    unread: 0,
                },
            );
            assert(self@.state.contacts =~= shown(old(self)@, username@).state.contacts);
        }
    }

    fn befriend(&mut self, username: &String, key: Vec<u8>)
        ensures
            final(self)@ == befriended(old(self)@, username@, key@),
            final(self).goes_on_from(*old(self)),
    {
        self.contacts.add(username.as_str());
        self.contacts.set_identity_key(username.as_str(), key);
        self.show_contact(username);
    }

    fn send_message(&mut self, line: String, nonce: [u8; 24]) -> (r: Action)
        requires
            can_send(old(self)@, line@),
        ensures
            (final(self)@, r@) == message_sent(old(self)@, line@, nonce@),
            final(self).goes_on_from(*old(self)),
            readable(old(self)@, r@, line@),
    {
        if line.as_str().is_empty() {
            return Action::Nothing;
        }
        let peer = match &self.state.active_peer {
            Some(p) => p.clone(),
            None => {
                self.note("No contact selected. Use /select <username>");
                return Action::Nothing;
            },
        };
        let outcome = match self.sessions.get_session_mut(peer.as_str()) {
            Some(session) => {
                let padded = protocol::pad_payload(line.as_str().as_bytes());
                Some(session.encrypt_with(padded.as_slice(), nonce))
            },
            None => None,
        };
        match outcome {
            Some(Ok((ciphertext, n))) => Action::Send {
                command: NetCommand::SendMessage { to: peer.clone(), ciphertext, nonce: n },
                then: Then::Sent { peer, text: line },
            },
            Some(Err(e)) => {
                let reason = e.message();
                self.note(text::join2("Encryption failed: ", reason.as_str()).as_str());
                Action::Nothing
            },
            None => {
                self.note_no_session(peer.as_str());
                Action::Nothing
            },
        }
    }

    /// Accepts a chat request. The session that it gives is the one that the
    /// sender of the request has.
    pub fn accept(&mut self, from: String) -> (r: Action)
        requires
            can_accept(old(self)@, from@),
        ensures
            (final(self)@, r@) == request_accepted(old(self)@, from@),
            final(self).goes_on_from(*old(self)),
            accept_agrees(old(self)@, final(self)@, from@),
    {
        let found = self.pending.remove(from.as_str());
        assert(self@.pending =~= old(self)@.pending.remove(from@));
        match found {
            Some(req) => {
                let ghost request = old(self)@.pending[from@];
                assert(req@ == request);
                let mut signing = bytes::to_array32(self.identity.signing_key_bytes.as_slice());
                let our_secret = x3dh::ed25519_secret_to_x25519(&signing);
                primitives::wipe_array(&mut signing);
                let their_key = key_or_zeros(req.identity_public_key.as_slice());
                let their_identity = x3dh::ed25519_pub_to_x25519(&their_key);
                let their_ephemeral = key_or_zeros(req.ephemeral_pub.as_slice());
                let otpk_secret = match req.otpk_index {
                    Some(idx) => self.identity.otpk_secret_at(idx),
                    None => None,
                };
                let otpk = otpk_secret.as_ref();
                assert(x3dh::opt_secret(otpk) == otpk_of(self@.identity, req.otpk_index));
                match x3dh::x3dh_respond(
                    &our_secret,
                    &self.identity.spk_secret(),
                    otpk,
                    &their_identity,
                    &their_ephemeral,
                ) {
                    Ok(mut shared_secret) => {
                        let session = SessionRatchet::new(&shared_secret, false);
                        primitives::wipe_array(&mut shared_secret);
                        self.sessions.put_session(from.clone(), session);
                        self.befriend(&from, req.identity_public_key);
                        Action::Send {
                            command: NetCommand::ChatAccept { to: from.clone() },
                            then: Then::Accepted { from },
                        }
                    },
                    Err(e) => {
                        let reason = e.message();
                        self.note(
                            text::join4(
                                "Key exchange failed with ",
                                from.as_str(),
                                ": ",
                                reason.as_str(),
                            ).as_str(),
                        );
                        Action::Nothing
                    },
                }
            },
            None => {
                assert(self@ =~= old(self)@);
                self.note(
                    text::join3(
                        "No pending request from ",
                        from.as_str(),
                        ". Use /requests to see pending.",
                    ).as_str(),
                );
                Action::Nothing
            },
        }
    }

    fn reject(&mut self, from: String) -> (r: Action)
        ensures
            (final(self)@, r@) == request_rejected(old(self)@, from@),
            final(self).goes_on_from(*old(self)),
    {
        let found = self.pending.remove(from.as_str()).is_some();
        assert(self@.pending =~= old(self)@.pending.remove(from@));
        if found {
            Action::Send {
                command: NetCommand::ChatReject { to: from.clone() },
                then: Then::Rejected { from },
            }
        } else {
            assert(self@ =~= old(self)@);
            self.note(text::join3("No pending request from ", from.as_str(), ".").as_str());
            Action::Nothing
        }
    }

    fn select(&mut self, username: String)
        ensures
            final(self)@ == peer_selected(old(self)@, username@),
            final(self).goes_on_from(*old(self)),
    {
        let name = username.as_str();
        if self.sessions.has_session(name) || self.contacts.has(name) {
            self.state.active_peer = Some(username.clone());
            if let Some(idx) = tui::find_contact(&self.state.contacts, name) {
                let ghost before = self@.state.contacts;
                assert(before[idx as int] == self.state.contacts@[idx as int]@);
                self.state.selected_contact = Some(idx);
                self.state.contacts[idx].unread = 0;
                assert(self@.state.contacts =~= before.update(
                    idx as int,
                    ContactDisplay { unread: 0, ..before[idx as int] },
                ));
            }
        } else {
            self.note(
                text::join4(name, " is not a contact. Use /request ", name, " first.").as_str(),
            );
        }
    }

    fn set_alias(&mut self, username: String, alias: String)
        ensures
            final(self)@ == alias_set(old(self)@, username@, alias@),
            final(self).goes_on_from(*old(self)),
    {
        self.contacts.set_alias(username.as_str(), alias.as_str());
        if let Some(idx) = tui::find_contact(&self.state.contacts, username.as_str()) {
            let ghost before = self@.state.contacts;
            assert(before[idx as int] == self.state.contacts@[idx as int]@);
            self.state.contacts[idx].alias = Some(alias.clone());
            assert(self@.state.contacts =~= before.update(
                idx as int,
                ContactDisplay { alias: Some(alias@), ..before[idx as int] },
            ));
        }
        self.note(text::join4("Alias: ", username.as_str(), " → ", alias.as_str()).as_str());
    }

    fn peer_or_active(&self, maybe_peer: Option<String>) -> (r: String)
        ensures
            r@ == named_peer(self@, text::opt_text(maybe_peer)),
    {
        match maybe_peer {
            Some(p) => p,
            None => match &self.state.active_peer {
                Some(p) => p.clone(),
                None => String::new(),
            },
        }
    }

    fn show_safety_number(&mut self, maybe_peer: Option<String>)
        requires
            can_compare(old(self)@, text::opt_text(maybe_peer)),
        ensures
            final(self)@ == safety_shown(old(self)@, text::opt_text(maybe_peer)),
            final(self).goes_on_from(*old(self)),
    {
        let peer = self.peer_or_active(maybe_peer);
        if peer.as_str().is_empty() {
            self.note("Usage: /verify <username>");
            return;
        }
        let key = match self.contacts.get(peer.as_str()) {
            None => {
                self.note(text::join2("Contact not found: ", peer.as_str()).as_str());
                return;
            },
            Some(contact) => bytes::copy_opt_bytes(&contact.identity_key),
        };
        match key {
            None => {
                self.note(text::join3("No key known for ", peer.as_str(), ".").as_str());
            },
            Some(key) => {
                let own = self.identity.identity_public_key();
                let number = fingerprint::safety_number(own.as_slice(), key.as_slice());
                self.note(
                    text::join4(
                        "Safety number with ",
                        peer.as_str(),
                        ": ",
                        number.as_str(),
                    ).as_str(),
                );
                self.note("Compare this over a separate channel (voice, in person).");
            },
        }
    }

    /// Takes note that the user has compared the safety number with a contact
    /// over a separate channel, and that it matches.
    pub fn confirm(&mut self, peer: String)
        ensures
            final(self)@ == peer_confirmed(old(self)@, peer@),
            final(self).goes_on_from(*old(self)),
    {
        let known = match self.contacts.get(peer.as_str()) {
            None => {
                self.note(text::join2("Contact not found: ", peer.as_str()).as_str());
                return;
            },
            Some(contact) => contact.identity_key.is_some(),
        };
        if !known {
            self.note(text::join3("No key known for ", peer.as_str(), ".").as_str());
            return;
        }
        self.contacts.verify(peer.as_str());
        if let Some(idx) = tui::find_contact(&self.state.contacts, peer.as_str()) {
            let ghost before = self@.state.contacts;
            assert(before[idx as int] == self.state.contacts@[idx as int]@);
            self.state.contacts[idx].verified = true;
            assert(self@.state.contacts =~= before.update(
                idx as int,
                ContactDisplay { verified: true, ..before[idx as int] },
            ));
        }
        self.note(text::join3("✓ ", peer.as_str(), " is verified.").as_str());
    }

    fn remove_contact(&mut self, username: String)
        ensures
            final(self)@ == contact_removed(old(self)@, username@),
            final(self).goes_on_from(*old(self)),
    {
        let name = username.as_str();
        let is_shown = tui::find_contact(&self.state.contacts, name).is_some();
        if !self.contacts.has(name) && !is_shown {
            self.note(text::join2("Contact not found: ", name).as_str());
            return;
        }
        self.contacts.remove(name);
        let mut all: Vec<ContactDisplay> = Vec::new();
        std::mem::swap(&mut all, &mut self.state.contacts);
        self.state.contacts = tui::without_contact(all, name);
        let is_active = match &self.state.active_peer {
            Some(peer) => text::same_text(peer.as_str(), name),
            None => false,
        };
        if is_active {
            self.state.active_peer = None;
        }
        self.state.selected_contact = match &self.state.active_peer {
            Some(peer) => tui::find_contact(&self.state.contacts, peer.as_str()),
            None => None,
        };
        self.note(text::join2("Removed contact: ", name).as_str());
    }

    fn lock_screen(&mut self)
        ensures
            final(self)@ == screen_locked(old(self)@),
            final(self).goes_on_from(*old(self)),
    {
        self.state.locked = true;
        self.state.show_help = false;
        self.state.input = String::new();
        self.state.cursor_pos = 0;
        assert(self@.state.input =~= seq![]);
        self.note("Screen locked.");
    }

    fn try_unlock(&mut self, attempt: String)
        ensures
            final(self)@ == unlock_tried(old(self)@, attempt@),
            final(self).goes_on_from(*old(self)),
    {
        if !self.state.locked {
            return;
        }
        if self.history.is_password(attempt.as_str()) {
            self.state.locked = false;
            self.note("Screen unlocked.");
        } else {
            self.note("Wrong password.");
        }
    }

    fn note_no_session(&mut self, peer: &str)
        ensures
            final(self)@ == noted(old(self)@, no_session_line(peer@)),
            final(self).goes_on_from(*old(self)),
    {
        self.note(
            text::join5("No session with ", peer, ". Use /request ", peer, " first.").as_str(),
        );
    }

    fn ask_for_file(&mut self, path: String) -> (r: Action)
        ensures
            (final(self)@, r@) == file_asked(old(self)@, path@),
            final(self).goes_on_from(*old(self)),
    {
        let peer = match &self.state.active_peer {
            Some(p) => p.clone(),
            None => {
                self.note("No contact selected. Use /select <username>");
                return Action::Nothing;
            },
        };
        if self.sessions.has_session(peer.as_str()) {
            Action::ReadFile { peer, path }
        } else {
            self.note_no_session(peer.as_str());
            Action::Nothing
        }
    }

    fn destroy_all(&mut self) -> (r: Action)
        ensures
            (final(self)@, r@) == panicked(old(self)@),
            final(self).sessions.version_number() == old(self).sessions.version_number(),
    {
        self.sessions.purge();
        self.contacts = ContactStore::new();
        self.pending = TextMap::new();
        self.history.purge();
        self.state.active_peer = None;
        self.state.selected_contact = None;
        self.state.messages = TextMap::new();
        self.state.contacts = Vec::new();
        self.state.input_history = Vec::new();
        self.state.input_history_idx = None;
        self.state.system_messages = Vec::new();
        self.state.should_quit = true;
        self.note("!!! PANIC !!!");
        assert(self@ =~= panicked(old(self)@).0);
        Action::Panic
    }

    fn clear_screen(&mut self)
        ensures
            final(self)@ == screen_cleared(old(self)@),
            final(self).goes_on_after(*old(self), Command::Clear),
    {
        match &self.state.active_peer {
            Some(peer) => {
                let name = peer.clone();
                self.state.messages.remove(name.as_str());
                assert(self@.state.messages =~= old(self)@.state.messages.remove(name@));
            },
            None => {
                self.state.system_messages = Vec::new();
                assert(self@.state.system_messages =~= seq![]);
            },
        }
    }

    fn list_contacts(&mut self)
        ensures
            final(self)@ == contacts_listed(old(self)@),
            final(self).goes_on_from(*old(self)),
    {
        self.note("── Contacts ──");
        let n: usize = self.state.contacts.len();
        if n == 0 {
            self.note("  No contacts. Use /request <username>");
            return;
        }
        let ghost shown = self@.state.contacts;
        let mut lines: Vec<String> = Vec::new();
        for i in 0..n
            invariant
                n == self.state.contacts@.len(),
                shown == self@.state.contacts,
                lines@.len() == i,
                forall|j: int| 0 <= j < i ==> (#[trigger] lines@[j])@ == contact_line(shown[j]),
        {
            let c = &self.state.contacts[i];
            assert(shown[i as int] == c@);
            let status = if c.online {
                "●"
            } else {
                "○"
            };
            let verified = if c.verified {
                "✓"
            } else {
                "✗"
            };
            let name = match &c.alias {
                Some(alias) => alias.as_str(),
                None => c.username.as_str(),
            };
            lines.push(text::join6("  ", status, " ", verified, " ", name));
        }
        assert(tui::texts(lines@) =~= shown.map_values(|d: DisplayView| contact_line(d)));
        self.note_all(&lines);
    }

    fn list_requests(&mut self)
        ensures
            exists|names: Seq<Seq<char>>| #[trigger]
                lists_pending(names, old(self)@) && final(self)@ == requests_listed(
                    old(self)@,
                    names,
                ),
            final(self).goes_on_from(*old(self)),
    {
        let names = self.pending.names();
        let ghost all = tui::texts(names@);
        let n: usize = self.pending.len();
        proof {
            self.pending.lemma_listed();
            assert(all == self.pending.listed());
            assert forall|k: Seq<char>| all.contains(k) <==> #[trigger]
                old(self)@.pending.contains_key(k) by {
                assert(old(self)@.pending.contains_key(k) == self.pending@.contains_key(k));
            }
            assert(lists_pending(all, old(self)@));
        }
        self.note("── Pending Chat Requests ──");
        if n == 0 {
            self.note("  No pending requests.");
            return;
        }
        let mut lines: Vec<String> = Vec::new();
        for i in 0..n
            invariant
                n == names@.len(),
                all == tui::texts(names@),
                lines@.len() == i,
                forall|j: int| 0 <= j < i ==> (#[trigger] lines@[j])@ == request_line(all[j]),
        {
            let name = names[i].as_str();
            assert(all[i as int] == name@);
            lines.push(text::join6("  📩 ", name, " — /accept ", name, " or /reject ", name));
        }
        assert(tui::texts(lines@) =~= all.map_values(|n: Seq<char>| request_line(n)));
        self.note_all(&lines);
    }

    fn tell_status(&mut self)
        ensures
            final(self)@ == status_told(old(self)@),
            final(self).goes_on_from(*old(self)),
    {
        let sessions: usize = self.sessions.count();
        let pending: usize = self.pending.len();
        assert(self@.pending.dom() =~= self.pending@.dom());
        self.note(
            text::join6(
                "Connected: ",
                network::bool_text(self.state.connected),
                " | Sessions: ",
                text::decimal_text(sessions as u64).as_str(),
                " | Pending: ",
                text::decimal_text(pending as u64).as_str(),
            ).as_str(),
        );
    }

    fn can_answer(&self, from: &str) -> (r: bool)
        ensures
            r == can_accept(self@, from@),
    {
        match self.pending.get(from) {
            Some(request) => self.identity.signing_key_bytes.len() == 32
                && self.identity.signed_prekey_secret.len() == 32 && match request.otpk_index {
                Some(idx) => idx as usize >= self.identity.one_time_prekey_secrets.len()
                    || self.identity.one_time_prekey_secrets[idx as usize].len() == 32,
                None => true,
            },
            None => true,
        }
    }

    /// Whether a command can be handled: no counter overflows, and the keys that
    /// it needs have 32 bytes.
    pub fn can_handle(&self, cmd: &Command) -> (r: bool)
        ensures
            r == can_command(self@, cmd@),
    {
        match cmd {
            Command::Message(line) => {
                if line.as_str().is_empty() {
                    return true;
                }
                match &self.state.active_peer {
                    Some(peer) => match self.sessions.get_session(peer.as_str()) {
                        Some(session) => session.send_chain.counter() < u32::MAX
                            && text::byte_count(line.as_str()) <= usize::MAX
                            - protocol::PAD_BLOCK_SIZE - protocol::LENGTH_SIZE,
                        None => true,
                    },
                    None => true,
                }
            },
            Command::Accept(from) => self.can_answer(from.as_str()),
            Command::Verify(maybe_peer) => {
                let peer = self.peer_or_active(maybe_peer.clone());
                peer.as_str().is_empty() || self.identity.signing_key_bytes.len() == 32
                    || match self.contacts.get(peer.as_str()) {
                    Some(contact) => contact.identity_key.is_none(),
                    None => true,
                }
            },
            _ => true,
        }
    }

    /// What a command does, with a fresh nonce for a message.
    pub fn handle_command(&mut self, cmd: Command) -> (r: Action)
        requires
            can_command(old(self)@, cmd@),
        ensures
            exists|nonce: Seq<u8>, names: Seq<Seq<char>>|
                nonce.len() == 24 && lists_pending(names, old(self)@) && (final(self)@, r@)
                    == #[trigger] commanded(old(self)@, cmd@, nonce, names),
            final(self).goes_on_after(*old(self), cmd@),
            cmd matches Command::Message(line) ==> readable(old(self)@, r@, line@),
            cmd matches Command::Accept(from) ==> accept_agrees(old(self)@, final(self)@, from@),
    {
        let nonce = primitives::random_nonce();
        self.handle_command_with(cmd, nonce)
    }

    /// What a command does, with a given nonce for a message.
    pub fn handle_command_with(&mut self, cmd: Command, nonce: [u8; 24]) -> (r: Action)
        requires
            can_command(old(self)@, cmd@),
        ensures
            exists|names: Seq<Seq<char>>|
                lists_pending(names, old(self)@) && (final(self)@, r@) == #[trigger] commanded(
                    old(self)@,
                    cmd@,
                    nonce@,
                    names,
                ),
            final(self).goes_on_after(*old(self), cmd@),
            cmd matches Command::Message(line) ==> readable(old(self)@, r@, line@),
            cmd matches Command::Accept(from) ==> accept_agrees(old(self)@, final(self)@, from@),
    {
        let ghost listing = self.pending.listed();
        let n: usize = self.pending.len();
        proof {
            self.pending.lemma_listed();
            assert forall|k: Seq<char>| listing.contains(k) <==> #[trigger]
                old(self)@.pending.contains_key(k) by {
                assert(old(self)@.pending.contains_key(k) == self.pending@.contains_key(k));
            }
            assert(lists_pending(listing, old(self)@));
        }
        let ghost before = self@;
        let r = match cmd {
            Command::Message(line) => self.send_message(line, nonce),
            Command::Request(target) => {
                self.note(
                    text::join3("Sending chat request to ", target.as_str(), "...").as_str(),
                );
                Action::Send {
                    command: NetCommand::FetchBundle { target },
                    then: Then::Nothing,
                }
            },
            Command::Accept(from) => self.accept(from),
            Command::Reject(from) => self.reject(from),
            Command::Select(username) => {
                self.select(username);
                Action::Nothing
            },
            Command::Alias(username, alias) => {
                self.set_alias(username, alias);
                Action::Nothing
            },
            Command::Remove(username) => {
                self.remove_contact(username);
                Action::Nothing
            },
            Command::Verify(peer) => {
                self.show_safety_number(peer);
                Action::Nothing
            },
            Command::Clear => {
                self.clear_screen();
                Action::Nothing
            },
            Command::History(on) => {
                if on {
                    self.history.enable();
                    self.state.history_enabled = true;
                    self.note("History ON.");
                } else {
                    self.history.disable();
                    self.state.history_enabled = false;
                    self.note("History OFF.");
                }
                Action::Nothing
            },
            Command::Purge => {
                self.history.purge();
                self.note("History purged.");
                Action::PurgeHistory
            },
            Command::File(path) => self.ask_for_file(path),
            Command::Help => {
                self.state.show_help = true;
                Action::Nothing
            },
            Command::Panic => self.destroy_all(),
            Command::Quit => {
                self.state.should_quit = true;
                Action::Nothing
            },
            Command::Contacts => {
                self.list_contacts();
                Action::Nothing
            },
            Command::Requests => {
                self.list_requests();
                proof {
                    let names = choose|names: Seq<Seq<char>>| #[trigger]
                        lists_pending(names, before) && self@ == requests_listed(before, names);
                    assert((self@, Action::<Seq<char>, Seq<u8>, Seq<Seq<u8>>>::Nothing)
                        == commanded(before, cmd@, nonce@, names));
                }
                Action::Nothing
            },
            Command::Status => {
                self.tell_status();
                Action::Nothing
            },
            Command::Reconnect => {
                self.note("Auto-reconnecting...");
                Action::Nothing
            },
            Command::Lock => {
                self.lock_screen();
                Action::Nothing
            },
            Command::Unlock(attempt) => {
                self.try_unlock(attempt);
                Action::Nothing
            },
            Command::Unknown(msg) => {
                self.note(msg.as_str());
                Action::Nothing
            },
        };
        proof {
            if !(cmd is Requests) {
                assert((self@, r@) == commanded(before, cmd@, nonce@, listing));
            }
        }
        r
    }
}

// ── Files ───────────────────────────────────────────────────

/// What carries a chunk of a file: the chunk is padded, and sealed with the
/// next key of the session.
pub open spec fn chunk_command(
    session: SessionView,
    to: Seq<char>,
    filename: Seq<char>,
    data: Seq<u8>,
    i: int,
    nonce: Seq<u8>,
) -> NetCommandView {
    NetCommand::SendFile {
        to,
        filename,
        chunk_index: i as u32,
        total_chunks: files::chunk_total(data.len()) as u32,
        ciphertext: primitives::xchacha_sealed(
            ratchet::message_key(ratchet::after_sends(session, i as nat).send),
            nonce,
            protocol::padded(files::chunk(data, i)),
        ),
        nonce,
    }
}

/// The views of a list of commands.
pub open spec fn command_views(commands: Seq<NetCommand>) -> Seq<NetCommandView> {
    commands.map_values(|c: NetCommand| c@)
}

/// The bytes of a list of nonces.
pub open spec fn nonce_views(nonces: Seq<[u8; 24]>) -> Seq<Seq<u8>> {
    nonces.map_values(|n: [u8; 24]| n@)
}

/// A file is sent: the client after it, the commands that carry its chunks in
/// order, and what is left to do once they have been sent. A file with more
/// chunks than the session can still count is not sent.
pub open spec fn file_sent(
    c: ClientView,
    peer: Seq<char>,
    path: Seq<char>,
    data: Seq<u8>,
    nonces: Seq<Seq<u8>>,
) -> (ClientView, Seq<NetCommandView>, Then<Seq<char>>) {
    let filename = files::name_in(path);
    let n = files::chunk_total(data.len());
    if !c.sessions.contains_key(peer) {
        (noted(c, no_session_line(peer)), seq![], Then::Nothing)
    } else if c.sessions[peer].send.counter + n > u32::MAX {
        (noted(c, "File too large: "@ + filename), seq![], Then::Nothing)
    } else {
        (
            ClientView {
                sessions: c.sessions.insert(peer, ratchet::after_sends(c.sessions[peer], n)),
                ..c
            },
            Seq::new(
                n,
                |i: int| chunk_command(c.sessions[peer], peer, filename, data, i, nonces[i]),
            ),
            Then::FileSent { peer, filename },
        )
    }
}

/// What is sent of a file is read at the other end: a receiver that is in step
/// when a chunk comes gets the padded form of that chunk.
pub open spec fn chunks_readable(
    session: SessionView,
    commands: Seq<NetCommandView>,
    data: Seq<u8>,
) -> bool {
    forall|i: int, receiver: SessionView|
        0 <= i < commands.len() && #[trigger] ratchet::in_step(
            ratchet::after_sends(session, i as nat),
            receiver,
        ) ==> ratchet::received(
            receiver,
            commands[i]->SendFile_ciphertext,
            commands[i]->SendFile_nonce,
        ) == Ok::<Seq<u8>, CryptoError>(protocol::padded(files::chunk(data, i)))
}

impl Client {
    /// Sends a file to a chat, with fresh nonces. The result is what has to be
    /// sent, chunk by chunk, and what is left to do after that.
    pub fn send_file(&mut self, peer: String, path: &str, data: &[u8]) -> (r: (
        Vec<NetCommand>,
        Then,
    ))
        ensures
            exists|nonces: Seq<Seq<u8>>|
                nonces.len() == files::chunk_total(data@.len()) && (
                final(self)@,
                command_views(r.0@),
                r.1@,
            ) == #[trigger] file_sent(old(self)@, peer@, path@, data@, nonces),
            old(self)@.sessions.contains_key(peer@) ==> chunks_readable(
                old(self)@.sessions[peer@],
                command_views(r.0@),
                data@,
            ),
            final(self).goes_on_from(*old(self)),
    {
        let n: usize = files::chunk_count(data.len());
        let mut nonces: Vec<[u8; 24]> = Vec::new();
        for i in 0..n
            invariant
                nonces@.len() == i,
        {
            nonces.push(primitives::random_nonce());
        }
        let r = self.send_file_with(peer, path, data, &nonces);
        assert((self@, command_views(r.0@), r.1@) == file_sent(
            old(self)@,
            peer@,
            path@,
            data@,
            nonce_views(nonces@),
        ));
        r
    }

    /// Sends a file to a chat, with a given nonce for each chunk.
    pub fn send_file_with(
        &mut self,
        peer: String,
        path: &str,
        data: &[u8],
        nonces: &Vec<[u8; 24]>,
    ) -> (r: (Vec<NetCommand>, Then))
        requires
            nonces@.len() == files::chunk_total(data@.len()),
        ensures
            (final(self)@, command_views(r.0@), r.1@) == file_sent(
                old(self)@,
                peer@,
                path@,
                data@,
                nonce_views(nonces@),
            ),
            old(self)@.sessions.contains_key(peer@) ==> chunks_readable(
                old(self)@.sessions[peer@],
                command_views(r.0@),
                data@,
            ),
            final(self).goes_on_from(*old(self)),
    {
        let filename = files::file_name(path);
        let n: usize = files::chunk_count(data.len());
        let mut out: Vec<NetCommand> = Vec::new();
        assert(command_views(out@) =~= seq![]);
        let left: u32 = match self.sessions.get_session(peer.as_str()) {
            Some(session) => u32::MAX - session.send_chain.counter(),
            None => {
                self.note_no_session(peer.as_str());
                return (out, Then::Nothing);
            },
        };
        if n > left as usize {
            self.note(text::join2("File too large: ", filename.as_str()).as_str());
            return (out, Then::Nothing);
        }
        let ghost before = self@;
        let ghost session = before.sessions[peer@];
        let ghost wanted = file_sent(before, peer@, path@, data@, nonce_views(nonces@)).1;
        assert(self@.sessions =~= before.sessions.insert(
            peer@,
            ratchet::after_sends(session, 0),
        ));
        for i in 0..n
            invariant
                n == files::chunk_total(data@.len()),
                n == nonces@.len(),
                n == wanted.len(),
                before == old(self)@,
                before.sessions.contains_key(peer@),
                session == before.sessions[peer@],
                session.send.counter + n <= u32::MAX,
                filename@ == files::name_in(path@),
                wanted == file_sent(before, peer@, path@, data@, nonce_views(nonces@)).1,
                self@ == (ClientView {
                    sessions: before.sessions.insert(
                        peer@,
                        ratchet::after_sends(session, i as nat),
                    ),
                    ..before
                }),
                self.goes_on_from(*old(self)),
                command_views(out@) == wanted.take(i as int),
                chunks_readable(session, wanted.take(i as int), data@),
        {
            proof {
                ratchet::law_counter_counts_messages(session.send, i as nat);
            }
            let part = files::chunk_of(data, i);
            let padded = protocol::pad_payload(part);
            let nonce: [u8; 24] = nonces[i];
            assert(nonce_views(nonces@)[i as int] == nonce@);
            let ghost now = self@;
            let sealed = match self.sessions.get_session_mut(peer.as_str()) {
                Some(s) => s.encrypt_with(padded.as_slice(), nonce),
                None => Err(CryptoError::RatchetEncryptionFailed),
            };
            match sealed {
                Ok((ciphertext, used)) => {
                    let command = NetCommand::SendFile {
                        to: peer.clone(),
                        filename: filename.clone(),
                        chunk_index: i as u32,
                        total_chunks: n as u32,
                        ciphertext,
                        nonce: used,
                    };
                    let ghost sent = out@;
                    out.push(command);
                    proof {
                        assert(command@ == wanted[i as int]);
                        assert(command_views(out@) =~= command_views(sent).push(command@));
                        assert(wanted.take(i as int).push(command@) =~= wanted.take(i + 1));
                        assert(now.sessions.insert(
                            peer@,
                            ratchet::after_sends(session, (i + 1) as nat),
                        ) =~= before.sessions.insert(
                            peer@,
                            ratchet::after_sends(session, (i + 1) as nat),
                        ));
                        let earlier = wanted.take(i as int);
                        let more = wanted.take(i + 1);
                        assert forall|j: int, receiver: SessionView|
                            0 <= j < more.len() && #[trigger] ratchet::in_step(
                                ratchet::after_sends(session, j as nat),
                                receiver,
                            ) implies ratchet::received(
                            receiver,
                            more[j]->SendFile_ciphertext,
                            more[j]->SendFile_nonce,
                        ) == Ok::<Seq<u8>, CryptoError>(
                            protocol::padded(files::chunk(data@, j)),
                        ) by {
                            if j < i {
                                assert(earlier[j] == more[j]);
                            } else {
                                assert(more[j] == command@);
                            }
                        }
                    }
                },
                Err(_) => {
                    proof {
                        protocol::law_padding_fills_blocks(part@);
                        assert(false);
                    }
                },
            }
        }
        assert(wanted.take(n as int) =~= wanted);
        (out, Then::FileSent { peer, filename })
    }
}

// ── After sending ───────────────────────────────────────────

/// The client once something has been sent, at the time `now`.
pub open spec fn completed(c: ClientView, then: Then<Seq<char>>, now: i64) -> ClientView {
    match then {
        Then::Nothing => c,
        Then::Sent { peer, text } => ClientView {
            state: tui::chatted(c.state, peer, c.state.username, text),
            history: history::recorded(c.history, peer, Direction::Sent, text, now),
            ..c
        },
        Then::Accepted { from } => noted(
            noted(c, "✓ Accepted chat request from "@ + from + ". Session established!"@),
            "  Use /select "@ + from + " to start chatting."@,
        ),
        Then::Rejected { from } => noted(c, "Rejected chat request from "@ + from + "."@),
        Then::Requested { username } => noted(
            c,
            "📤 Chat request sent to "@ + username + ". Waiting for them to accept..."@,
        ),
        Then::FileSent { peer, filename } => noted(
            c,
            "File sent to "@ + peer + ": "@ + filename,
        ),
    }
}

/// What is left to do after sending can be done: no counter overflows.
pub open spec fn can_complete(c: ClientView, then: Then<Seq<char>>) -> bool {
    then matches Then::Sent { peer, .. } ==> tui::can_bump(c.state, peer)
}

impl Client {
    /// Something has been sent: what is left is done, at the present time.
    pub fn complete(&mut self, then: Then)
        requires
            can_complete(old(self)@, then@),
        ensures
            exists|now: i64| final(self)@ == #[trigger] completed(old(self)@, then@, now),
            final(self).goes_on_from(*old(self)),
    {
        let now: i64 = clock::utc_timestamp();
        self.complete_at(then, now);
    }

    /// Something has been sent: what is left is done, at the time `now`.
    pub fn complete_at(&mut self, then: Then, now: i64)
        requires
            can_complete(old(self)@, then@),
        ensures
            final(self)@ == completed(old(self)@, then@, now),
            final(self).goes_on_from(*old(self)),
    {
        match then {
            Then::Nothing => {},
            Then::Sent { peer, text } => {
                let own = self.state.username.clone();
                self.state.add_chat_message(peer.as_str(), own.as_str(), text.as_str());
                self.history.add_at(peer.as_str(), Direction::Sent, text.as_str(), now);
            },
            Then::Accepted { from } => {
                self.note(
                    text::join3(
                        "✓ Accepted chat request from ",
                        from.as_str(),
                        ". Session established!",
                    ).as_str(),
                );
                self.note(
                    text::join3("  Use /select ", from.as_str(), " to start chatting.").as_str(),
                );
            },
            Then::Rejected { from } => {
                self.note(
                    text::join3("Rejected chat request from ", from.as_str(), ".").as_str(),
                );
            },
            Then::Requested { username } => {
                self.note(
                    text::join3(
                        "📤 Chat request sent to ",
                        username.as_str(),
                        ". Waiting for them to accept...",
                    ).as_str(),
                );
            },
            Then::FileSent { peer, filename } => {
                self.note(
                    text::join4("File sent to ", peer.as_str(), ": ", filename.as_str()).as_str(),
                );
            },
        }
    }
}

// ── Events ──────────────────────────────────────────────────

/// The text of a message, once its padding is off. Where there is no padding
/// the message is taken as it is.
pub open spec fn shown_text(padded: Seq<u8>) -> Seq<char> {
    match protocol::unpadded(padded) {
        Some(data) => text::lossy(data),
        None => text::lossy(padded),
    }
}

/// An encrypted message has come, at the time `now`.
pub open spec fn message_received(
    c: ClientView,
    from: Seq<char>,
    ciphertext: Seq<u8>,
    nonce: Seq<u8>,
    now: i64,
) -> ClientView {
    if c.sessions.contains_key(from) {
        let session = c.sessions[from];
        let after = ClientView {
            sessions: c.sessions.insert(from, ratchet::after_receive(session)),
            ..c
        };
        match ratchet::received(session, ciphertext, nonce) {
            Ok(padded) => ClientView {
                state: tui::chatted(after.state, from, from, shown_text(padded)),
                history: history::recorded(
                    after.history,
                    from,
                    Direction::Received,
                    shown_text(padded),
                    now,
                ),
                ..after
            },
            Err(e) => noted(after, "⚠ Decrypt failed from "@ + from + ": "@ + e.text()),
        }
    } else {
        noted(
            c,
            "Message from "@ + from + " but no session. They may need to /request you."@,
        )
    }
}

/// A text whose padding can be undone: its length in bytes fits in the number
/// that stands in front of it.
pub open spec fn survives_padding(line: Seq<char>) -> bool {
    encode_utf8(line).len() <= u32::MAX
}

/// What a message says is what appears: a message that decrypts to the padded
/// form of a text is shown, and recorded, as that text.
pub open spec fn shown_as_written(
    before: ClientView,
    after: ClientView,
    from: Seq<char>,
    ciphertext: Seq<u8>,
    nonce: Seq<u8>,
    now: i64,
) -> bool {
    forall|line: Seq<char>|
        before.sessions.contains_key(from) && survives_padding(line) && ratchet::received(
            before.sessions[from],
            ciphertext,
            nonce,
        ) == Ok::<Seq<u8>, CryptoError>(protocol::padded(#[trigger] encode_utf8(line))) ==> {
            &&& after.state == tui::chatted(before.state, from, from, line)
            &&& after.history == history::recorded(
                before.history,
                from,
                Direction::Received,
                line,
                now,
            )
        }
}

/// The line for a chunk of a file that has come.
pub open spec fn chunk_line(
    from: Seq<char>,
    filename: Seq<char>,
    chunk_index: u32,
    total_chunks: u32,
) -> Seq<char> {
    "File from "@ + from + ": "@ + filename + (" ("@ + text::decimal((chunk_index + 1) as nat)
        + "/"@ + text::decimal(total_chunks as nat) + ")"@)
}

/// What a chunk holds, once its padding is off.
pub open spec fn chunk_content(padded: Seq<u8>) -> Seq<u8> {
    match protocol::unpadded(padded) {
        Some(data) => data,
        None => padded,
    }
}

/// A chunk of a file has come. It counts as a message of the session: it is
/// decrypted, and what it holds has to be written.
pub open spec fn chunk_received(
    c: ClientView,
    from: Seq<char>,
    filename: Seq<char>,
    chunk_index: u32,
    total_chunks: u32,
    ciphertext: Seq<u8>,
    nonce: Seq<u8>,
) -> (ClientView, ActionView) {
    let told = noted(c, chunk_line(from, filename, chunk_index, total_chunks));
    if c.sessions.contains_key(from) {
        let session = c.sessions[from];
        let after = ClientView {
            sessions: c.sessions.insert(from, ratchet::after_receive(session)),
            ..told
        };
        match ratchet::received(session, ciphertext, nonce) {
            Ok(padded) => (
                after,
                Action::SaveChunk {
                    filename: files::name_in(filename),
                    chunk_index,
                    data: chunk_content(padded),
                },
            ),
            Err(e) => (
                noted(after, "⚠ Decrypt failed from "@ + from + ": "@ + e.text()),
                Action::Nothing,
            ),
        }
    } else {
        (told, Action::Nothing)
    }
}

/// A user's keys have come: a session is made, and the chat request is sent.
/// Where the signed prekey is not signed by the identity key, the exchange is
/// aborted.
pub open spec fn bundle_received(
    c: ClientView,
    username: Seq<char>,
    identity_public_key: Seq<u8>,
    signed_prekey: Seq<u8>,
    signed_prekey_signature: Seq<u8>,
    one_time_prekey: Option<Seq<u8>>,
    otpk_index: Option<u32>,
    ephemeral: Seq<u8>,
) -> (ClientView, ActionView) {
    let secret = x3dh::initiator_secret(
        x3dh::x25519_secret(c.identity.signing_key),
        ephemeral,
        x3dh::x25519_identity(key32(identity_public_key)),
        key32(signed_prekey),
        some_key32(one_time_prekey),
    );
    if x3dh::prekey_signed(identity_public_key, signed_prekey, signed_prekey_signature) {
        (
            ClientView {
                sessions: c.sessions.insert(username, ratchet::new_session(secret, true)),
                ..c
            },
            Action::Send {
                command: NetCommand::ChatRequest {
                    to: username,
                    identity_public_key: c.identity.public_key(),
                    ephemeral_pub: primitives::x25519_public_of(ephemeral),
                    otpk_index,
                },
                then: Then::Requested { username },
            },
        )
    } else {
        (
            noted(
                c,
                "Key exchange failed with "@ + username + ": "@
                    + CryptoError::PrekeyNotSigned.text(),
            ),
            Action::Nothing,
        )
    }
}

/// The session that comes from a user's keys is the one that this user gets by
/// accepting: if the keys are those of an identity, the session comes from the
/// secret agreed on with it.
pub open spec fn request_agrees(
    before: ClientView,
    after: ClientView,
    event: NetEventView,
    ephemeral: Seq<u8>,
) -> bool {
    event matches NetEvent::BundleReceived {
        username,
        identity_public_key,
        signed_prekey,
        signed_prekey_signature,
        one_time_prekey,
        otpk_index,
    } ==> forall|responder: IdentityView|
        responder.wf() && identity_public_key.len() == 32 && signed_prekey.len() == 32
            && signed_prekey_signature.len() == 64 && (one_time_prekey matches Some(k) ==> k.len()
            == 32) && identity_public_key == #[trigger] responder.public_key() && signed_prekey
            == responder.spk_public() && signed_prekey_signature == responder.spk_signature()
            && one_time_prekey == x3dh::opt_public(otpk_of(responder, otpk_index))
            ==> after.sessions.contains_key(username) && after.sessions[username]
            == ratchet::new_session(
            agreed_secret(before.identity.signing_key, ephemeral, responder, otpk_index),
            true,
        )
}

/// What an event does: the client after it, and what has to be done.
/// `ephemeral` is a fresh secret for a chat request, `now` the time.
pub open spec fn informed(
    c: ClientView,
    event: NetEventView,
    ephemeral: Seq<u8>,
    now: i64,
) -> (ClientView, ActionView) {
    match event {
        NetEvent::Connected => (
            noted(
                ClientView { state: AppView { connected: true, ..c.state }, ..c },
                "Connected to server."@,
            ),
            Action::Nothing,
        ),
        NetEvent::Disconnected(reason) => (
            noted(
                ClientView { state: AppView { connected: false, ..c.state }, ..c },
                "Disconnected: "@ + reason,
            ),
            Action::Nothing,
        ),
        NetEvent::RegisterOk => (noted(c, "✓ Registered successfully!"@), Action::Nothing),
        NetEvent::RegisterFail(e) => (noted(c, "Registration failed: "@ + e), Action::Nothing),
        NetEvent::LoginOk => (noted(c, "✓ Logged in!"@), Action::Nothing),
        NetEvent::LoginFail(e) => (noted(c, "Login failed: "@ + e), Action::Nothing),
        NetEvent::BundleReceived {
            username,
            identity_public_key,
            signed_prekey,
            signed_prekey_signature,
            one_time_prekey,
            otpk_index,
        } => bundle_received(
            c,
            username,
            identity_public_key,
            signed_prekey,
            signed_prekey_signature,
            one_time_prekey,
            otpk_index,
            ephemeral,
        ),
        NetEvent::BundleError(username, error) => (
            noted(c, "User '"@ + username + "' not found: "@ + error),
            Action::Nothing,
        ),
        NetEvent::IncomingChatRequest { from, identity_public_key, ephemeral_pub, otpk_index } => (
            noted(
                noted(
                    noted(
                        noted(
                            ClientView {
                                pending: c.pending.insert(
                                    from,
                                    PendingRequest {
                                        from,
                                        identity_public_key,
                                        ephemeral_pub,
                                        otpk_index,
                                    },
                                ),
                                ..c
                            },
                            ""@,
                        ),
                        "📩 Chat request from: "@ + from,
                    ),
                    "   Type /accept "@ + from + " or /reject "@ + from,
                ),
                ""@,
            ),
            Action::Nothing,
        ),
        NetEvent::ChatRequestAccepted { from, identity_public_key } => (
            noted(
                noted(
                    befriended(c, from, identity_public_key),
                    "✓ "@ + from + " accepted your chat request! Session is live."@,
                ),
                "  Use /select "@ + from + " to start chatting."@,
            ),
            Action::Nothing,
        ),
        NetEvent::ChatRequestRejected { from } => (
            noted(
                ClientView { sessions: c.sessions.remove(from), ..c },
                "✗ "@ + from + " rejected your chat request."@,
            ),
            Action::Nothing,
        ),
        NetEvent::ChatAck { ok, error } => (
            if ok {
                c
            } else {
                noted(c, "Chat request failed: "@ + network::or_empty(error))
            },
            Action::Nothing,
        ),
        NetEvent::MessageReceived { from, ciphertext, nonce, .. } => (
            message_received(c, from, ciphertext, nonce, now),
            Action::Nothing,
        ),
        NetEvent::FileReceived { from, filename, chunk_index, total_chunks, data, nonce, .. } =>
            chunk_received(c, from, filename, chunk_index, total_chunks, data, nonce),
        NetEvent::MessageSent => (c, Action::Nothing),
        NetEvent::SendFail(e) => (noted(c, "Send failed: "@ + e), Action::Nothing),
        NetEvent::HeartbeatAck { pending } => (
            if pending > 0 {
                noted(c, text::decimal(pending as nat) + " pending message(s)"@)
            } else {
                c
            },
            Action::Nothing,
        ),
        NetEvent::Error(msg) => (noted(c, "Server error: "@ + msg), Action::Nothing),
        NetEvent::SystemMessage(msg) => (noted(c, msg), Action::Nothing),
    }
}

/// Whether an event can be handled: no counter overflows, and the key that a
/// chat request needs has 32 bytes.
pub open spec fn can_inform(c: ClientView, event: NetEventView) -> bool {
    match event {
        NetEvent::BundleReceived { .. } => c.identity.signing_key.len() == 32,
        NetEvent::MessageReceived { from, .. } => c.sessions.contains_key(from) ==> c.sessions[
            from
        ].recv.counter < u32::MAX && tui::can_bump(c.state, from),
        NetEvent::FileReceived { from, chunk_index, .. } => chunk_index < u32::MAX && (
        c.sessions.contains_key(from) ==> c.sessions[from].recv.counter < u32::MAX),
        _ => true,
    }
}

impl Client {
    fn receive_message(&mut self, from: String, ciphertext: Vec<u8>, nonce: Vec<u8>, now: i64)
        requires
            old(self)@.sessions.contains_key(from@) ==> old(self)@.sessions[from@].recv.counter
                < u32::MAX && tui::can_bump(old(self)@.state, from@),
        ensures
            final(self)@ == message_received(old(self)@, from@, ciphertext@, nonce@, now),
            final(self).goes_on_from(*old(self)),
            shown_as_written(old(self)@, final(self)@, from@, ciphertext@, nonce@, now),
    {
        let outcome = match self.sessions.get_session_mut(from.as_str()) {
            Some(session) => Some(session.decrypt(ciphertext.as_slice(), nonce.as_slice())),
            None => None,
        };
        match outcome {
            Some(Ok(padded)) => {
                let line = match protocol::unpad_payload(padded.as_slice()) {
                    Some(data) => {
                        let line = text::from_utf8_lossy(data.as_slice());
                        proof {
                            assert forall|written: Seq<char>|
                                survives_padding(written) && padded@ == protocol::padded(
                                    #[trigger] encode_utf8(written),
                                ) implies line@ == written by {
                                protocol::law_padding_is_undone(encode_utf8(written));
                            }
                        }
                        line
                    },
                    None => {
                        proof {
                            assert forall|written: Seq<char>|
                                survives_padding(written) && padded@ == protocol::padded(
                                    #[trigger] encode_utf8(written),
                                ) implies false by {
                                protocol::law_padding_is_undone(encode_utf8(written));
                            }
                        }
                        text::from_utf8_lossy(padded.as_slice())
                    },
                };
                self.state.add_chat_message(from.as_str(), from.as_str(), line.as_str());
                self.history.add_at(from.as_str(), Direction::Received, line.as_str(), now);
            },
            Some(Err(e)) => {
                let reason = e.message();
                self.note(
                    text::join4(
                        "⚠ Decrypt failed from ",
                        from.as_str(),
                        ": ",
                        reason.as_str(),
                    ).as_str(),
                );
            },
            None => {
                self.note(
                    text::join3(
                        "Message from ",
                        from.as_str(),
                        " but no session. They may need to /request you.",
                    ).as_str(),
                );
            },
        }
    }

    fn receive_chunk(
        &mut self,
        from: String,
        filename: String,
        chunk_index: u32,
        total_chunks: u32,
        ciphertext: Vec<u8>,
        nonce: Vec<u8>,
    ) -> (r: Action)
        requires
            chunk_index < u32::MAX,
            old(self)@.sessions.contains_key(from@) ==> old(self)@.sessions[from@].recv.counter
                < u32::MAX,
        ensures
            (final(self)@, r@) == chunk_received(
                old(self)@,
                from@,
                filename@,
                chunk_index,
                total_chunks,
                ciphertext@,
                nonce@,
            ),
            final(self).goes_on_from(*old(self)),
    {
        let part = text::join5(
            " (",
            text::decimal_text((chunk_index + 1) as u64).as_str(),
            "/",
            text::decimal_text(total_chunks as u64).as_str(),
            ")",
        );
        self.note(
            text::join5("File from ", from.as_str(), ": ", filename.as_str(), part.as_str())
                .as_str(),
        );
        let outcome = match self.sessions.get_session_mut(from.as_str()) {
            Some(session) => session.decrypt(ciphertext.as_slice(), nonce.as_slice()),
            None => return Action::Nothing,
        };
        match outcome {
            Ok(padded) => {
                let data = match protocol::unpad_payload(padded.as_slice()) {
                    Some(data) => data,
                    None => padded,
                };
                Action::SaveChunk {
                    filename: files::file_name(filename.as_str()),
                    chunk_index,
                    data,
                }
            },
            Err(e) => {
                let reason = e.message();
                self.note(
                    text::join4(
                        "⚠ Decrypt failed from ",
                        from.as_str(),
                        ": ",
                        reason.as_str(),
                    ).as_str(),
                );
                Action::Nothing
            },
        }
    }

    fn receive_bundle(
        &mut self,
        username: String,
        identity_public_key: Vec<u8>,
        signed_prekey: Vec<u8>,
        signed_prekey_signature: Vec<u8>,
        one_time_prekey: Option<Vec<u8>>,
        otpk_index: Option<u32>,
        ephemeral: &StaticSecret,
    ) -> (r: Action)
        requires
            old(self)@.identity.signing_key.len() == 32,
        ensures
            (final(self)@, r@) == bundle_received(
                old(self)@,
                username@,
                identity_public_key@,
                signed_prekey@,
                signed_prekey_signature@,
                bytes::opt_bytes(one_time_prekey),
                otpk_index,
                ephemeral@,
            ),
            final(self).goes_on_from(*old(self)),
            forall|responder: IdentityView|
                responder.wf() && identity_public_key@.len() == 32 && signed_prekey@.len() == 32
                    && signed_prekey_signature@.len() == 64 && (one_time_prekey matches Some(k)
                    ==> k@.len() == 32) && identity_public_key@ == #[trigger] responder.public_key()
                    && signed_prekey@ == responder.spk_public() && signed_prekey_signature@
                    == responder.spk_signature() && bytes::opt_bytes(one_time_prekey)
                    == x3dh::opt_public(otpk_of(responder, otpk_index))
                    ==> final(self)@.sessions.contains_key(username@)
                    && final(self)@.sessions[username@] == ratchet::new_session(
                    agreed_secret(
                        old(self)@.identity.signing_key,
                        ephemeral@,
                        responder,
                        otpk_index,
                    ),
                    true,
                ),
    {
        if !x3dh::is_prekey_signed(
            identity_public_key.as_slice(),
            signed_prekey.as_slice(),
            signed_prekey_signature.as_slice(),
        ) {
            let reason = CryptoError::PrekeyNotSigned.message();
            self.note(
                text::join4(
                    "Key exchange failed with ",
                    username.as_str(),
                    ": ",
                    reason.as_str(),
                ).as_str(),
            );
            return Action::Nothing;
        }
        let their_key = key_or_zeros(identity_public_key.as_slice());
        let their_prekey = key_or_zeros(signed_prekey.as_slice());
        let mut signing = bytes::to_array32(self.identity.signing_key_bytes.as_slice());
        let our_secret = x3dh::ed25519_secret_to_x25519(&signing);
        primitives::wipe_array(&mut signing);
        let their_identity = x3dh::ed25519_pub_to_x25519(&their_key);
        let otpk: Option<[u8; 32]> = match &one_time_prekey {
            Some(k) => if k.len() == 32 {
                Some(bytes::to_array32(k.as_slice()))
            } else {
                None
            },
            None => None,
        };
        let otpk_ref = otpk.as_ref();
        assert(x3dh::opt_key(otpk_ref) == some_key32(bytes::opt_bytes(one_time_prekey)));
        match x3dh::x3dh_initiate_with(
            &our_secret,
            ephemeral,
            &their_identity,
            &their_prekey,
            otpk_ref,
        ) {
            Ok(result) => {
                let session = SessionRatchet::new(&result.shared_secret, true);
                self.sessions.put_session(username.clone(), session);
                Action::Send {
                    command: NetCommand::ChatRequest {
                        to: username.clone(),
                        identity_public_key: self.identity.identity_public_key(),
                        ephemeral_pub: bytes::copy_bytes(result.ephemeral_public.as_slice()),
                        otpk_index,
                    },
                    then: Then::Requested { username },
                }
            },
            Err(e) => {
                let reason = e.message();
                self.note(
                    text::join4(
                        "Key exchange failed with ",
                        username.as_str(),
                        ": ",
                        reason.as_str(),
                    ).as_str(),
                );
                Action::Nothing
            },
        }
    }

    /// Whether an event can be handled: no counter overflows, and the key that a
    /// chat request needs has 32 bytes.
    pub fn can_take(&self, event: &NetEvent) -> (r: bool)
        ensures
            r == can_inform(self@, event@),
    {
        match event {
            NetEvent::BundleReceived { .. } => self.identity.signing_key_bytes.len() == 32,
            NetEvent::MessageReceived { from, .. } => match self.sessions.get_session(
                from.as_str(),
            ) {
                Some(session) => session.recv_chain.counter() < u32::MAX && self.state.can_count(
                    from.as_str(),
                ),
                None => true,
            },
            NetEvent::FileReceived { from, chunk_index, .. } => *chunk_index < u32::MAX && (
            match self.sessions.get_session(from.as_str()) {
                Some(session) => session.recv_chain.counter() < u32::MAX,
                None => true,
            }),
            _ => true,
        }
    }

    /// What an event does, with a fresh secret for a chat request, at the
    /// present time.
    pub fn handle_net_event(&mut self, event: NetEvent) -> (r: Action)
        requires
            can_inform(old(self)@, event@),
        ensures
            final(self).goes_on_from(*old(self)),
            exists|ephemeral: Seq<u8>, now: i64|
                ephemeral.len() == 32 && (final(self)@, r@) == #[trigger] informed(
                    old(self)@,
                    event@,
                    ephemeral,
                    now,
                ) && request_agrees(old(self)@, final(self)@, event@, ephemeral) && (
                event matches NetEvent::MessageReceived { from, ciphertext, nonce, .. }
                    ==> shown_as_written(
                    old(self)@,
                    final(self)@,
                    from@,
                    ciphertext@,
                    nonce@,
                    now,
                )),
    {
        let ephemeral = StaticSecret::random();
        let now: i64 = clock::utc_timestamp();
        self.handle_net_event_with(event, &ephemeral, now)
    }

    /// What an event does, with a given secret for a chat request, at the time
    /// `now`.
    pub fn handle_net_event_with(
        &mut self,
        event: NetEvent,
        ephemeral: &StaticSecret,
        now: i64,
    ) -> (r: Action)
        requires
            can_inform(old(self)@, event@),
        ensures
            (final(self)@, r@) == informed(old(self)@, event@, ephemeral@, now),
            final(self).goes_on_from(*old(self)),
            request_agrees(old(self)@, final(self)@, event@, ephemeral@),
            event matches NetEvent::MessageReceived { from, ciphertext, nonce, .. }
                ==> shown_as_written(
                old(self)@,
                final(self)@,
                from@,
                ciphertext@,
                nonce@,
                now,
            ),
    {
        match event {
            NetEvent::Connected => {
                self.state.connected = true;
                self.note("Connected to server.");
                Action::Nothing
            },
            NetEvent::Disconnected(reason) => {
                self.state.connected = false;
                self.note(text::join2("Disconnected: ", reason.as_str()).as_str());
                Action::Nothing
            },
            NetEvent::RegisterOk => {
                self.note("✓ Registered successfully!");
                Action::Nothing
            },
            NetEvent::RegisterFail(e) => {
                self.note(text::join2("Registration failed: ", e.as_str()).as_str());
                Action::Nothing
            },
            NetEvent::LoginOk => {
                self.note("✓ Logged in!");
                Action::Nothing
            },
            NetEvent::LoginFail(e) => {
                self.note(text::join2("Login failed: ", e.as_str()).as_str());
                Action::Nothing
            },
            NetEvent::BundleReceived {
                username,
                identity_public_key,
                signed_prekey,
                signed_prekey_signature,
                one_time_prekey,
                otpk_index,
            } => self.receive_bundle(
                username,
                identity_public_key,
                signed_prekey,
                signed_prekey_signature,
                one_time_prekey,
                otpk_index,
                ephemeral,
            ),
            NetEvent::BundleError(username, error) => {
                self.note(
                    text::join4("User '", username.as_str(), "' not found: ", error.as_str())
                        .as_str(),
                );
                Action::Nothing
            },
            NetEvent::IncomingChatRequest {
                from,
                identity_public_key,
                ephemeral_pub,
                otpk_index,
            } => {
                let request = PendingRequest {
                    from: from.clone(),
                    identity_public_key,
                    ephemeral_pub,
                    otpk_index,
                };
                self.pending.insert(from.clone(), request);
                assert(self@.pending =~= old(self)@.pending.insert(from@, request@));
                self.note("");
                self.note(text::join2("📩 Chat request from: ", from.as_str()).as_str());
                self.note(
                    text::join4("   Type /accept ", from.as_str(), " or /reject ", from.as_str())
                        .as_str(),
                );
                self.note("");
                Action::Nothing
            },
            NetEvent::ChatRequestAccepted { from, identity_public_key } => {
                self.befriend(&from, identity_public_key);
                self.note(
                    text::join3(
                        "✓ ",
                        from.as_str(),
                        " accepted your chat request! Session is live.",
                    ).as_str(),
                );
                self.note(
                    text::join3("  Use /select ", from.as_str(), " to start chatting.").as_str(),
                );
                Action::Nothing
            },
            NetEvent::ChatRequestRejected { from } => {
                self.sessions.remove_session(from.as_str());
                self.note(
                    text::join3("✗ ", from.as_str(), " rejected your chat request.").as_str(),
                );
                Action::Nothing
            },
            NetEvent::ChatAck { ok, error } => {
                if !ok {
                    let reason = match error {
                        Some(e) => e,
                        None => String::new(),
                    };
                    self.note(text::join2("Chat request failed: ", reason.as_str()).as_str());
                }
                Action::Nothing
            },
            NetEvent::MessageReceived { from, ciphertext, nonce, timestamp: _ } => {
                self.receive_message(from, ciphertext, nonce, now);
                Action::Nothing
            },
            NetEvent::FileReceived {
                from,
                filename,
                chunk_index,
                total_chunks,
                data,
                nonce,
                timestamp: _,
            } => self.receive_chunk(from, filename, chunk_index, total_chunks, data, nonce),
            NetEvent::MessageSent => Action::Nothing,
            NetEvent::SendFail(e) => {
                self.note(text::join2("Send failed: ", e.as_str()).as_str());
                Action::Nothing
            },
            NetEvent::HeartbeatAck { pending } => {
                if pending > 0 {
                    self.note(
                        text::join2(
                            text::decimal_text(pending as u64).as_str(),
                            " pending message(s)",
                        ).as_str(),
                    );
                }
                Action::Nothing
            },
            NetEvent::Error(msg) => {
                self.note(text::join2("Server error: ", msg.as_str()).as_str());
                Action::Nothing
            },
            NetEvent::SystemMessage(msg) => {
                self.note(msg.as_str());
                Action::Nothing
            },
        }
    }
}

} // verus!
