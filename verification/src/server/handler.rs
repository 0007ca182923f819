//! The server's side of one client connection.
//!
//! A connection is a conversation in steps. A message of the client leads to a
//! [`Step`]: effects to carry out in order, and then either a question to the
//! database or the directory of connections, or nothing more. The reply to a
//! question is handed to [`ClientHandler::resume`], which gives the next step.

use vstd::prelude::*;

use crate::bytes;
use crate::clock;
use crate::protocol::message::{ClientMessage, ServerMessage};
use crate::protocol::{ProtoError, PROTOCOL_VERSION};
use crate::text;

verus! {

// ── Steps ───────────────────────────────────────────────────

/// Something that a step wants done. Effects are carried out in order.
#[derive(Debug, Clone)]
#[verifier::ext_equal]
pub enum Effect<T = String, B = Vec<u8>> {
    /// Record in the database whether the user is online.
    SetOnline { username: T, online: bool },
    /// Add this connection to the directory of online clients.
    Enlist { username: T },
    /// Remove the user from the directory of online clients.
    Delist { username: T },
    /// Write a frame to the client.
    Reply(ServerMessage<T, B>),
    /// Write a frame that another client's connection handed over.
    Forward(ServerMessage<T, B>),
    /// Store a control message until the recipient asks for it.
    QueueControl { to: T, from: T, kind: T, message: ServerMessage<T, B> },
    /// Store an encrypted message until the recipient asks for it.
    QueueMessage { to: T, from: T, ciphertext: B, nonce: B, timestamp: u64 },
    /// Store a file chunk until the recipient asks for it.
    QueueFile {
        to: T,
        from: T,
        filename: T,
        chunk_index: u32,
        total_chunks: u32,
        ciphertext: B,
        nonce: B,
    },
    /// Hand the client everything that is stored for it.
    DeliverQueue { username: T },
}

/// What to do when an effect fails.
#[derive(Debug, Clone, Copy, PartialEq, Eq, Structural)]
pub enum OnFailure {
    /// Go on with the next effect.
    Ignore,
    /// Leave the message loop, then say farewell.
    Leave,
    /// Give the connection up at once.
    Abort,
}

/// A question to the database or to the directory of online clients.
#[derive(Debug, Clone)]
#[verifier::ext_equal]
pub enum Request<T = String, B = Vec<u8>, K = Vec<Vec<u8>>> {
    RegisterUser {
        username: T,
        password_hash: B,
        identity_public_key: B,
        signed_prekey: B,
        signed_prekey_signature: B,
        one_time_prekeys: K,
    },
    Authenticate { username: T, password_hash: B },
    PendingCount { username: T },
    FetchBundle { username: T },
    UserExists { username: T },
    IdentityKey { username: T },
    /// Hand the message to the recipient's own connection, if there is one.
    Deliver { to: T, message: ServerMessage<T, B> },
    AddPrekeys { username: T, prekeys: K },
}

/// What the handler remembers while a question is open.
#[derive(Debug, Clone)]
#[verifier::ext_equal]
pub enum Pending<T = String, B = Vec<u8>> {
    Registering { username: T },
    LoggingIn { username: T },
    Heartbeat,
    Fetching { target: T },
    Requesting {
        from: T,
        to: T,
        identity_public_key: B,
        ephemeral_pub: B,
        otpk_index: Option<u32>,
    },
    Accepting { from: T, to: T },
    Sending { from: T, to: T, ciphertext: B, nonce: B },
    SendingFile {
        from: T,
        to: T,
        filename: T,
        chunk_index: u32,
        total_chunks: u32,
        ciphertext: B,
        nonce: B,
    },
    /// `chat` tells which acknowledgement the sender is owed.
    Delivering { from: T, to: T, chat: bool },
    Refilling,
}

/// The reply to a [`Request`].
#[derive(Debug, Clone)]
#[verifier::ext_equal]
#[allow(inconsistent_fields)]
pub enum Answer<T = String, B = Vec<u8>> {
    /// `None` if the account was made, else why not.
    Registered { error: Option<T> },
    /// Whether the password was right.
    Authenticated { ok: bool },
    /// The password could not be checked.
    NotAuthenticated { error: T },
    Pending { count: u32 },
    Bundle {
        identity_public_key: B,
        signed_prekey: B,
        signed_prekey_signature: B,
        one_time_prekey: Option<B>,
        otpk_index: Option<u32>,
    },
    NoBundle { error: T },
    Exists { yes: bool },
    IdentityKey { key: Option<B> },
    Delivered,
    /// The recipient has no connection; the message comes back.
    Undelivered { message: ServerMessage<T, B> },
    /// How many unused prekeys there are now, where they could be stored.
    Refilled { count: Option<u32> },
}

/// What follows the effects of a step.
#[derive(Debug, Clone)]
#[verifier::ext_equal]
pub enum Next<T = String, B = Vec<u8>, K = Vec<Vec<u8>>> {
    /// Put the question, and resume with its answer.
    Ask { request: Request<T, B, K>, pending: Pending<T, B> },
    /// Wait for the next frame.
    Serve,
    /// Leave the message loop.
    Close,
}

/// One step of the conversation.
#[derive(Debug, Clone)]
pub struct Step {
    pub effects: Vec<Effect>,
    pub next: Next,
}

pub type TextView = Seq<char>;

pub type BytesView = Seq<u8>;

pub type KeysView = Seq<Seq<u8>>;

/// The view of a [`Step`].
#[verifier::ext_equal]
pub ghost struct StepView {
    pub effects: Seq<Effect<TextView, BytesView>>,
    pub next: Next<TextView, BytesView, KeysView>,
}

impl View for Effect<String, Vec<u8>> {
    type V = Effect<TextView, BytesView>;

    open spec fn view(&self) -> Effect<TextView, BytesView> {
        match *self {
            Effect::SetOnline { username, online } => Effect::SetOnline {
                username: username@,
                online,
            },
            Effect::Enlist { username } => Effect::Enlist { username: username@ },
            Effect::Delist { username } => Effect::Delist { username: username@ },
            Effect::Reply(message) => Effect::Reply(message@),
            Effect::Forward(message) => Effect::Forward(message@),
            Effect::QueueControl { to, from, kind, message } => Effect::QueueControl {
                to: to@,
                from: from@,
                kind: kind@,
                message: message@,
            },
            Effect::QueueMessage { to, from, ciphertext, nonce, timestamp } =>
                Effect::QueueMessage {
                to: to@,
                from: from@,
                ciphertext: ciphertext@,
                nonce: nonce@,
                timestamp,
            },
            Effect::QueueFile {
                to,
                from,
                filename,
                chunk_index,
                total_chunks,
                ciphertext,
                nonce,
            } => Effect::QueueFile {
                to: to@,
                from: from@,
                filename: filename@,
                chunk_index,
                total_chunks,
                ciphertext: ciphertext@,
                nonce: nonce@,
            },
            Effect::DeliverQueue { username } => Effect::DeliverQueue { username: username@ },
        }
    }
}

impl View for Request<String, Vec<u8>, Vec<Vec<u8>>> {
    type V = Request<TextView, BytesView, KeysView>;

    open spec fn view(&self) -> Request<TextView, BytesView, KeysView> {
        match *self {
            Request::RegisterUser {
                username,
                password_hash,
                identity_public_key,
                signed_prekey,
                signed_prekey_signature,
                one_time_prekeys,
            } => Request::RegisterUser {
                username: username@,
                password_hash: password_hash@,
                identity_public_key: identity_public_key@,
                signed_prekey: signed_prekey@,
                signed_prekey_signature: signed_prekey_signature@,
                one_time_prekeys: bytes::keys_view(one_time_prekeys@),
            },
            Request::Authenticate { username, password_hash } => Request::Authenticate {
                username: username@,
                password_hash: password_hash@,
            },
            Request::PendingCount { username } => Request::PendingCount { username: username@ },
            Request::FetchBundle { username } => Request::FetchBundle { username: username@ },
            Request::UserExists { username } => Request::UserExists { username: username@ },
            Request::IdentityKey { username } => Request::IdentityKey { username: username@ },
            Request::Deliver { to, message } => Request::Deliver { to: to@, message: message@ },
            Request::AddPrekeys { username, prekeys } => Request::AddPrekeys {
                username: username@,
                prekeys: bytes::keys_view(prekeys@),
            },
        }
    }
}

impl View for Pending<String, Vec<u8>> {
    type V = Pending<TextView, BytesView>;

    open spec fn view(&self) -> Pending<TextView, BytesView> {
        match *self {
            Pending::Registering { username } => Pending::Registering { username: username@ },
            Pending::LoggingIn { username } => Pending::LoggingIn { username: username@ },
            Pending::Heartbeat => Pending::Heartbeat,
            Pending::Fetching { target } => Pending::Fetching { target: target@ },
            Pending::Requesting { from, to, identity_public_key, ephemeral_pub, otpk_index } =>
                Pending::Requesting {
                from: from@,
                to: to@,
                identity_public_key: identity_public_key@,
                ephemeral_pub: ephemeral_pub@,
                otpk_index,
            },
            Pending::Accepting { from, to } => Pending::Accepting { from: from@, to: to@ },
            Pending::Sending { from, to, ciphertext, nonce } => Pending::Sending {
                from: from@,
                to: to@,
                ciphertext: ciphertext@,
                nonce: nonce@,
            },
            Pending::SendingFile {
                from,
                to,
                filename,
                chunk_index,
                total_chunks,
                ciphertext,
                nonce,
            } => Pending::SendingFile {
                from: from@,
                to: to@,
                filename: filename@,
                chunk_index,
                total_chunks,
                ciphertext: ciphertext@,
                nonce: nonce@,
            },
            Pending::Delivering { from, to, chat } => Pending::Delivering {
                from: from@,
                to: to@,
                chat,
            },
            Pending::Refilling => Pending::Refilling,
        }
    }
}

impl View for Answer<String, Vec<u8>> {
    type V = Answer<TextView, BytesView>;

    open spec fn view(&self) -> Answer<TextView, BytesView> {
        match *self {
            Answer::Registered { error } => Answer::Registered { error: text::opt_text(error) },
            Answer::Authenticated { ok } => Answer::Authenticated { ok },
            Answer::NotAuthenticated { error } => Answer::NotAuthenticated { error: error@ },
            Answer::Pending { count } => Answer::Pending { count },
            Answer::Bundle {
                identity_public_key,
                signed_prekey,
                signed_prekey_signature,
                one_time_prekey,
                otpk_index,
            } => Answer::Bundle {
                identity_public_key: identity_public_key@,
                signed_prekey: signed_prekey@,
                signed_prekey_signature: signed_prekey_signature@,
                one_time_prekey: bytes::opt_bytes(one_time_prekey),
                otpk_index,
            },
            Answer::NoBundle { error } => Answer::NoBundle { error: error@ },
            Answer::Exists { yes } => Answer::Exists { yes },
            Answer::IdentityKey { key } => Answer::IdentityKey { key: bytes::opt_bytes(key) },
            Answer::Delivered => Answer::Delivered,
            Answer::Undelivered { message } => Answer::Undelivered { message: message@ },
            Answer::Refilled { count } => Answer::Refilled { count },
        }
    }
}

impl View for Next<String, Vec<u8>, Vec<Vec<u8>>> {
    type V = Next<TextView, BytesView, KeysView>;

    open spec fn view(&self) -> Next<TextView, BytesView, KeysView> {
        match *self {
            Next::Ask { request, pending } => Next::Ask { request: request@, pending: pending@ },
            Next::Serve => Next::Serve,
            Next::Close => Next::Close,
        }
    }
}

/// The views of a list of effects.
pub open spec fn effects_view(effects: Seq<Effect>) -> Seq<Effect<TextView, BytesView>> {
    effects.map_values(|e: Effect| e@)
}

impl View for Step {
    type V = StepView;

    open spec fn view(&self) -> StepView {
        StepView { effects: effects_view(self.effects@), next: self.next@ }
    }
}

impl<T, B> Effect<T, B> {
    /// What a failure of this effect means for the connection.
    pub open spec fn failure(self) -> OnFailure {
        match self {
            Effect::SetOnline { .. } => OnFailure::Ignore,
            Effect::Enlist { .. } => OnFailure::Ignore,
            Effect::Delist { .. } => OnFailure::Ignore,
            Effect::Forward(..) => OnFailure::Leave,
            _ => OnFailure::Abort,
        }
    }

    /// What a failure of this effect means for the connection: presence is
    /// best effort, an undeliverable frame of another client ends the loop,
    /// anything else that is lost ends the connection.
    pub fn on_failure(&self) -> (r: OnFailure)
        ensures
            r == self.failure(),
    {
        match self {
            Effect::SetOnline { .. } => OnFailure::Ignore,
            Effect::Enlist { .. } => OnFailure::Ignore,
            Effect::Delist { .. } => OnFailure::Ignore,
            Effect::Forward(..) => OnFailure::Leave,
            _ => OnFailure::Abort,
        }
    }
}

// ── What the steps are ──────────────────────────────────────

/// Nothing to do.
pub open spec fn idle() -> StepView {
    StepView { effects: seq![], next: Next::Serve }
}

/// A single question.
pub open spec fn ask(
    request: Request<TextView, BytesView, KeysView>,
    pending: Pending<TextView, BytesView>,
) -> StepView {
    StepView { effects: seq![], next: Next::Ask { request, pending } }
}

/// A single reply.
pub open spec fn reply(message: ServerMessage<TextView, BytesView>) -> StepView {
    StepView { effects: seq![Effect::Reply(message)], next: Next::Serve }
}

/// The name that a connection speaks under: empty before the login.
pub open spec fn name_of(me: Option<TextView>) -> TextView {
    match me {
        Some(name) => name,
        None => seq![],
    }
}

/// The step that a message of the client leads to.
pub open spec fn first_step(
    me: Option<TextView>,
    msg: ClientMessage<TextView, BytesView, KeysView>,
) -> StepView {
    let from = name_of(me);
    match msg {
        ClientMessage::Hello { .. } => idle(),
        ClientMessage::Register {
            username,
            password_hash,
            identity_public_key,
            signed_prekey,
            signed_prekey_signature,
            one_time_prekeys,
        } => ask(
            Request::RegisterUser {
                username,
                password_hash,
                identity_public_key,
                signed_prekey,
                signed_prekey_signature,
                one_time_prekeys,
            },
            Pending::Registering { username },
        ),
        ClientMessage::Login { username, password_hash } => ask(
            Request::Authenticate { username, password_hash },
            Pending::LoggingIn { username },
        ),
        ClientMessage::Heartbeat => match me {
            Some(username) => StepView {
                effects: seq![Effect::SetOnline { username, online: true }],
                next: Next::Ask {
                    request: Request::PendingCount { username },
                    pending: Pending::Heartbeat,
                },
            },
            None => idle(),
        },
        ClientMessage::FetchBundle { target_username } => ask(
            Request::FetchBundle { username: target_username },
            Pending::Fetching { target: target_username },
        ),
        ClientMessage::ChatRequest { to, identity_public_key, ephemeral_pub, otpk_index } => ask(
            Request::UserExists { username: to },
            Pending::Requesting { from, to, identity_public_key, ephemeral_pub, otpk_index },
        ),
        ClientMessage::ChatAccept { to } => ask(
            Request::IdentityKey { username: from },
            Pending::Accepting { from, to },
        ),
        ClientMessage::ChatReject { to } => ask(
            Request::Deliver { to, message: ServerMessage::ChatRequestRejected { from } },
            Pending::Delivering { from, to, chat: true },
        ),
        ClientMessage::SendMessage { to, ciphertext, nonce } => ask(
            Request::UserExists { username: to },
            Pending::Sending { from, to, ciphertext, nonce },
        ),
        ClientMessage::SendFile { to, filename, chunk_index, total_chunks, ciphertext, nonce } =>
            ask(
            Request::UserExists { username: to },
            Pending::SendingFile {
                from,
                to,
                filename,
                chunk_index,
                total_chunks,
                ciphertext,
                nonce,
            },
        ),
        ClientMessage::RefillPrekeys { one_time_prekeys } => match me {
            Some(username) => ask(
                Request::AddPrekeys { username, prekeys: one_time_prekeys },
                Pending::Refilling,
            ),
            None => idle(),
        },
        ClientMessage::Goodbye => StepView {
            effects: seq![Effect::Reply(ServerMessage::GoodbyeAck)],
            next: Next::Close,
        },
    }
}

/// How a message that could not be delivered is stored, if it is one that
/// clients send each other.
pub open spec fn stored(
    from: TextView,
    to: TextView,
    message: ServerMessage<TextView, BytesView>,
) -> Option<Effect<TextView, BytesView>> {
    match message {
        ServerMessage::IncomingChatRequest { .. } => Some(
            Effect::QueueControl { to, from, kind: "chat_request"@, message },
        ),
        ServerMessage::ChatRequestAccepted { .. } => Some(
            Effect::QueueControl { to, from, kind: "chat_accept"@, message },
        ),
        ServerMessage::ChatRequestRejected { .. } => Some(
            Effect::QueueControl { to, from, kind: "chat_reject"@, message },
        ),
        ServerMessage::IncomingMessage { ciphertext, nonce, server_timestamp, .. } => Some(
            Effect::QueueMessage { to, from, ciphertext, nonce, timestamp: server_timestamp },
        ),
        ServerMessage::IncomingFile {
            filename,
            chunk_index,
            total_chunks,
            ciphertext,
            nonce,
            ..
        } => Some(
            Effect::QueueFile {
                to,
                from,
                filename,
                chunk_index,
                total_chunks,
                ciphertext,
                nonce,
            },
        ),
        _ => None,
    }
}

/// The acknowledgement of a chat message or of a sent one.
pub open spec fn ack(chat: bool, error: Option<TextView>) -> ServerMessage<TextView, BytesView> {
    let ok = error is None;
    if chat {
        ServerMessage::ChatAck { ok, error }
    } else {
        ServerMessage::SendAck { ok, error }
    }
}

/// The effects of a login: the user is online, listed, acknowledged, and
/// gets what was stored for it.
pub open spec fn welcome(
    username: TextView,
    acknowledgement: ServerMessage<TextView, BytesView>,
) -> StepView {
    StepView {
        effects: seq![
            Effect::SetOnline { username, online: true },
            Effect::Enlist { username },
            Effect::Reply(acknowledgement),
            Effect::DeliverQueue { username },
        ],
        next: Next::Serve,
    }
}

/// The step that an answer leads to. `me` is the name before the answer, `now`
/// the time in seconds.
pub open spec fn next_step(
    me: Option<TextView>,
    pending: Pending<TextView, BytesView>,
    answer: Answer<TextView, BytesView>,
    now: i64,
) -> StepView {
    match (pending, answer) {
        (Pending::Registering { username }, Answer::Registered { error }) => match error {
            None => welcome(username, ServerMessage::RegisterAck { ok: true, error: None }),
            Some(e) => reply(ServerMessage::RegisterAck { ok: false, error: Some(e) }),
        },
        (Pending::LoggingIn { username }, Answer::Authenticated { ok }) => if ok {
            welcome(username, ServerMessage::LoginAck { ok: true, error: None })
        } else {
            reply(ServerMessage::LoginAck { ok: false, error: Some("Invalid credentials"@) })
        },
        (Pending::LoggingIn { .. }, Answer::NotAuthenticated { error }) => reply(
            ServerMessage::LoginAck { ok: false, error: Some(error) },
        ),
        (Pending::Heartbeat, Answer::Pending { count }) => {
            let first = Effect::Reply(ServerMessage::HeartbeatAck { pending_messages: count });
            StepView {
                effects: if count > 0 && me is Some {
                    seq![first, Effect::DeliverQueue { username: me->Some_0 }]
                } else {
                    seq![first]
                },
                next: Next::Serve,
            }
        },
        (
            Pending::Fetching { target },
            Answer::Bundle {
                identity_public_key,
                signed_prekey,
                signed_prekey_signature,
                one_time_prekey,
                otpk_index,
            },
        ) => reply(
            ServerMessage::Bundle {
                username: target,
                identity_public_key,
                signed_prekey,
                signed_prekey_signature,
                one_time_prekey,
                otpk_index,
            },
        ),
        (Pending::Fetching { target }, Answer::NoBundle { error }) => reply(
            ServerMessage::BundleError { username: target, error },
        ),
        (
            Pending::Requesting { from, to, identity_public_key, ephemeral_pub, otpk_index },
            Answer::Exists { yes },
        ) => if yes {
            ask(
                Request::Deliver {
                    to,
                    message: ServerMessage::IncomingChatRequest {
                        from,
                        identity_public_key,
                        ephemeral_pub,
                        otpk_index,
                    },
                },
                Pending::Delivering { from, to, chat: true },
            )
        } else {
            reply(ack(true, Some("User not found"@)))
        },
        (Pending::Accepting { from, to }, Answer::IdentityKey { key }) => ask(
            Request::Deliver {
                to,
                message: ServerMessage::ChatRequestAccepted {
                    from,
                    identity_public_key: match key {
                        Some(k) => k,
                        None => seq![],
                    },
                },
            },
            Pending::Delivering { from, to, chat: true },
        ),
        (Pending::Sending { from, to, ciphertext, nonce }, Answer::Exists { yes }) => if yes {
            ask(
                Request::Deliver {
                    to,
                    message: ServerMessage::IncomingMessage {
                        from,
                        ciphertext,
                        nonce,
                        server_timestamp: now as u64,
                    },
                },
                Pending::Delivering { from, to, chat: false },
            )
        } else {
            reply(ack(false, Some("User not found"@)))
        },
        (
            Pending::SendingFile {
                from,
                to,
                filename,
                chunk_index,
                total_chunks,
                ciphertext,
                nonce,
            },
            Answer::Exists { yes },
        ) => if yes {
            ask(
                Request::Deliver {
                    to,
                    message: ServerMessage::IncomingFile {
                        from,
                        filename,
                        chunk_index,
                        total_chunks,
                        ciphertext,
                        nonce,
                        server_timestamp: now as u64,
                    },
                },
                Pending::Delivering { from, to, chat: false },
            )
        } else {
            reply(ack(false, Some("User not found"@)))
        },
        (Pending::Delivering { chat, .. }, Answer::Delivered) => reply(ack(chat, None)),
        (Pending::Delivering { from, to, chat }, Answer::Undelivered { message }) => StepView {
            effects: match stored(from, to, message) {
                Some(effect) => seq![effect, Effect::Reply(ack(chat, None))],
                None => seq![Effect::Reply(ack(chat, None))],
            },
            next: Next::Serve,
        },
        (Pending::Refilling, Answer::Refilled { count }) => match count {
            Some(n) => reply(ServerMessage::RefillAck { ok: true, count: n }),
            None => reply(ServerMessage::RefillAck { ok: false, count: 0 }),
        },
        _ => idle(),
    }
}

/// The name that a connection has after an answer.
pub open spec fn name_after(
    me: Option<TextView>,
    pending: Pending<TextView, BytesView>,
    answer: Answer<TextView, BytesView>,
) -> Option<TextView> {
    match (pending, answer) {
        (Pending::Registering { username }, Answer::Registered { error: None }) => Some(username),
        (Pending::LoggingIn { username }, Answer::Authenticated { ok: true }) => Some(username),
        _ => me,
    }
}

// ── Building steps ──────────────────────────────────────────

fn no_effects() -> (r: Vec<Effect>)
    ensures
        effects_view(r@) == Seq::<Effect<TextView, BytesView>>::empty(),
{
    let r: Vec<Effect> = Vec::new();
    assert(effects_view(r@) =~= seq![]);
    r
}

fn with_effect(effects: Vec<Effect>, effect: Effect) -> (r: Vec<Effect>)
    ensures
        effects_view(r@) == effects_view(effects@).push(effect@),
{
    let mut r = effects;
    r.push(effect);
    assert(effects_view(r@) =~= effects_view(effects@).push(effect@));
    r
}

fn idle_step() -> (r: Step)
    ensures
        r@ == idle(),
{
    Step { effects: no_effects(), next: Next::Serve }
}

fn ask_step(request: Request, pending: Pending) -> (r: Step)
    ensures
        r@ == ask(request@, pending@),
{
    Step { effects: no_effects(), next: Next::Ask { request, pending } }
}

fn reply_step(message: ServerMessage) -> (r: Step)
    ensures
        r@ == reply(message@),
{
    let effects = with_effect(no_effects(), Effect::Reply(message));
    let r = Step { effects, next: Next::Serve };
    assert(r@.effects =~= seq![Effect::Reply(message@)]);
    r
}

fn welcome_step(username: &String, acknowledgement: ServerMessage) -> (r: Step)
    ensures
        r@ == welcome(username@, acknowledgement@),
{
    let e = no_effects();
    let e = with_effect(e, Effect::SetOnline { username: username.clone(), online: true });
    let e = with_effect(e, Effect::Enlist { username: username.clone() });
    let e = with_effect(e, Effect::Reply(acknowledgement));
    let e = with_effect(e, Effect::DeliverQueue { username: username.clone() });
    let r = Step { effects: e, next: Next::Serve };
    assert(r@.effects =~= welcome(username@, acknowledgement@).effects);
    r
}

fn ack_message(chat: bool, error: Option<String>) -> (r: ServerMessage)
    ensures
        r@ == ack(chat, text::opt_text(error)),
{
    let ok = error.is_none();
    if chat {
        ServerMessage::ChatAck { ok, error }
    } else {
        ServerMessage::SendAck { ok, error }
    }
}

fn store(from: String, to: String, message: ServerMessage) -> (r: Option<Effect>)
    ensures
        match r {
            Some(e) => stored(from@, to@, message@) == Some(e@),
            None => stored(from@, to@, message@) is None,
        },
{
    match message {
        ServerMessage::IncomingChatRequest { .. } => Some(
            Effect::QueueControl { to, from, kind: "chat_request".to_owned(), message },
        ),
        ServerMessage::ChatRequestAccepted { .. } => Some(
            Effect::QueueControl { to, from, kind: "chat_accept".to_owned(), message },
        ),
        ServerMessage::ChatRequestRejected { .. } => Some(
            Effect::QueueControl { to, from, kind: "chat_reject".to_owned(), message },
        ),
        ServerMessage::IncomingMessage { ciphertext, nonce, server_timestamp, .. } => Some(
            Effect::QueueMessage { to, from, ciphertext, nonce, timestamp: server_timestamp },
        ),
        ServerMessage::IncomingFile {
            filename,
            chunk_index,
            total_chunks,
            ciphertext,
            nonce,
            ..
        } => Some(
            Effect::QueueFile {
                to,
                from,
                filename,
                chunk_index,
                total_chunks,
                ciphertext,
                nonce,
            },
        ),
        _ => None,
    }
}

// ── The handler ─────────────────────────────────────────────

/// Per-connection state
pub struct ClientHandler {
    /// The user that has registered or logged in over this connection.
    pub username: Option<String>,
}

impl View for ClientHandler {
    type V = Option<Seq<char>>;

    open spec fn view(&self) -> Option<Seq<char>> {
        text::opt_text(self.username)
    }
}

/// The server's answer to the first frame, and whether the connection goes on.
pub open spec fn greeting(
    hello: ClientMessage<TextView, BytesView, KeysView>,
) -> (ServerMessage<TextView, BytesView>, bool) {
    match hello {
        ClientMessage::Hello { version } => {
            let ok = version == PROTOCOL_VERSION;
            (ServerMessage::HelloAck { version: PROTOCOL_VERSION, ok }, ok)
        },
        _ => (ServerMessage::Error { message: "Expected Hello"@ }, false),
    }
}

/// The step that a frame leads to, or the failure to read one.
pub open spec fn frame_step(
    me: Option<TextView>,
    frame: Option<ClientMessage<TextView, BytesView, KeysView>>,
) -> StepView {
    match frame {
        Some(msg) => first_step(me, msg),
        None => StepView { effects: seq![], next: Next::Close },
    }
}

/// The step that a message of another connection leads to.
pub open spec fn direct_step(message: Option<ServerMessage<TextView, BytesView>>) -> StepView {
    match message {
        Some(msg) => StepView { effects: seq![Effect::Forward(msg)], next: Next::Serve },
        None => idle(),
    }
}

/// The effects that end the connection of `me`.
pub open spec fn leaving(me: Option<TextView>) -> Seq<Effect<TextView, BytesView>> {
    match me {
        Some(username) => seq![
            Effect::SetOnline { username, online: false },
            Effect::Delist { username },
        ],
        None => seq![],
    }
}

impl ClientHandler {
    /// A connection that nobody has logged in over.
    pub fn new() -> (r: ClientHandler)
        ensures
            r@ is None,
    {
        ClientHandler { username: None }
    }

    /// Version handshake: what to reply to the first message, and whether to
    /// enter the message loop.
    pub fn greet(&self, hello: ClientMessage) -> (r: (ServerMessage, bool))
        ensures
            (r.0@, r.1) == greeting(hello@),
    {
        match hello {
            ClientMessage::Hello { version } => {
                let ok = version == PROTOCOL_VERSION;
                (ServerMessage::HelloAck { version: PROTOCOL_VERSION, ok }, ok)
            },
            _ => (ServerMessage::Error { message: "Expected Hello".to_owned() }, false),
        }
    }

    /// A frame has come in, or the wait for one has failed: a message is
    /// handled, and a failure ends the message loop.
    pub fn on_frame(&self, frame: Result<ClientMessage, ProtoError>) -> (r: Step)
        ensures
            r@ == match frame {
                Ok(msg) => first_step(self@, msg@),
                Err(_) => (StepView { effects: seq![], next: Next::Close }),
            },
            r@ == frame_step(
                self@,
                match frame {
                    Ok(msg) => Some(msg@),
                    Err(_) => None,
                },
            ),
    {
        match frame {
            Ok(msg) => self.handle_msg(msg),
            Err(_) => Step { effects: no_effects(), next: Next::Close },
        }
    }

    /// Another connection has handed a message over: it is written out. The
    /// end of that channel changes nothing.
    pub fn on_direct(&self, message: Option<ServerMessage>) -> (r: Step)
        ensures
            r@ == match message {
                Some(msg) => (StepView {
                    effects: seq![Effect::Forward(msg@)],
                    next: Next::Serve,
                }),
                None => idle(),
            },
            r@ == direct_step(
                match message {
                    Some(msg) => Some(msg@),
                    None => None,
                },
            ),
    {
        match message {
            Some(msg) => {
                let effects = with_effect(no_effects(), Effect::Forward(msg));
                let r = Step { effects, next: Next::Serve };
                assert(r@.effects =~= seq![Effect::Forward(msg@)]);
                r
            },
            None => idle_step(),
        }
    }

    /// What is done after the message loop: a user that had logged in goes
    /// offline and leaves the directory.
    pub fn farewell(&self) -> (r: Vec<Effect>)
        ensures
            effects_view(r@) == leaving(self@),
    {
        match &self.username {
            Some(username) => {
                let e = with_effect(
                    no_effects(),
                    Effect::SetOnline { username: username.clone(), online: false },
                );
                let r = with_effect(e, Effect::Delist { username: username.clone() });
                assert(effects_view(r@) =~= leaving(self@));
                r
            },
            None => no_effects(),
        }
    }

    fn name(&self) -> (r: String)
        ensures
            r@ == name_of(self@),
    {
        match &self.username {
            Some(name) => name.clone(),
            None => String::new(),
        }
    }

    /// The first step of handling a client message.
    pub fn handle_msg(&self, msg: ClientMessage) -> (r: Step)
        ensures
            r@ == first_step(self@, msg@),
    {
        match msg {
            ClientMessage::Hello { .. } => idle_step(),
            ClientMessage::Register {
                username,
                password_hash,
                identity_public_key,
                signed_prekey,
                signed_prekey_signature,
                one_time_prekeys,
            } => {
                let pending = Pending::Registering { username: username.clone() };
                ask_step(
                    Request::RegisterUser {
                        username,
                        password_hash,
                        identity_public_key,
                        signed_prekey,
                        signed_prekey_signature,
                        one_time_prekeys,
                    },
                    pending,
                )
            },
            ClientMessage::Login { username, password_hash } => {
                let pending = Pending::LoggingIn { username: username.clone() };
                ask_step(Request::Authenticate { username, password_hash }, pending)
            },
            ClientMessage::Heartbeat => match &self.username {
                Some(username) => {
                    let effects = with_effect(
                        no_effects(),
                        Effect::SetOnline { username: username.clone(), online: true },
                    );
                    let r = Step {
                        effects,
                        next: Next::Ask {
                            request: Request::PendingCount { username: username.clone() },
                            pending: Pending::Heartbeat,
                        },
                    };
                    assert(r@.effects =~= first_step(self@, msg@).effects);
                    r
                },
                None => idle_step(),
            },
            ClientMessage::FetchBundle { target_username } => {
                let pending = Pending::Fetching { target: target_username.clone() };
                ask_step(Request::FetchBundle { username: target_username }, pending)
            },
            ClientMessage::ChatRequest { to, identity_public_key, ephemeral_pub, otpk_index } => {
                let request = Request::UserExists { username: to.clone() };
                ask_step(
                    request,
                    Pending::Requesting {
                        from: self.name(),
                        to,
                        identity_public_key,
                        ephemeral_pub,
                        otpk_index,
                    },
                )
            },
            ClientMessage::ChatAccept { to } => ask_step(
                Request::IdentityKey { username: self.name() },
                Pending::Accepting { from: self.name(), to },
            ),
            ClientMessage::ChatReject { to } => {
                let message = ServerMessage::ChatRequestRejected { from: self.name() };
                let pending = Pending::Delivering {
                    from: self.name(),
                    to: to.clone(),
                    chat: true,
                };
                ask_step(Request::Deliver { to, message }, pending)
            },
            ClientMessage::SendMessage { to, ciphertext, nonce } => {
                let request = Request::UserExists { username: to.clone() };
                ask_step(request, Pending::Sending { from: self.name(), to, ciphertext, nonce })
            },
            ClientMessage::SendFile {
                to,
                filename,
                chunk_index,
                total_chunks,
                ciphertext,
                nonce,
            } => {
                let request = Request::UserExists { username: to.clone() };
                ask_step(
                    request,
                    Pending::SendingFile {
                        from: self.name(),
                        to,
                        filename,
                        chunk_index,
                        total_chunks,
                        ciphertext,
                        nonce,
                    },
                )
            },
            ClientMessage::RefillPrekeys { one_time_prekeys } => match &self.username {
                Some(username) => ask_step(
                    Request::AddPrekeys { username: username.clone(), prekeys: one_time_prekeys },
                    Pending::Refilling,
                ),
                None => idle_step(),
            },
            ClientMessage::Goodbye => {
                let effects = with_effect(
                    no_effects(),
                    Effect::Reply(ServerMessage::GoodbyeAck),
                );
                let r = Step { effects, next: Next::Close };
                assert(r@.effects =~= first_step(self@, msg@).effects);
                r
            },
        }
    }

    /// Goes on with the answer to an open question, at the present time.
    pub fn resume(&mut self, pending: Pending, answer: Answer) -> (r: Step)
        ensures
            exists|now: i64| r@ == #[trigger] next_step(old(self)@, pending@, answer@, now),
            final(self)@ == name_after(old(self)@, pending@, answer@),
    {
        let now: i64 = clock::utc_timestamp();
        self.resume_at(pending, answer, now)
    }

    /// Goes on with the answer to an open question, `now` being the time in
    /// seconds. An answer to another question than the open one has no effect.
    pub fn resume_at(&mut self, pending: Pending, answer: Answer, now: i64) -> (r: Step)
        ensures
            r@ == next_step(old(self)@, pending@, answer@, now),
            final(self)@ == name_after(old(self)@, pending@, answer@),
    {
        match (pending, answer) {
            (Pending::Registering { username }, Answer::Registered { error }) => match error {
                None => {
                    let r = welcome_step(
                        &username,
                        ServerMessage::RegisterAck { ok: true, error: None },
                    );
                    self.username = Some(username);
                    r
                },
                Some(e) => reply_step(ServerMessage::RegisterAck { ok: false, error: Some(e) }),
            },
            (Pending::LoggingIn { username }, Answer::Authenticated { ok }) => if ok {
                let r = welcome_step(
                    &username,
                    ServerMessage::LoginAck { ok: true, error: None },
                );
                self.username = Some(username);
                r
            } else {
                reply_step(
                    ServerMessage::LoginAck {
                        ok: false,
                        error: Some("Invalid credentials".to_owned()),
                    },
                )
            },
            (Pending::LoggingIn { .. }, Answer::NotAuthenticated { error }) => reply_step(
                ServerMessage::LoginAck { ok: false, error: Some(error) },
            ),
            (Pending::Heartbeat, Answer::Pending { count }) => {
                let mut effects = with_effect(
                    no_effects(),
                    Effect::Reply(ServerMessage::HeartbeatAck { pending_messages: count }),
                );
                if count > 0 {
                    if let Some(username) = &self.username {
                        effects =
                        with_effect(effects, Effect::DeliverQueue { username: username.clone() });
                    }
                }
                let r = Step { effects, next: Next::Serve };
                assert(r@.effects =~= next_step(self@, pending@, answer@, now).effects);
                r
            },
            (
                Pending::Fetching { target },
                Answer::Bundle {
                    identity_public_key,
                    signed_prekey,
                    signed_prekey_signature,
                    one_time_prekey,
                    otpk_index,
                },
            ) => reply_step(
                ServerMessage::Bundle {
                    username: target,
                    identity_public_key,
                    signed_prekey,
                    signed_prekey_signature,
                    one_time_prekey,
                    otpk_index,
                },
            ),
            (Pending::Fetching { target }, Answer::NoBundle { error }) => reply_step(
                ServerMessage::BundleError { username: target, error },
            ),
            (
                Pending::Requesting { from, to, identity_public_key, ephemeral_pub, otpk_index },
                Answer::Exists { yes },
            ) => if yes {
                let message = ServerMessage::IncomingChatRequest {
                    from: from.clone(),
                    identity_public_key,
                    ephemeral_pub,
                    otpk_index,
                };
                let request = Request::Deliver { to: to.clone(), message };
                ask_step(request, Pending::Delivering { from, to, chat: true })
            } else {
                reply_step(ack_message(true, Some("User not found".to_owned())))
            },
            (Pending::Accepting { from, to }, Answer::IdentityKey { key }) => {
                let identity_public_key = match key {
                    Some(k) => k,
                    None => Vec::new(),
                };
                let message = ServerMessage::ChatRequestAccepted {
                    from: from.clone(),
                    identity_public_key,
                };
                let request = Request::Deliver { to: to.clone(), message };
                ask_step(request, Pending::Delivering { from, to, chat: true })
            },
            (Pending::Sending { from, to, ciphertext, nonce }, Answer::Exists { yes }) => if yes {
                let message = ServerMessage::IncomingMessage {
                    from: from.clone(),
                    ciphertext,
                    nonce,
                    server_timestamp: now as u64,
                };
                let request = Request::Deliver { to: to.clone(), message };
                ask_step(request, Pending::Delivering { from, to, chat: false })
            } else {
                reply_step(ack_message(false, Some("User not found".to_owned())))
            },
            (
                Pending::SendingFile {
                    from,
                    to,
                    filename,
                    chunk_index,
                    total_chunks,
                    ciphertext,
                    nonce,
                },
                Answer::Exists { yes },
            ) => if yes {
                let message = ServerMessage::IncomingFile {
                    from: from.clone(),
                    filename,
                    chunk_index,
                    total_chunks,
                    ciphertext,
                    nonce,
                    server_timestamp: now as u64,
                };
                let request = Request::Deliver { to: to.clone(), message };
                ask_step(request, Pending::Delivering { from, to, chat: false })
            } else {
                reply_step(ack_message(false, Some("User not found".to_owned())))
            },
            (Pending::Delivering { chat, .. }, Answer::Delivered) => reply_step(
                ack_message(chat, None),
            ),
            (Pending::Delivering { from, to, chat }, Answer::Undelivered { message }) => {
                let effects = match store(from, to, message) {
                    Some(effect) => with_effect(no_effects(), effect),
                    None => no_effects(),
                };
                let effects = with_effect(effects, Effect::Reply(ack_message(chat, None)));
                let r = Step { effects, next: Next::Serve };
                assert(r@.effects =~= next_step(self@, pending@, answer@, now).effects);
                r
            },
            (Pending::Refilling, Answer::Refilled { count }) => match count {
                Some(n) => reply_step(ServerMessage::RefillAck { ok: true, count: n }),
                None => reply_step(ServerMessage::RefillAck { ok: false, count: 0 }),
            },
            _ => idle_step(),
        }
    }
}

} // verus!
