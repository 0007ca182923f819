//! The client's side of the connection: what is sent, what comes of what is
//! received, and when to try again.

use vstd::prelude::*;

use crate::bytes;
use crate::crypto::primitives;
use crate::protocol::message::{ClientMessage, ServerMessage};
use crate::protocol::{ProtoError, PROTOCOL_VERSION};
use crate::text;

verus! {

/// What the network tells the rest of the client.
#[derive(Debug, Clone)]
#[verifier::ext_equal]
pub enum NetEvent<T = String, B = Vec<u8>> {
    Connected,
    Disconnected(T),
    RegisterOk,
    RegisterFail(T),
    LoginOk,
    LoginFail(T),
    /// Incoming chat request
    IncomingChatRequest {
        from: T,
        identity_public_key: B,
        ephemeral_pub: B,
        otpk_index: Option<u32>,
    },
    /// Our chat request was accepted
    ChatRequestAccepted { from: T, identity_public_key: B },
    /// Our chat request was rejected
    ChatRequestRejected { from: T },
    ChatAck { ok: bool, error: Option<T> },
    /// Bundle fetched (the middle of a chat request)
    BundleReceived {
        username: T,
        identity_public_key: B,
        signed_prekey: B,
        signed_prekey_signature: B,
        one_time_prekey: Option<B>,
        otpk_index: Option<u32>,
    },
    BundleError(T, T),
    /// Incoming encrypted message
    MessageReceived { from: T, ciphertext: B, nonce: B, timestamp: u64 },
    FileReceived {
        from: T,
        filename: T,
        chunk_index: u32,
        total_chunks: u32,
        data: B,
        nonce: B,
        timestamp: u64,
    },
    MessageSent,
    SendFail(T),
    HeartbeatAck { pending: u32 },
    Error(T),
    SystemMessage(T),
}

/// The view of a [`NetEvent`].
pub type NetEventView = NetEvent<Seq<char>, Seq<u8>>;

impl View for NetEvent<String, Vec<u8>> {
    type V = NetEvent<Seq<char>, Seq<u8>>;

    open spec fn view(&self) -> NetEvent<Seq<char>, Seq<u8>> {
        match *self {
            NetEvent::Connected => NetEvent::Connected,
            NetEvent::Disconnected(t) => NetEvent::Disconnected(t@),
            NetEvent::RegisterOk => NetEvent::RegisterOk,
            NetEvent::RegisterFail(t) => NetEvent::RegisterFail(t@),
            NetEvent::LoginOk => NetEvent::LoginOk,
            NetEvent::LoginFail(t) => NetEvent::LoginFail(t@),
            NetEvent::IncomingChatRequest {
                from,
                identity_public_key,
                ephemeral_pub,
                otpk_index,
            } => NetEvent::IncomingChatRequest {
                from: from@,
                identity_public_key: identity_public_key@,
                ephemeral_pub: ephemeral_pub@,
                otpk_index,
            },
            NetEvent::ChatRequestAccepted { from, identity_public_key } =>
                NetEvent::ChatRequestAccepted {
                from: from@,
                identity_public_key: identity_public_key@,
            },
            NetEvent::ChatRequestRejected { from } => NetEvent::ChatRequestRejected {
                from: from@,
            },
            NetEvent::ChatAck { ok, error } => NetEvent::ChatAck {
                ok,
                error: text::opt_text(error),
            },
            NetEvent::BundleReceived {
                username,
                identity_public_key,
                signed_prekey,
                signed_prekey_signature,
                one_time_prekey,
                otpk_index,
            } => NetEvent::BundleReceived {
                username: username@,
                identity_public_key: identity_public_key@,
                signed_prekey: signed_prekey@,
                signed_prekey_signature: signed_prekey_signature@,
                one_time_prekey: bytes::opt_bytes(one_time_prekey),
                otpk_index,
            },
            NetEvent::BundleError(t, u) => NetEvent::BundleError(t@, u@),
            NetEvent::MessageReceived { from, ciphertext, nonce, timestamp } =>
                NetEvent::MessageReceived {
                from: from@,
                ciphertext: ciphertext@,
                nonce: nonce@,
                timestamp,
            },
            NetEvent::FileReceived {
                from,
                filename,
                chunk_index,
                total_chunks,
                data,
                nonce,
                timestamp,
            } => NetEvent::FileReceived {
                from: from@,
                filename: filename@,
                chunk_index,
                total_chunks,
                data: data@,
                nonce: nonce@,
                timestamp,
            },
            NetEvent::MessageSent => NetEvent::MessageSent,
            NetEvent::SendFail(t) => NetEvent::SendFail(t@),
            NetEvent::HeartbeatAck { pending } => NetEvent::HeartbeatAck { pending },
            NetEvent::Error(t) => NetEvent::Error(t@),
            NetEvent::SystemMessage(t) => NetEvent::SystemMessage(t@),
        }
    }
}

/// What the rest of the client asks of the network.
#[derive(Debug, Clone)]
#[verifier::ext_equal]
pub enum NetCommand<T = String, B = Vec<u8>, K = Vec<Vec<u8>>> {
    Register {
        username: T,
        password_hash: B,
        identity_public_key: B,
        signed_prekey: B,
        signed_prekey_signature: B,
        one_time_prekeys: K,
    },
    Login { username: T, password_hash: B },
    FetchBundle { target: T },
    ChatRequest {
        to: T,
        identity_public_key: B,
        ephemeral_pub: B,
        otpk_index: Option<u32>,
    },
    ChatAccept { to: T },
    ChatReject { to: T },
    SendMessage { to: T, ciphertext: B, nonce: B },
    /// A chunk of a file
    SendFile {
        to: T,
        filename: T,
        chunk_index: u32,
        total_chunks: u32,
        ciphertext: B,
        nonce: B,
    },
    Heartbeat,
    Disconnect,
}

/// The view of a [`NetCommand`].
pub type NetCommandView = NetCommand<Seq<char>, Seq<u8>, Seq<Seq<u8>>>;

impl View for NetCommand<String, Vec<u8>, Vec<Vec<u8>>> {
    type V = NetCommand<Seq<char>, Seq<u8>, Seq<Seq<u8>>>;

    open spec fn view(&self) -> NetCommand<Seq<char>, Seq<u8>, Seq<Seq<u8>>> {
        match *self {
            NetCommand::Register {
                username,
                password_hash,
                identity_public_key,
                signed_prekey,
                signed_prekey_signature,
                one_time_prekeys,
            } => NetCommand::Register {
                username: username@,
                password_hash: password_hash@,
                identity_public_key: identity_public_key@,
                signed_prekey: signed_prekey@,
                signed_prekey_signature: signed_prekey_signature@,
                one_time_prekeys: bytes::keys_view(one_time_prekeys@),
            },
            NetCommand::Login { username, password_hash } => NetCommand::Login {
                username: username@,
                password_hash: password_hash@,
            },
            NetCommand::FetchBundle { target } => NetCommand::FetchBundle { target: target@ },
            NetCommand::ChatRequest { to, identity_public_key, ephemeral_pub, otpk_index } =>
                NetCommand::ChatRequest {
                to: to@,
                identity_public_key: identity_public_key@,
                ephemeral_pub: ephemeral_pub@,
                otpk_index,
            },
            NetCommand::ChatAccept { to } => NetCommand::ChatAccept { to: to@ },
            NetCommand::ChatReject { to } => NetCommand::ChatReject { to: to@ },
            NetCommand::SendMessage { to, ciphertext, nonce } => NetCommand::SendMessage {
                to: to@,
                ciphertext: ciphertext@,
                nonce: nonce@,
            },
            NetCommand::SendFile {
                to,
                filename,
                chunk_index,
                total_chunks,
                ciphertext,
                nonce,
            } => NetCommand::SendFile {
                to: to@,
                filename: filename@,
                chunk_index,
                total_chunks,
                ciphertext: ciphertext@,
                nonce: nonce@,
            },
            NetCommand::Heartbeat => NetCommand::Heartbeat,
            NetCommand::Disconnect => NetCommand::Disconnect,
        }
    }
}

// ── Messages ────────────────────────────────────────────────

/// A text, or nothing at all as the empty one.
pub open spec fn or_empty(t: Option<Seq<char>>) -> Seq<char> {
    match t {
        Some(s) => s,
        None => seq![],
    }
}

/// How a truth value is written.
pub open spec fn bool_word(b: bool) -> Seq<char> {
    if b {
        "true"@
    } else {
        "false"@
    }
}

/// What a message of the server means for the client, if anything.
pub open spec fn event_of(msg: ServerMessage<Seq<char>, Seq<u8>>) -> Option<NetEventView> {
    match msg {
        ServerMessage::RegisterAck { ok, error } => Some(
            if ok {
                NetEvent::RegisterOk
            } else {
                NetEvent::RegisterFail(or_empty(error))
            },
        ),
        ServerMessage::LoginAck { ok, error } => Some(
            if ok {
                NetEvent::LoginOk
            } else {
                NetEvent::LoginFail(or_empty(error))
            },
        ),
        ServerMessage::HeartbeatAck { pending_messages } => Some(
            NetEvent::HeartbeatAck { pending: pending_messages },
        ),
        ServerMessage::Bundle {
            username,
            identity_public_key,
            signed_prekey,
            signed_prekey_signature,
            one_time_prekey,
            otpk_index,
        } => Some(
            NetEvent::BundleReceived {
                username,
                identity_public_key,
                signed_prekey,
                signed_prekey_signature,
                one_time_prekey,
                otpk_index,
            },
        ),
        ServerMessage::BundleError { username, error } => Some(
            NetEvent::BundleError(username, error),
        ),
        ServerMessage::IncomingChatRequest {
            from,
            identity_public_key,
            ephemeral_pub,
            otpk_index,
        } => Some(
            NetEvent::IncomingChatRequest { from, identity_public_key, ephemeral_pub, otpk_index },
        ),
        ServerMessage::ChatRequestAccepted { from, identity_public_key } => Some(
            NetEvent::ChatRequestAccepted { from, identity_public_key },
        ),
        ServerMessage::ChatRequestRejected { from } => Some(
            NetEvent::ChatRequestRejected { from },
        ),
        ServerMessage::ChatAck { ok, error } => Some(NetEvent::ChatAck { ok, error }),
        ServerMessage::SendAck { ok, error } => Some(
            if ok {
                NetEvent::MessageSent
            } else {
                NetEvent::SendFail(or_empty(error))
            },
        ),
        ServerMessage::IncomingMessage { from, ciphertext, nonce, server_timestamp } => Some(
            NetEvent::MessageReceived { from, ciphertext, nonce, timestamp: server_timestamp },
        ),
        ServerMessage::IncomingFile {
            from,
            filename,
            chunk_index,
            total_chunks,
            ciphertext,
            nonce,
            server_timestamp,
        } => Some(
            NetEvent::FileReceived {
                from,
                filename,
                chunk_index,
                total_chunks,
                data: ciphertext,
                nonce,
                timestamp: server_timestamp,
            },
        ),
        ServerMessage::RefillAck { ok, count } => Some(
            NetEvent::SystemMessage(
                "Prekey refill: ok="@ + bool_word(ok) + ", count="@ + text::decimal(count as nat),
            ),
        ),
        ServerMessage::PresenceUpdate { .. } => None,
        ServerMessage::Error { message } => Some(NetEvent::Error(message)),
        ServerMessage::HelloAck { .. } => None,
        ServerMessage::GoodbyeAck => None,
    }
}

/// The message to the server that a command stands for.
pub open spec fn message_of(cmd: NetCommandView) -> ClientMessage<
    Seq<char>,
    Seq<u8>,
    Seq<Seq<u8>>,
> {
    match cmd {
        NetCommand::Register {
            username,
            password_hash,
            identity_public_key,
            signed_prekey,
            signed_prekey_signature,
            one_time_prekeys,
        } => ClientMessage::Register {
            username,
            password_hash,
            identity_public_key,
            signed_prekey,
            signed_prekey_signature,
            one_time_prekeys,
        },
        NetCommand::Login { username, password_hash } => ClientMessage::Login {
            username,
            password_hash,
        },
        NetCommand::FetchBundle { target } => ClientMessage::FetchBundle {
            target_username: target,
        },
        NetCommand::ChatRequest { to, identity_public_key, ephemeral_pub, otpk_index } =>
            ClientMessage::ChatRequest { to, identity_public_key, ephemeral_pub, otpk_index },
        NetCommand::ChatAccept { to } => ClientMessage::ChatAccept { to },
        NetCommand::ChatReject { to } => ClientMessage::ChatReject { to },
        NetCommand::SendMessage { to, ciphertext, nonce } => ClientMessage::SendMessage {
            to,
            ciphertext,
            nonce,
        },
        NetCommand::SendFile { to, filename, chunk_index, total_chunks, ciphertext, nonce } =>
            ClientMessage::SendFile { to, filename, chunk_index, total_chunks, ciphertext, nonce },
        NetCommand::Heartbeat => ClientMessage::Heartbeat,
        NetCommand::Disconnect => ClientMessage::Goodbye,
    }
}

/// The view of an optional event.
pub open spec fn opt_event(e: Option<NetEvent>) -> Option<NetEventView> {
    match e {
        Some(e) => Some(e@),
        None => None,
    }
}

fn text_or_empty(t: Option<String>) -> (r: String)
    ensures
        r@ == or_empty(text::opt_text(t)),
{
    match t {
        Some(s) => s,
        None => String::new(),
    }
}

/// How a truth value is written.
pub fn bool_text(b: bool) -> (r: &'static str)
    ensures
        r@ == bool_word(b),
{
    if b {
        "true"
    } else {
        "false"
    }
}

/// What a message of the server means for the client, if anything.
pub fn handle_server_message(msg: ServerMessage) -> (r: Option<NetEvent>)
    ensures
        opt_event(r) == event_of(msg@),
{
    match msg {
        ServerMessage::RegisterAck { ok, error } => Some(
            if ok {
                NetEvent::RegisterOk
            } else {
                NetEvent::RegisterFail(text_or_empty(error))
            },
        ),
        ServerMessage::LoginAck { ok, error } => Some(
            if ok {
                NetEvent::LoginOk
            } else {
                NetEvent::LoginFail(text_or_empty(error))
            },
        ),
        ServerMessage::HeartbeatAck { pending_messages } => Some(
            NetEvent::HeartbeatAck { pending: pending_messages },
        ),
        ServerMessage::Bundle {
            username,
            identity_public_key,
            signed_prekey,
            signed_prekey_signature,
            one_time_prekey,
            otpk_index,
        } => Some(
            NetEvent::BundleReceived {
                username,
                identity_public_key,
                signed_prekey,
                signed_prekey_signature,
                one_time_prekey,
                otpk_index,
            },
        ),
        ServerMessage::BundleError { username, error } => Some(
            NetEvent::BundleError(username, error),
        ),
        ServerMessage::IncomingChatRequest {
            from,
            identity_public_key,
            ephemeral_pub,
            otpk_index,
        } => Some(
            NetEvent::IncomingChatRequest { from, identity_public_key, ephemeral_pub, otpk_index },
        ),
        ServerMessage::ChatRequestAccepted { from, identity_public_key } => Some(
            NetEvent::ChatRequestAccepted { from, identity_public_key },
        ),
        ServerMessage::ChatRequestRejected { from } => Some(
            NetEvent::ChatRequestRejected { from },
        ),
        ServerMessage::ChatAck { ok, error } => Some(NetEvent::ChatAck { ok, error }),
        ServerMessage::SendAck { ok, error } => Some(
            if ok {
                NetEvent::MessageSent
            } else {
                NetEvent::SendFail(text_or_empty(error))
            },
        ),
        ServerMessage::IncomingMessage { from, ciphertext, nonce, server_timestamp } => Some(
            NetEvent::MessageReceived { from, ciphertext, nonce, timestamp: server_timestamp },
        ),
        ServerMessage::IncomingFile {
            from,
            filename,
            chunk_index,
            total_chunks,
            ciphertext,
            nonce,
            server_timestamp,
        } => Some(
            NetEvent::FileReceived {
                from,
                filename,
                chunk_index,
                total_chunks,
                data: ciphertext,
                nonce,
                timestamp: server_timestamp,
            },
        ),
        ServerMessage::RefillAck { ok, count } => Some(
            NetEvent::SystemMessage(
                text::join4(
                    "Prekey refill: ok=",
                    bool_text(ok),
                    ", count=",
                    text::decimal_text(count as u64).as_str(),
                ),
            ),
        ),
        ServerMessage::PresenceUpdate { .. } => None,
        ServerMessage::Error { message } => Some(NetEvent::Error(message)),
        ServerMessage::HelloAck { .. } => None,
        ServerMessage::GoodbyeAck => None,
    }
}

/// The message to the server that a command stands for.
pub fn handle_command(cmd: NetCommand) -> (r: ClientMessage)
    ensures
        r@ == message_of(cmd@),
{
    match cmd {
        NetCommand::Register {
            username,
            password_hash,
            identity_public_key,
            signed_prekey,
            signed_prekey_signature,
            one_time_prekeys,
        } => ClientMessage::Register {
            username,
            password_hash,
            identity_public_key,
            signed_prekey,
            signed_prekey_signature,
            one_time_prekeys,
        },
        NetCommand::Login { username, password_hash } => ClientMessage::Login {
            username,
            password_hash,
        },
        NetCommand::FetchBundle { target } => ClientMessage::FetchBundle {
            target_username: target,
        },
        NetCommand::ChatRequest { to, identity_public_key, ephemeral_pub, otpk_index } =>
            ClientMessage::ChatRequest { to, identity_public_key, ephemeral_pub, otpk_index },
        NetCommand::ChatAccept { to } => ClientMessage::ChatAccept { to },
        NetCommand::ChatReject { to } => ClientMessage::ChatReject { to },
        NetCommand::SendMessage { to, ciphertext, nonce } => ClientMessage::SendMessage {
            to,
            ciphertext,
            nonce,
        },
        NetCommand::SendFile { to, filename, chunk_index, total_chunks, ciphertext, nonce } =>
            ClientMessage::SendFile { to, filename, chunk_index, total_chunks, ciphertext, nonce },
        NetCommand::Heartbeat => ClientMessage::Heartbeat,
        NetCommand::Disconnect => ClientMessage::Goodbye,
    }
}

// ── The link ────────────────────────────────────────────────

/// What has happened on the way to a connection.
#[derive(Debug, Clone)]
#[verifier::ext_equal]
pub enum LinkEvent<T = String, B = Vec<u8>> {
    /// Nothing yet, or a wait is over.
    Start,
    /// The server could not be reached.
    ConnectFailed { error: T },
    Connected,
    /// The greeting could not be sent.
    HelloFailed { error: T },
    HelloSent,
    /// The answer to the greeting, if one could be read.
    HelloAnswered { answer: Option<ServerMessage<T, B>> },
    /// The message loop is over, perhaps because of an error.
    Ended { error: Option<T> },
}

/// What to do next for a connection.
#[derive(Debug, Clone, Copy, PartialEq, Eq, Structural)]
pub enum LinkAction {
    Connect,
    SendHello,
    AwaitAnswer,
    RunMessageLoop,
    /// Wait, then start again.
    Retry { seconds: u64 },
    /// Never try again.
    GiveUp,
}

impl View for LinkEvent<String, Vec<u8>> {
    type V = LinkEvent<Seq<char>, Seq<u8>>;

    open spec fn view(&self) -> LinkEvent<Seq<char>, Seq<u8>> {
        match *self {
            LinkEvent::Start => LinkEvent::Start,
            LinkEvent::ConnectFailed { error } => LinkEvent::ConnectFailed { error: error@ },
            LinkEvent::Connected => LinkEvent::Connected,
            LinkEvent::HelloFailed { error } => LinkEvent::HelloFailed { error: error@ },
            LinkEvent::HelloSent => LinkEvent::HelloSent,
            LinkEvent::HelloAnswered { answer } => LinkEvent::HelloAnswered {
                answer: match answer {
                    Some(m) => Some(m@),
                    None => None,
                },
            },
            LinkEvent::Ended { error } => LinkEvent::Ended { error: text::opt_text(error) },
        }
    }
}

/// What the client is told when something has happened to its connection, and
/// what is done next.
pub open spec fn link_step(
    server: Seq<char>,
    use_tor: bool,
    event: LinkEvent<Seq<char>, Seq<u8>>,
) -> (Option<NetEventView>, LinkAction) {
    match event {
        LinkEvent::Start => (
            Some(NetEvent::SystemMessage("Connecting to "@ + server + "..."@)),
            LinkAction::Connect,
        ),
        LinkEvent::ConnectFailed { error } => (
            Some(
                NetEvent::Disconnected(
                    (if use_tor {
                        "Tor connection failed: "@
                    } else {
                        "Connection failed: "@
                    }) + error,
                ),
            ),
            LinkAction::Retry { seconds: 5 },
        ),
        LinkEvent::Connected => (Some(NetEvent::Connected), LinkAction::SendHello),
        LinkEvent::HelloFailed { error } => (
            Some(NetEvent::Disconnected("Handshake failed: "@ + error)),
            LinkAction::Retry { seconds: 0 },
        ),
        LinkEvent::HelloSent => (None, LinkAction::AwaitAnswer),
        LinkEvent::HelloAnswered { answer } => match answer {
            Some(ServerMessage::HelloAck { version, ok }) => if ok {
                (None, LinkAction::RunMessageLoop)
            } else {
                (
                    Some(
                        NetEvent::Disconnected(
                            "Version mismatch (server: "@ + text::decimal(version as nat) + ")"@,
                        ),
                    ),
                    LinkAction::GiveUp,
                )
            },
            _ => (
                Some(NetEvent::Disconnected("Bad handshake"@)),
                LinkAction::Retry { seconds: 0 },
            ),
        },
        LinkEvent::Ended { error } => (
            match error {
                Some(e) => Some(NetEvent::Disconnected("Connection lost: "@ + e)),
                None => None,
            },
            LinkAction::Retry { seconds: 3 },
        ),
    }
}

/// The connection of a client to its server.
#[derive(Debug, Clone)]
pub struct Link {
    pub server_addr: String,
    pub use_tor: bool,
}

impl Link {
    /// What the client is told when something has happened to its connection,
    /// and what is done next.
    pub fn step(&self, event: LinkEvent) -> (r: (Option<NetEvent>, LinkAction))
        ensures
            (opt_event(r.0), r.1) == link_step(self.server_addr@, self.use_tor, event@),
    {
        match event {
            LinkEvent::Start => (
                Some(
                    NetEvent::SystemMessage(
                        text::join3("Connecting to ", self.server_addr.as_str(), "..."),
                    ),
                ),
                LinkAction::Connect,
            ),
            LinkEvent::ConnectFailed { error } => {
                let head = if self.use_tor {
                    "Tor connection failed: "
                } else {
                    "Connection failed: "
                };
                (
                    Some(NetEvent::Disconnected(text::join2(head, error.as_str()))),
                    LinkAction::Retry { seconds: 5 },
                )
            },
            LinkEvent::Connected => (Some(NetEvent::Connected), LinkAction::SendHello),
            LinkEvent::HelloFailed { error } => (
                Some(NetEvent::Disconnected(text::join2("Handshake failed: ", error.as_str()))),
                LinkAction::Retry { seconds: 0 },
            ),
            LinkEvent::HelloSent => (None, LinkAction::AwaitAnswer),
            LinkEvent::HelloAnswered { answer } => match answer {
                Some(ServerMessage::HelloAck { version, ok }) => if ok {
                    (None, LinkAction::RunMessageLoop)
                } else {
                    let line = text::join3(
                        "Version mismatch (server: ",
                        text::decimal_text(version as u64).as_str(),
                        ")",
                    );
                    (Some(NetEvent::Disconnected(line)), LinkAction::GiveUp)
                },
                _ => (
                    Some(NetEvent::Disconnected("Bad handshake".to_owned())),
                    LinkAction::Retry { seconds: 0 },
                ),
            },
            LinkEvent::Ended { error } => (
                match error {
                    Some(e) => Some(
                        NetEvent::Disconnected(text::join2("Connection lost: ", e.as_str())),
                    ),
                    None => None,
                },
                LinkAction::Retry { seconds: 3 },
            ),
        }
    }

    /// The greeting that opens a connection.
    pub fn hello(&self) -> (r: ClientMessage)
        ensures
            r@ == (ClientMessage::<Seq<char>, Seq<u8>, Seq<Seq<u8>>>::Hello {
                version: PROTOCOL_VERSION,
            }),
    {
        ClientMessage::Hello { version: PROTOCOL_VERSION }
    }
}

// ── The message loop ────────────────────────────────────────

/// What the message loop does next.
#[derive(Debug, Clone)]
#[verifier::ext_equal]
pub enum LoopAction<T = String, B = Vec<u8>, K = Vec<Vec<u8>>> {
    /// Pass an event on, if there is one, and go on.
    Tell { event: Option<NetEvent<T, B>> },
    /// Write a message; a failure ends the loop.
    Write { message: ClientMessage<T, B, K> },
    /// Say goodbye as well as possible, and end the loop.
    SayGoodbye,
    /// End the loop with an error.
    Fail { error: T },
}

impl View for LoopAction<String, Vec<u8>, Vec<Vec<u8>>> {
    type V = LoopAction<Seq<char>, Seq<u8>, Seq<Seq<u8>>>;

    open spec fn view(&self) -> LoopAction<Seq<char>, Seq<u8>, Seq<Seq<u8>>> {
        match *self {
            LoopAction::Tell { event } => LoopAction::Tell { event: opt_event(event) },
            LoopAction::Write { message } => LoopAction::Write { message: message@ },
            LoopAction::SayGoodbye => LoopAction::SayGoodbye,
            LoopAction::Fail { error } => LoopAction::Fail { error: error@ },
        }
    }
}

/// What comes of a frame, or of the failure to read one.
pub open spec fn frame_action(frame: Result<ServerMessage, ProtoError>) -> LoopAction<
    Seq<char>,
    Seq<u8>,
    Seq<Seq<u8>>,
> {
    match frame {
        Ok(msg) => LoopAction::Tell { event: event_of(msg@) },
        Err(ProtoError::ConnectionClosed) => LoopAction::Fail {
            error: "Server closed connection"@,
        },
        Err(e) => LoopAction::Fail { error: "Read error: "@ + e.text() },
    }
}

/// What comes of a frame, or of the failure to read one.
pub fn on_frame(frame: Result<ServerMessage, ProtoError>) -> (r: LoopAction)
    ensures
        r@ == frame_action(frame),
{
    match frame {
        Ok(msg) => LoopAction::Tell { event: handle_server_message(msg) },
        Err(ProtoError::ConnectionClosed) => LoopAction::Fail {
            error: "Server closed connection".to_owned(),
        },
        Err(e) => LoopAction::Fail { error: text::join2("Read error: ", e.message().as_str()) },
    }
}

/// What comes of a command, or of the end of the commands.
pub open spec fn command_action(cmd: Option<NetCommandView>) -> LoopAction<
    Seq<char>,
    Seq<u8>,
    Seq<Seq<u8>>,
> {
    match cmd {
        Some(NetCommand::Disconnect) => LoopAction::SayGoodbye,
        Some(c) => LoopAction::Write { message: message_of(c) },
        None => LoopAction::SayGoodbye,
    }
}

/// What comes of a command. The end of the commands is the end of the
/// connection.
pub fn on_command(cmd: Option<NetCommand>) -> (r: LoopAction)
    ensures
        r@ == match cmd {
            Some(c) => if c is Disconnect {
                LoopAction::<Seq<char>, Seq<u8>, Seq<Seq<u8>>>::SayGoodbye
            } else {
                LoopAction::Write { message: message_of(c@) }
            },
            None => LoopAction::SayGoodbye,
        },
        r@ == command_action(
            match cmd {
                Some(c) => Some(c@),
                None => None,
            },
        ),
{
    match cmd {
        Some(NetCommand::Disconnect) => LoopAction::SayGoodbye,
        Some(c) => LoopAction::Write { message: handle_command(c) },
        None => LoopAction::SayGoodbye,
    }
}

/// The shortest time between two heartbeats, in milliseconds: five seconds
/// less than half a minute.
pub const HEARTBEAT_MIN_MS: u64 = 25_000;

/// The longest time between two heartbeats, in milliseconds: five seconds more
/// than half a minute.
pub const HEARTBEAT_MAX_MS: u64 = 35_000;

/// The time to the next heartbeat, in milliseconds, for a random number.
pub fn heartbeat_delay_for(random: u64) -> (r: u64)
    ensures
        r == HEARTBEAT_MIN_MS + random % 10_001,
        HEARTBEAT_MIN_MS <= r <= HEARTBEAT_MAX_MS,
{
    HEARTBEAT_MIN_MS + random % 10_001
}

/// The time to the next heartbeat, in milliseconds: half a minute, give or take
/// up to five seconds.
pub fn heartbeat_delay() -> (r: u64)
    ensures
        HEARTBEAT_MIN_MS <= r <= HEARTBEAT_MAX_MS,
{
    heartbeat_delay_for(primitives::random_number())
}

// ── Addresses ───────────────────────────────────────────────

/// The port that is used where none is given.
pub const DEFAULT_PORT: u16 = 80;

/// The host and the port of an address. The port stands behind the last colon.
pub open spec fn host_and_port(addr: Seq<char>) -> (Seq<char>, u16) {
    let i = text::last_of(addr, ':');
    if i < 0 {
        (addr, DEFAULT_PORT)
    } else {
        (
            addr.take(i),
            match text::parse_port(addr.skip(i + 1)) {
                Some(port) => port,
                None => DEFAULT_PORT,
            },
        )
    }
}

/// The host and the port of an address.
pub fn split_address(addr: &str) -> (r: (String, u16))
    ensures
        (r.0@, r.1) == host_and_port(addr@),
{
    match text::split_last(addr, ':') {
        Some((host, port)) => (
            host,
            match text::read_port(port.as_str()) {
                Some(p) => p,
                None => DEFAULT_PORT,
            },
        ),
        None => (addr.to_owned(), DEFAULT_PORT),
    }
}

/// Whether a server is reached through Tor: it has an onion address, and the
/// user has not switched Tor off.
pub fn use_tor(no_tor: bool, server_addr: &str) -> (r: bool)
    ensures
        r == (!no_tor && text::contains_text(server_addr@, ".onion"@)),
{
    !no_tor && text::contains(server_addr, ".onion")
}

// ── Laws ────────────────────────────────────────────────────

/// A client gives up on a server only if the server speaks another version of
/// the protocol. After anything else it starts again.
pub proof fn law_client_gives_up_on_version_only(
    server: Seq<char>,
    use_tor: bool,
    event: LinkEvent<Seq<char>, Seq<u8>>,
)
    ensures
        link_step(server, use_tor, event).1 == LinkAction::GiveUp <==> (event matches
            LinkEvent::HelloAnswered { answer: Some(ServerMessage::HelloAck { ok: false, .. }) }),
{
}

/// A key bundle reaches the client as the server sent it, with all six fields;
/// and keys come from nowhere else.
pub proof fn law_bundle_arrives_as_sent(msg: ServerMessage<Seq<char>, Seq<u8>>)
    ensures
        msg matches ServerMessage::Bundle {
            username,
            identity_public_key,
            signed_prekey,
            signed_prekey_signature,
            one_time_prekey,
            otpk_index,
        } ==> event_of(msg) == Some(
            NetEvent::<Seq<char>, Seq<u8>>::BundleReceived {
                username,
                identity_public_key,
                signed_prekey,
                signed_prekey_signature,
                one_time_prekey,
                otpk_index,
            },
        ),
        event_of(msg) matches Some(NetEvent::BundleReceived { .. }) ==> msg is Bundle,
        msg matches ServerMessage::BundleError { username, error } ==> event_of(msg) == Some(
            NetEvent::<Seq<char>, Seq<u8>>::BundleError(username, error),
        ),
        event_of(msg) matches Some(NetEvent::BundleError(..)) ==> msg is BundleError,
{
}

/// What another user sends reaches the client as the server handed it over,
/// field by field, and is taken for nothing else.
pub proof fn law_relayed_messages_arrive_as_sent(msg: ServerMessage<Seq<char>, Seq<u8>>)
    ensures
        msg matches ServerMessage::IncomingChatRequest {
            from,
            identity_public_key,
            ephemeral_pub,
            otpk_index,
        } ==> event_of(msg) == Some(
            NetEvent::<Seq<char>, Seq<u8>>::IncomingChatRequest {
                from,
                identity_public_key,
                ephemeral_pub,
                otpk_index,
            },
        ),
        msg matches ServerMessage::ChatRequestAccepted { from, identity_public_key } ==> event_of(
            msg,
        ) == Some(
            NetEvent::<Seq<char>, Seq<u8>>::ChatRequestAccepted { from, identity_public_key },
        ),
        msg matches ServerMessage::ChatRequestRejected { from } ==> event_of(msg) == Some(
            NetEvent::<Seq<char>, Seq<u8>>::ChatRequestRejected { from },
        ),
        msg matches ServerMessage::IncomingMessage { from, ciphertext, nonce, server_timestamp }
            ==> event_of(msg) == Some(
            NetEvent::<Seq<char>, Seq<u8>>::MessageReceived {
                from,
                ciphertext,
                nonce,
                timestamp: server_timestamp,
            },
        ),
        msg matches ServerMessage::IncomingFile {
            from,
            filename,
            chunk_index,
            total_chunks,
            ciphertext,
            nonce,
            server_timestamp,
        } ==> event_of(msg) == Some(
            NetEvent::<Seq<char>, Seq<u8>>::FileReceived {
                from,
                filename,
                chunk_index,
                total_chunks,
                data: ciphertext,
                nonce,
                timestamp: server_timestamp,
            },
        ),
        event_of(msg) matches Some(NetEvent::IncomingChatRequest { .. }) ==> msg
            is IncomingChatRequest,
        event_of(msg) matches Some(NetEvent::ChatRequestAccepted { .. }) ==> msg
            is ChatRequestAccepted,
        event_of(msg) matches Some(NetEvent::ChatRequestRejected { .. }) ==> msg
            is ChatRequestRejected,
        event_of(msg) matches Some(NetEvent::MessageReceived { .. }) ==> msg is IncomingMessage,
        event_of(msg) matches Some(NetEvent::FileReceived { .. }) ==> msg is IncomingFile,
{
}

/// The user hears of a success exactly if the server says that there was one,
/// and otherwise why not.
pub proof fn law_acknowledgements_are_told_truly(ok: bool, error: Option<Seq<char>>)
    ensures
        ({
            let why = match error {
                Some(e) => e,
                None => Seq::<char>::empty(),
            };
            let registered = event_of(ServerMessage::RegisterAck { ok, error });
            let logged_in = event_of(ServerMessage::LoginAck { ok, error });
            let sent = event_of(ServerMessage::SendAck { ok, error });
            &&& ok ==> registered == Some(NetEvent::<Seq<char>, Seq<u8>>::RegisterOk)
            &&& !ok ==> registered == Some(NetEvent::<Seq<char>, Seq<u8>>::RegisterFail(why))
            &&& ok ==> logged_in == Some(NetEvent::<Seq<char>, Seq<u8>>::LoginOk)
            &&& !ok ==> logged_in == Some(NetEvent::<Seq<char>, Seq<u8>>::LoginFail(why))
            &&& ok ==> sent == Some(NetEvent::<Seq<char>, Seq<u8>>::MessageSent)
            &&& !ok ==> sent == Some(NetEvent::<Seq<char>, Seq<u8>>::SendFail(why))
            &&& event_of(ServerMessage::ChatAck { ok, error }) == Some(
                NetEvent::<Seq<char>, Seq<u8>>::ChatAck { ok, error },
            )
        }),
{
}

/// Of the other messages the client hears what they say; of greetings, farewells
/// and the presence of others it hears nothing.
pub proof fn law_other_messages_are_told(
    count: u32,
    ok: bool,
    message: Seq<char>,
    username: Seq<char>,
    version: u8,
)
    ensures
        event_of(ServerMessage::HeartbeatAck { pending_messages: count }) == Some(
            NetEvent::<Seq<char>, Seq<u8>>::HeartbeatAck { pending: count },
        ),
        event_of(ServerMessage::Error { message }) == Some(
            NetEvent::<Seq<char>, Seq<u8>>::Error(message),
        ),
        event_of(ServerMessage::RefillAck { ok, count }) == Some(
            NetEvent::<Seq<char>, Seq<u8>>::SystemMessage(
                "Prekey refill: ok="@ + (if ok {
                    "true"@
                } else {
                    "false"@
                }) + ", count="@ + text::decimal(count as nat),
            ),
        ),
        event_of(ServerMessage::PresenceUpdate { username, online: ok }) is None,
        event_of(ServerMessage::HelloAck { version, ok }) is None,
        event_of(ServerMessage::GoodbyeAck) is None,
{
}

/// What the client wants sent is what is written to the server, field by field.
pub proof fn law_commands_are_written_as_given(cmd: NetCommandView)
    ensures
        cmd matches NetCommand::Register {
            username,
            password_hash,
            identity_public_key,
            signed_prekey,
            signed_prekey_signature,
            one_time_prekeys,
        } ==> message_of(cmd) == (ClientMessage::Register {
            username,
            password_hash,
            identity_public_key,
            signed_prekey,
            signed_prekey_signature,
            one_time_prekeys,
        }),
        cmd matches NetCommand::Login { username, password_hash } ==> message_of(cmd) == (
        ClientMessage::<Seq<char>, Seq<u8>, Seq<Seq<u8>>>::Login { username, password_hash }),
        cmd matches NetCommand::FetchBundle { target } ==> message_of(cmd) == (ClientMessage::<
            Seq<char>,
            Seq<u8>,
            Seq<Seq<u8>>,
        >::FetchBundle { target_username: target }),
        cmd matches NetCommand::ChatRequest { to, identity_public_key, ephemeral_pub, otpk_index }
            ==> message_of(cmd) == (ClientMessage::<
            Seq<char>,
            Seq<u8>,
            Seq<Seq<u8>>,
        >::ChatRequest { to, identity_public_key, ephemeral_pub, otpk_index }),
        cmd matches NetCommand::ChatAccept { to } ==> message_of(cmd) == (ClientMessage::<
            Seq<char>,
            Seq<u8>,
            Seq<Seq<u8>>,
        >::ChatAccept { to }),
        cmd matches NetCommand::ChatReject { to } ==> message_of(cmd) == (ClientMessage::<
            Seq<char>,
            Seq<u8>,
            Seq<Seq<u8>>,
        >::ChatReject { to }),
        cmd matches NetCommand::SendMessage { to, ciphertext, nonce } ==> message_of(cmd) == (
        ClientMessage::<Seq<char>, Seq<u8>, Seq<Seq<u8>>>::SendMessage { to, ciphertext, nonce }),
        cmd matches NetCommand::SendFile {
            to,
            filename,
            chunk_index,
            total_chunks,
            ciphertext,
            nonce,
        } ==> message_of(cmd) == (ClientMessage::<Seq<char>, Seq<u8>, Seq<Seq<u8>>>::SendFile {
            to,
            filename,
            chunk_index,
            total_chunks,
            ciphertext,
            nonce,
        }),
        cmd is Heartbeat ==> message_of(cmd) is Heartbeat,
        cmd is Disconnect ==> message_of(cmd) is Goodbye,
{
}

/// No two things that the client wants sent are the same on the wire.
pub proof fn law_commands_are_told_apart(a: NetCommandView, b: NetCommandView)
    requires
        message_of(a) == message_of(b),
    ensures
        a == b,
{
}

/// The way to a connection: connect, greet, wait for the answer, and, if the
/// server agrees on the version, exchange messages. On every failure the client
/// is told that it is not connected, and starts again.
pub proof fn law_link_goes_forward(
    server: Seq<char>,
    use_tor: bool,
    error: Seq<char>,
    version: u8,
    answer: Option<ServerMessage<Seq<char>, Seq<u8>>>,
)
    ensures
        link_step(server, use_tor, LinkEvent::Start).1 == LinkAction::Connect,
        link_step(server, use_tor, LinkEvent::Connected) == (
            Some(NetEvent::<Seq<char>, Seq<u8>>::Connected),
            LinkAction::SendHello,
        ),
        link_step(server, use_tor, LinkEvent::HelloSent) == (
            None::<NetEventView>,
            LinkAction::AwaitAnswer,
        ),
        link_step(
            server,
            use_tor,
            LinkEvent::HelloAnswered { answer: Some(ServerMessage::HelloAck { version, ok: true }) },
        ) == (None::<NetEventView>, LinkAction::RunMessageLoop),
        ({
            let failed = link_step(server, use_tor, LinkEvent::ConnectFailed { error });
            failed.1 == LinkAction::Retry { seconds: 5 } && (failed.0 matches Some(
                NetEvent::Disconnected(why),
            ) && text::ends_with_text(why, error))
        }),
        ({
            let failed = link_step(server, use_tor, LinkEvent::HelloFailed { error });
            failed.1 == LinkAction::Retry { seconds: 0 } && (failed.0 matches Some(
                NetEvent::Disconnected(why),
            ) && text::ends_with_text(why, error))
        }),
        ({
            let lost = link_step(server, use_tor, LinkEvent::Ended { error: Some(error) });
            lost.1 == LinkAction::Retry { seconds: 3 } && (lost.0 matches Some(
                NetEvent::Disconnected(why),
            ) && text::ends_with_text(why, error))
        }),
        link_step(server, use_tor, LinkEvent::Ended { error: None }) == (
            None::<NetEventView>,
            LinkAction::Retry { seconds: 3 },
        ),
        !(answer matches Some(ServerMessage::HelloAck { .. })) ==> {
            let refused = link_step(server, use_tor, LinkEvent::HelloAnswered { answer });
            refused.1 == LinkAction::Retry { seconds: 0 } && (refused.0 matches Some(
                NetEvent::Disconnected(_),
            ))
        },
        link_step(
            server,
            use_tor,
            LinkEvent::HelloAnswered {
                answer: Some(ServerMessage::HelloAck { version, ok: false }),
            },
        ).0 matches Some(NetEvent::Disconnected(_)),
{
    let head = if use_tor {
        "Tor connection failed: "@
    } else {
        "Connection failed: "@
    };
    lemma_ends_with(head, error);
    lemma_ends_with("Handshake failed: "@, error);
    lemma_ends_with("Connection lost: "@, error);
}

proof fn lemma_ends_with(head: Seq<char>, tail: Seq<char>)
    ensures
        text::ends_with_text(head + tail, tail),
{
    let all = head + tail;
    assert(all.skip(all.len() - tail.len()) =~= tail);
}

/// Messages are exchanged only with a server that has agreed to the version.
pub proof fn law_messages_need_a_handshake(
    server: Seq<char>,
    use_tor: bool,
    event: LinkEvent<Seq<char>, Seq<u8>>,
)
    ensures
        link_step(server, use_tor, event).1 == LinkAction::RunMessageLoop <==> (event matches
            LinkEvent::HelloAnswered { answer: Some(ServerMessage::HelloAck { ok: true, .. }) }),
{
}

/// A frame that was read is passed on as the event that it stands for; one that
/// could not be read ends the loop.
pub proof fn law_frames_are_passed_on(frame: Result<ServerMessage, ProtoError>)
    ensures
        frame matches Ok(msg) ==> (frame_action(frame) matches LoopAction::Tell { event } && event
            == event_of(msg@)),
        frame is Err ==> frame_action(frame) is Fail,
{
}

/// What is written as host, colon and port is taken apart again; what has no
/// colon is a host with the default port.
pub proof fn law_address_is_host_and_port(host: Seq<char>, port: Seq<char>)
    requires
        !port.contains(':'),
    ensures
        ({
            let (h, p) = host_and_port(host + seq![':'] + port);
            &&& h == host
            &&& text::parse_port(port) matches Some(n) ==> p == n
            &&& text::parse_port(port) is None ==> p == 80
        }),
        host_and_port(port) == (port, 80u16),
{
    let addr = host + seq![':'] + port;
    let at = host.len() as int;
    lemma_last_colon(addr, at);
    assert(addr.take(at) =~= host);
    assert(addr.skip(at + 1) =~= port);
    assert forall|j: int| 0 <= j < port.len() implies port[j] != ':' by {
        assert(port.contains(port[j]));
    }
    lemma_last_colon(port, -1);
}

proof fn lemma_last_colon(s: Seq<char>, at: int)
    requires
        -1 <= at < s.len(),
        at >= 0 ==> s[at] == ':',
        forall|j: int| at < j < s.len() ==> s[j] != ':',
    ensures
        text::last_of(s, ':') == at,
    decreases s.len(),
{
    if s.len() > 0 && at < s.len() - 1 {
        assert(s[s.len() - 1] != ':');
        lemma_last_colon(s.drop_last(), at);
    }
}

/// Every command is written, but for the last one: the client says goodbye where
/// it is told to disconnect, and where nobody is left to tell it anything.
pub proof fn law_commands_are_written(cmd: NetCommandView)
    ensures
        command_action(Some(cmd)) is SayGoodbye <==> cmd is Disconnect,
        !(cmd is Disconnect) ==> (command_action(Some(cmd)) matches LoopAction::Write { message }
            && message == message_of(cmd)),
        command_action(None) is SayGoodbye,
{
}

} // verus!
