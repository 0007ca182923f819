//! The messages that client and server exchange.
//!
//! Each message type is written once, over the kinds of value that it holds:
//! `T` for text, `B` for a byte string, `K` for a list of byte strings. A
//! program uses it at the default kinds; a contract speaks of its view, the
//! same type over sequences.

use vstd::prelude::*;

use crate::bytes;
use crate::text;

verus! {

/// What a client sends.
#[derive(Debug, Clone)]
#[verifier::ext_equal]
pub enum ClientMessage<T = String, B = Vec<u8>, K = Vec<Vec<u8>>> {
    Hello { version: u8 },
    Register {
        username: T,
        password_hash: B,
        identity_public_key: B,
        signed_prekey: B,
        signed_prekey_signature: B,
        one_time_prekeys: K,
    },
    Login { username: T, password_hash: B },
    Heartbeat,
    /// Send a chat request to another user
    ChatRequest {
        to: T,
        /// Sender's identity public key
        identity_public_key: B,
        /// Sender's X3DH ephemeral public key
        ephemeral_pub: B,
        /// Which of the recipient's one-time prekeys was used
        otpk_index: Option<u32>,
    },
    /// Accept a chat request
    ChatAccept { to: T },
    /// Reject a chat request
    ChatReject { to: T },
    /// Send an encrypted message (session must be established)
    SendMessage { to: T, ciphertext: B, nonce: B },
    /// Upload a file chunk
    SendFile {
        to: T,
        filename: T,
        chunk_index: u32,
        total_chunks: u32,
        ciphertext: B,
        nonce: B,
    },
    /// Fetch another user's prekey bundle (the first step of a chat request)
    FetchBundle { target_username: T },
    /// Replenish one-time prekeys
    RefillPrekeys { one_time_prekeys: K },
    Goodbye,
}

/// The view of a [`ClientMessage`].
pub type ClientMessageView = ClientMessage<Seq<char>, Seq<u8>, Seq<Seq<u8>>>;

impl View for ClientMessage<String, Vec<u8>, Vec<Vec<u8>>> {
    type V = ClientMessage<Seq<char>, Seq<u8>, Seq<Seq<u8>>>;

    open spec fn view(&self) -> ClientMessage<Seq<char>, Seq<u8>, Seq<Seq<u8>>> {
        match *self {
            ClientMessage::Hello { version } => ClientMessage::Hello { version },
            ClientMessage::Register {
                username,
                password_hash,
                identity_public_key,
                signed_prekey,
                signed_prekey_signature,
                one_time_prekeys,
            } => ClientMessage::Register {
                username: username@,
                password_hash: password_hash@,
                identity_public_key: identity_public_key@,
                signed_prekey: signed_prekey@,
                signed_prekey_signature: signed_prekey_signature@,
                one_time_prekeys: bytes::keys_view(one_time_prekeys@),
            },
            ClientMessage::Login { username, password_hash } => ClientMessage::Login {
                username: username@,
                password_hash: password_hash@,
            },
            ClientMessage::Heartbeat => ClientMessage::Heartbeat,
            ClientMessage::ChatRequest { to, identity_public_key, ephemeral_pub, otpk_index } =>
                ClientMessage::ChatRequest {
                to: to@,
                identity_public_key: identity_public_key@,
                ephemeral_pub: ephemeral_pub@,
                otpk_index,
            },
            ClientMessage::ChatAccept { to } => ClientMessage::ChatAccept { to: to@ },
            ClientMessage::ChatReject { to } => ClientMessage::ChatReject { to: to@ },
            ClientMessage::SendMessage { to, ciphertext, nonce } => ClientMessage::SendMessage {
                to: to@,
                ciphertext: ciphertext@,
                nonce: nonce@,
            },
            ClientMessage::SendFile {
                to,
                filename,
                chunk_index,
                total_chunks,
                ciphertext,
                nonce,
            } => ClientMessage::SendFile {
                to: to@,
                filename: filename@,
                chunk_index,
                total_chunks,
                ciphertext: ciphertext@,
                nonce: nonce@,
            },
            ClientMessage::FetchBundle { target_username } => ClientMessage::FetchBundle {
                target_username: target_username@,
            },
            ClientMessage::RefillPrekeys { one_time_prekeys } => ClientMessage::RefillPrekeys {
                one_time_prekeys: bytes::keys_view(one_time_prekeys@),
            },
            ClientMessage::Goodbye => ClientMessage::Goodbye,
        }
    }
}

/// What the server sends.
#[derive(Debug, Clone)]
#[verifier::ext_equal]
#[allow(inconsistent_fields)]
pub enum ServerMessage<T = String, B = Vec<u8>> {
    HelloAck { version: u8, ok: bool },
    RegisterAck { ok: bool, error: Option<T> },
    LoginAck { ok: bool, error: Option<T> },
    HeartbeatAck { pending_messages: u32 },
    /// Prekey bundle response
    Bundle {
        username: T,
        identity_public_key: B,
        signed_prekey: B,
        signed_prekey_signature: B,
        one_time_prekey: Option<B>,
        otpk_index: Option<u32>,
    },
    BundleError { username: T, error: T },
    /// Incoming chat request from another user
    IncomingChatRequest {
        from: T,
        identity_public_key: B,
        ephemeral_pub: B,
        otpk_index: Option<u32>,
    },
    /// Chat request was accepted by the other side
    ChatRequestAccepted {
        from: T,
        /// Responder's identity public key so initiator can verify
        identity_public_key: B,
    },
    /// Chat request was rejected
    ChatRequestRejected { from: T },
    /// Ack for chat request / accept / reject sends
    ChatAck { ok: bool, error: Option<T> },
    SendAck { ok: bool, error: Option<T> },
    /// Incoming message (delivered immediately if online, or from queue)
    IncomingMessage { from: T, ciphertext: B, nonce: B, server_timestamp: u64 },
    IncomingFile {
        from: T,
        filename: T,
        chunk_index: u32,
        total_chunks: u32,
        ciphertext: B,
        nonce: B,
        server_timestamp: u64,
    },
    RefillAck { ok: bool, count: u32 },
    PresenceUpdate { username: T, online: bool },
    Error { message: T },
    GoodbyeAck,
}

/// The view of a [`ServerMessage`].
pub type ServerMessageView = ServerMessage<Seq<char>, Seq<u8>>;

impl View for ServerMessage<String, Vec<u8>> {
    type V = ServerMessage<Seq<char>, Seq<u8>>;

    open spec fn view(&self) -> ServerMessage<Seq<char>, Seq<u8>> {
        match *self {
            ServerMessage::HelloAck { version, ok } => ServerMessage::HelloAck { version, ok },
            ServerMessage::RegisterAck { ok, error } => ServerMessage::RegisterAck {
                ok,
                error: text::opt_text(error),
            },
            ServerMessage::LoginAck { ok, error } => ServerMessage::LoginAck {
                ok,
                error: text::opt_text(error),
            },
            ServerMessage::HeartbeatAck { pending_messages } => ServerMessage::HeartbeatAck {
                pending_messages,
            },
            ServerMessage::Bundle {
                username,
                identity_public_key,
                signed_prekey,
                signed_prekey_signature,
                one_time_prekey,
                otpk_index,
            } => ServerMessage::Bundle {
                username: username@,
                identity_public_key: identity_public_key@,
                signed_prekey: signed_prekey@,
                signed_prekey_signature: signed_prekey_signature@,
                one_time_prekey: bytes::opt_bytes(one_time_prekey),
                otpk_index,
            },
            ServerMessage::BundleError { username, error } => ServerMessage::BundleError {
                username: username@,
                error: error@,
            },
            ServerMessage::IncomingChatRequest {
                from,
                identity_public_key,
                ephemeral_pub,
                otpk_index,
            } => ServerMessage::IncomingChatRequest {
                from: from@,
                identity_public_key: identity_public_key@,
                ephemeral_pub: ephemeral_pub@,
                otpk_index,
            },
            ServerMessage::ChatRequestAccepted { from, identity_public_key } =>
                ServerMessage::ChatRequestAccepted {
                from: from@,
                identity_public_key: identity_public_key@,
            },
            ServerMessage::ChatRequestRejected { from } => ServerMessage::ChatRequestRejected {
                from: from@,
            },
            ServerMessage::ChatAck { ok, error } => ServerMessage::ChatAck {
                ok,
                error: text::opt_text(error),
            },
            ServerMessage::SendAck { ok, error } => ServerMessage::SendAck {
                ok,
                error: text::opt_text(error),
            },
            ServerMessage::IncomingMessage { from, ciphertext, nonce, server_timestamp } =>
                ServerMessage::IncomingMessage {
                from: from@,
                ciphertext: ciphertext@,
                nonce: nonce@,
                server_timestamp,
            },
            ServerMessage::IncomingFile {
                from,
                filename,
                chunk_index,
                total_chunks,
                ciphertext,
                nonce,
                server_timestamp,
            } => ServerMessage::IncomingFile {
                from: from@,
                filename: filename@,
                chunk_index,
                total_chunks,
                ciphertext: ciphertext@,
                nonce: nonce@,
                server_timestamp,
            },
            ServerMessage::RefillAck { ok, count } => ServerMessage::RefillAck { ok, count },
            ServerMessage::PresenceUpdate { username, online } => ServerMessage::PresenceUpdate {
                username: username@,
                online,
            },
            ServerMessage::Error { message } => ServerMessage::Error { message: message@ },
            ServerMessage::GoodbyeAck => ServerMessage::GoodbyeAck,
        }
    }
}

} // verus!
