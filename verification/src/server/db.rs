//! What the server's tables hold and how rows are read back.
//!
//! The tables themselves are kept by a database; the functions here say which
//! rows are written, and what the rows that come back mean.

use vstd::prelude::*;

use crate::bytes;
use crate::clock;
use crate::protocol::message::ServerMessage;
use crate::text;

verus! {

/// Why a request to the directory fails.
#[derive(Debug, Clone, Copy, PartialEq, Eq, Structural)]
pub enum DbError {
    UsernameTaken,
    UserNotFound,
}

impl DbError {
    pub open spec fn text(self) -> Seq<char> {
        match self {
            DbError::UsernameTaken => "Username already taken"@,
            DbError::UserNotFound => "User not found"@,
        }
    }

    /// The text that the client is shown.
    pub fn message(&self) -> (r: String)
        ensures
            r@ == self.text(),
    {
        match self {
            DbError::UsernameTaken => "Username already taken".to_owned(),
            DbError::UserNotFound => "User not found".to_owned(),
        }
    }
}

// ── Users ───────────────────────────────────────────────────

/// One-time prekeys numbered from `first` on.
pub open spec fn numbered(first: int, keys: Seq<Seq<u8>>) -> Seq<(i64, Seq<u8>)> {
    keys.map(|i: int, k: Seq<u8>| ((first + i) as i64, k))
}

/// The rows of a prekey table, each an index and a public key.
pub open spec fn prekey_rows_view(rows: Seq<(i64, Vec<u8>)>) -> Seq<(i64, Seq<u8>)> {
    rows.map_values(|r: (i64, Vec<u8>)| (r.0, r.1@))
}

fn number_keys(first: i64, keys: &[Vec<u8>]) -> (rows: Vec<(i64, Vec<u8>)>)
    requires
        first + keys@.len() <= i64::MAX + 1,
        keys@.len() <= i64::MAX,
    ensures
        prekey_rows_view(rows@) == numbered(first as int, bytes::keys_view(keys@)),
{
    let mut rows: Vec<(i64, Vec<u8>)> = Vec::new();
    let n: usize = keys.len();
    for i in 0..n
        invariant
            n == keys@.len(),
            first + keys@.len() <= i64::MAX + 1,
            keys@.len() <= i64::MAX,
            rows@.len() == i,
            forall|j: int|
                0 <= j < i ==> (#[trigger] rows@[j]).0 == first + j && rows@[j].1@ == keys@[j]@,
    {
        rows.push((first + i as i64, bytes::copy_bytes(keys[i].as_slice())));
    }
    assert(prekey_rows_view(rows@) =~= numbered(first as int, bytes::keys_view(keys@)));
    rows
}

/// What comes of a registration: the prekey rows of the new account, numbered
/// from zero, unless the name is taken.
pub open spec fn registration(taken: bool, keys: Seq<Seq<u8>>) -> Result<
    Seq<(i64, Seq<u8>)>,
    DbError,
> {
    if taken {
        Err(DbError::UsernameTaken)
    } else {
        Ok(numbered(0, keys))
    }
}

/// Registration: an account is made unless the name is taken. The result is
/// the prekey rows of the new account, numbered from zero.
pub fn register_user(taken: bool, one_time_prekeys: &[Vec<u8>]) -> (r: Result<
    Vec<(i64, Vec<u8>)>,
    DbError,
>)
    requires
        one_time_prekeys@.len() <= i64::MAX,
    ensures
        match r {
            Ok(rows) => !taken && prekey_rows_view(rows@) == numbered(
                0,
                bytes::keys_view(one_time_prekeys@),
            ),
            Err(e) => taken && e == DbError::UsernameTaken,
        },
        registration(taken, bytes::keys_view(one_time_prekeys@)) == match r {
            Ok(rows) => Ok::<Seq<(i64, Seq<u8>)>, DbError>(prekey_rows_view(rows@)),
            Err(e) => Err::<Seq<(i64, Seq<u8>)>, DbError>(e),
        },
{
    if taken {
        Err(DbError::UsernameTaken)
    } else {
        Ok(number_keys(0, one_time_prekeys))
    }
}

/// What comes of a login: whether the hash is the stored one, or that there is no
/// such user.
pub open spec fn authentication(stored: Option<Seq<u8>>, password_hash: Seq<u8>) -> Result<
    bool,
    DbError,
> {
    match stored {
        Some(hash) => Ok(hash == password_hash),
        None => Err(DbError::UserNotFound),
    }
}

/// Authentication: whether the hash is the stored one. An unknown user is an
/// error.
pub fn authenticate(stored: Option<Vec<u8>>, password_hash: &[u8]) -> (r: Result<bool, DbError>)
    ensures
        match stored {
            Some(hash) => r == Ok::<bool, DbError>(hash@ == password_hash@),
            None => r == Err::<bool, DbError>(DbError::UserNotFound),
        },
        r == authentication(bytes::opt_bytes(stored), password_hash@),
{
    match stored {
        Some(hash) => Ok(bytes::same_bytes(hash.as_slice(), password_hash)),
        None => Err(DbError::UserNotFound),
    }
}

/// The values of the columns `online` and `last_seen` at the present time.
pub fn set_online(online: bool) -> (r: (i64, i64))
    ensures
        r.0 == if online { 1int } else { 0int },
{
    set_online_at(online, clock::utc_timestamp())
}

/// The values of the columns `online` and `last_seen` at the time `now`.
pub fn set_online_at(online: bool, now: i64) -> (r: (i64, i64))
    ensures
        r.0 == if online { 1int } else { 0int },
        r.1 == now,
{
    let flag: i64 = if online { 1 } else { 0 };
    (flag, now)
}

/// A user's published keys.
#[derive(Debug, Clone)]
#[verifier::ext_equal]
pub struct BundleRow<B = Vec<u8>> {
    pub identity_public_key: B,
    pub signed_prekey: B,
    pub signed_prekey_signature: B,
}

/// An unused one-time prekey: its row number, the key and its index.
#[derive(Debug, Clone)]
#[verifier::ext_equal]
pub struct PrekeyRow<B = Vec<u8>> {
    pub id: i64,
    pub public_key: B,
    pub key_index: i64,
}

/// What is handed out, and which row has to be marked as used for it.
#[derive(Debug)]
pub struct FetchedBundle {
    pub identity_public_key: Vec<u8>,
    pub signed_prekey: Vec<u8>,
    pub signed_prekey_signature: Vec<u8>,
    pub one_time_prekey: Option<Vec<u8>>,
    pub otpk_index: Option<u32>,
    pub mark_used: Option<i64>,
}

/// What a bundle hands out of the one-time prekeys: the key, its index, and the
/// row that has to be marked as used.
pub type HandedOut = (Option<Seq<u8>>, Option<u32>, Option<i64>);

/// What is handed out where the given prekey is unused; nothing where there is
/// none.
pub open spec fn handed_out(prekey: Option<PrekeyRow<Seq<u8>>>) -> HandedOut {
    match prekey {
        Some(p) => (Some(p.public_key), Some(p.key_index as u32), Some(p.id)),
        None => (None, None, None),
    }
}

/// The view of an optional row.
pub open spec fn prekey_view(prekey: Option<PrekeyRow>) -> Option<PrekeyRow<Seq<u8>>> {
    match prekey {
        Some(p) => Some(
            PrekeyRow { id: p.id, public_key: p.public_key@, key_index: p.key_index },
        ),
        None => None,
    }
}

impl FetchedBundle {
    /// What the bundle hands out of the one-time prekeys.
    pub open spec fn handed_out(&self) -> HandedOut {
        (bytes::opt_bytes(self.one_time_prekey), self.otpk_index, self.mark_used)
    }
}

/// A user's keys, with one unused one-time prekey where there is one left.
/// The row of that prekey has to be marked as used.
pub fn fetch_bundle(user: Option<BundleRow>, prekey: Option<PrekeyRow>) -> (r: Result<
    FetchedBundle,
    DbError,
>)
    ensures
        match (user, r) {
            (Some(u), Ok(b)) => {
                &&& b.identity_public_key@ == u.identity_public_key@
                &&& b.signed_prekey@ == u.signed_prekey@
                &&& b.signed_prekey_signature@ == u.signed_prekey_signature@
                &&& b.handed_out() == handed_out(prekey_view(prekey))
            },
            (None, Err(e)) => e == DbError::UserNotFound,
            _ => false,
        },
{
    match user {
        None => Err(DbError::UserNotFound),
        Some(u) => {
            let (one_time_prekey, otpk_index, mark_used) = match prekey {
                Some(p) => (
                    Some(p.public_key),
                    Some(
                        #[verifier::truncate]
                        (p.key_index as u32),
                    ),
                    Some(p.id),
                ),
                None => (None, None, None),
            };
            Ok(
                FetchedBundle {
                    identity_public_key: u.identity_public_key,
                    signed_prekey: u.signed_prekey,
                    signed_prekey_signature: u.signed_prekey_signature,
                    one_time_prekey,
                    otpk_index,
                    mark_used,
                },
            )
        },
    }
}

/// The largest index in use; minus one where there is none.
pub open spec fn last_index(max_index: Option<i64>) -> int {
    match max_index {
        Some(m) => m as int,
        None => -1,
    }
}

/// The rows for more one-time prekeys, numbered after the largest index in
/// use.
pub fn add_prekeys(max_index: Option<i64>, prekeys: &[Vec<u8>]) -> (rows: Vec<(i64, Vec<u8>)>)
    requires
        last_index(max_index) + prekeys@.len() <= i64::MAX,
        last_index(max_index) < i64::MAX,
        prekeys@.len() <= i64::MAX,
    ensures
        prekey_rows_view(rows@) == numbered(
            last_index(max_index) + 1,
            bytes::keys_view(prekeys@),
        ),
{
    let last: i64 = match max_index {
        Some(m) => m,
        None => -1,
    };
    number_keys(last + 1, prekeys)
}

/// How much is stored for a user: messages and control messages together.
pub fn pending_count(messages: u32, controls: u32) -> (r: u32)
    requires
        messages + controls <= u32::MAX,
    ensures
        r == messages + controls,
{
    messages + controls
}

// ── Message queue ───────────────────────────────────────────

/// A row of the message queue.
#[derive(Debug, Clone)]
#[verifier::ext_equal]
pub struct MessageRow<T = String, B = Vec<u8>> {
    pub recipient: T,
    pub sender: T,
    pub ciphertext: B,
    pub nonce: B,
    pub timestamp: i64,
    pub msg_type: T,
    pub filename: Option<T>,
    pub chunk_index: Option<i64>,
    pub total_chunks: Option<i64>,
}

/// A stored message as it is read back.
#[derive(Debug, Clone)]
#[verifier::ext_equal]
pub struct QueuedMessage<T = String, B = Vec<u8>> {
    pub id: i64,
    pub sender: T,
    pub ciphertext: B,
    pub nonce: B,
    pub timestamp: u64,
    pub msg_type: T,
    pub filename: Option<T>,
    pub chunk_index: Option<u32>,
    pub total_chunks: Option<u32>,
}

impl View for MessageRow<String, Vec<u8>> {
    type V = MessageRow<Seq<char>, Seq<u8>>;

    open spec fn view(&self) -> MessageRow<Seq<char>, Seq<u8>> {
        MessageRow {
            recipient: self.recipient@,
            sender: self.sender@,
            ciphertext: self.ciphertext@,
            nonce: self.nonce@,
            timestamp: self.timestamp,
            msg_type: self.msg_type@,
            filename: text::opt_text(self.filename),
            chunk_index: self.chunk_index,
            total_chunks: self.total_chunks,
        }
    }
}

impl View for QueuedMessage<String, Vec<u8>> {
    type V = QueuedMessage<Seq<char>, Seq<u8>>;

    open spec fn view(&self) -> QueuedMessage<Seq<char>, Seq<u8>> {
        QueuedMessage {
            id: self.id,
            sender: self.sender@,
            ciphertext: self.ciphertext@,
            nonce: self.nonce@,
            timestamp: self.timestamp,
            msg_type: self.msg_type@,
            filename: text::opt_text(self.filename),
            chunk_index: self.chunk_index,
            total_chunks: self.total_chunks,
        }
    }
}

/// The row that stores an encrypted message.
pub open spec fn message_row(
    recipient: Seq<char>,
    sender: Seq<char>,
    ciphertext: Seq<u8>,
    nonce: Seq<u8>,
    timestamp: u64,
) -> MessageRow<Seq<char>, Seq<u8>> {
    MessageRow {
        recipient,
        sender,
        ciphertext,
        nonce,
        timestamp: timestamp as i64,
        msg_type: "message"@,
        filename: None,
        chunk_index: None,
        total_chunks: None,
    }
}

/// The row that stores a file chunk at the time `now`.
pub open spec fn file_row(
    recipient: Seq<char>,
    sender: Seq<char>,
    filename: Seq<char>,
    chunk_index: u32,
    total_chunks: u32,
    ciphertext: Seq<u8>,
    nonce: Seq<u8>,
    now: i64,
) -> MessageRow<Seq<char>, Seq<u8>> {
    MessageRow {
        recipient,
        sender,
        ciphertext,
        nonce,
        timestamp: now,
        msg_type: "file"@,
        filename: Some(filename),
        chunk_index: Some(chunk_index as i64),
        total_chunks: Some(total_chunks as i64),
    }
}

/// The row that stores an encrypted message.
pub fn queue_message(
    recipient: String,
    sender: String,
    ciphertext: Vec<u8>,
    nonce: Vec<u8>,
    timestamp: u64,
) -> (r: MessageRow)
    ensures
        r@ == message_row(recipient@, sender@, ciphertext@, nonce@, timestamp),
{
    MessageRow {
        recipient,
        sender,
        ciphertext,
        nonce,
        timestamp: #[verifier::truncate]
        (timestamp as i64),
        msg_type: "message".to_owned(),
        filename: None,
        chunk_index: None,
        total_chunks: None,
    }
}

/// The row that stores a file chunk now.
pub fn queue_file(
    recipient: String,
    sender: String,
    filename: String,
    chunk_index: u32,
    total_chunks: u32,
    ciphertext: Vec<u8>,
    nonce: Vec<u8>,
) -> (r: MessageRow)
    ensures
        r@ == file_row(
            recipient@,
            sender@,
            filename@,
            chunk_index,
            total_chunks,
            ciphertext@,
            nonce@,
            r.timestamp,
        ),
{
    let now: i64 = clock::utc_timestamp();
    queue_file_at(recipient, sender, filename, chunk_index, total_chunks, ciphertext, nonce, now)
}

/// The row that stores a file chunk at the time `now`.
pub fn queue_file_at(
    recipient: String,
    sender: String,
    filename: String,
    chunk_index: u32,
    total_chunks: u32,
    ciphertext: Vec<u8>,
    nonce: Vec<u8>,
    now: i64,
) -> (r: MessageRow)
    ensures
        r@ == file_row(
            recipient@,
            sender@,
            filename@,
            chunk_index,
            total_chunks,
            ciphertext@,
            nonce@,
            now,
        ),
{
    MessageRow {
        recipient,
        sender,
        ciphertext,
        nonce,
        timestamp: now,
        msg_type: "file".to_owned(),
        filename: Some(filename),
        chunk_index: Some(chunk_index as i64),
        total_chunks: Some(total_chunks as i64),
    }
}

/// A row of the control queue.
#[derive(Debug, Clone)]
#[verifier::ext_equal]
pub struct ControlRow<T = String, B = Vec<u8>> {
    pub recipient: T,
    pub sender: T,
    pub msg_type: T,
    pub data: B,
    pub timestamp: i64,
}

impl View for ControlRow<String, Vec<u8>> {
    type V = ControlRow<Seq<char>, Seq<u8>>;

    open spec fn view(&self) -> ControlRow<Seq<char>, Seq<u8>> {
        ControlRow {
            recipient: self.recipient@,
            sender: self.sender@,
            msg_type: self.msg_type@,
            data: self.data@,
            timestamp: self.timestamp,
        }
    }
}

/// The row that stores a control message now.
pub fn queue_control(recipient: String, sender: String, msg_type: String, data: Vec<u8>) -> (r:
    ControlRow)
    ensures
        r@ == (ControlRow {
            recipient: recipient@,
            sender: sender@,
            msg_type: msg_type@,
            data: data@,
            timestamp: r.timestamp,
        }),
{
    queue_control_at(recipient, sender, msg_type, data, clock::utc_timestamp())
}

/// The row that stores a control message at the time `now`.
pub fn queue_control_at(
    recipient: String,
    sender: String,
    msg_type: String,
    data: Vec<u8>,
    now: i64,
) -> (r: ControlRow)
    ensures
        r@ == (ControlRow {
            recipient: recipient@,
            sender: sender@,
            msg_type: msg_type@,
            data: data@,
            timestamp: now,
        }),
{
    ControlRow { recipient, sender, msg_type, data, timestamp: now }
}

/// A column that may be empty, as a 32-bit number.
pub open spec fn small(n: Option<i64>) -> Option<u32> {
    match n {
        Some(i) => Some(i as u32),
        None => None,
    }
}

/// What the row with number `id` means.
pub open spec fn read_back(id: i64, row: MessageRow<Seq<char>, Seq<u8>>) -> QueuedMessage<
    Seq<char>,
    Seq<u8>,
> {
    QueuedMessage {
        id,
        sender: row.sender,
        ciphertext: row.ciphertext,
        nonce: row.nonce,
        timestamp: row.timestamp as u64,
        msg_type: row.msg_type,
        filename: row.filename,
        chunk_index: small(row.chunk_index),
        total_chunks: small(row.total_chunks),
    }
}

fn small_number(n: Option<i64>) -> (r: Option<u32>)
    ensures
        r == small(n),
{
    match n {
        Some(i) => Some(
            #[verifier::truncate]
            (i as u32),
        ),
        None => None,
    }
}

/// Reads a stored message from its row.
pub fn read_row(id: i64, row: MessageRow) -> (r: QueuedMessage)
    ensures
        r@ == read_back(id, row@),
{
    QueuedMessage {
        id,
        sender: row.sender,
        ciphertext: row.ciphertext,
        nonce: row.nonce,
        timestamp: #[verifier::truncate]
        (row.timestamp as u64),
        msg_type: row.msg_type,
        filename: row.filename,
        chunk_index: small_number(row.chunk_index),
        total_chunks: small_number(row.total_chunks),
    }
}

// ── Delivery ────────────────────────────────────────────────

/// The frame that hands a stored message to its recipient.
pub open spec fn delivery(qm: QueuedMessage<Seq<char>, Seq<u8>>) -> ServerMessage<
    Seq<char>,
    Seq<u8>,
> {
    if qm.msg_type == "file"@ {
        ServerMessage::IncomingFile {
            from: qm.sender,
            filename: match qm.filename {
                Some(f) => f,
                None => seq![],
            },
            chunk_index: match qm.chunk_index {
                Some(i) => i,
                None => 0,
            },
            total_chunks: match qm.total_chunks {
                Some(n) => n,
                None => 1,
            },
            ciphertext: qm.ciphertext,
            nonce: qm.nonce,
            server_timestamp: qm.timestamp,
        }
    } else {
        ServerMessage::IncomingMessage {
            from: qm.sender,
            ciphertext: qm.ciphertext,
            nonce: qm.nonce,
            server_timestamp: qm.timestamp,
        }
    }
}

/// The frame that hands a stored message to its recipient.
pub fn deliver(qm: QueuedMessage) -> (r: ServerMessage)
    ensures
        r@ == delivery(qm@),
{
    if text::same_text(qm.msg_type.as_str(), "file") {
        let filename = match qm.filename {
            Some(f) => f,
            None => String::new(),
        };
        ServerMessage::IncomingFile {
            from: qm.sender,
            filename,
            chunk_index: match qm.chunk_index {
                Some(i) => i,
                None => 0,
            },
            total_chunks: match qm.total_chunks {
                Some(n) => n,
                None => 1,
            },
            ciphertext: qm.ciphertext,
            nonce: qm.nonce,
            server_timestamp: qm.timestamp,
        }
    } else {
        ServerMessage::IncomingMessage {
            from: qm.sender,
            ciphertext: qm.ciphertext,
            nonce: qm.nonce,
            server_timestamp: qm.timestamp,
        }
    }
}

/// The frames for all that was stored, oldest first.
pub fn deliver_messages(queued: Vec<QueuedMessage>) -> (r: Vec<ServerMessage>)
    ensures
        r@.map_values(|m: ServerMessage| m@) == queued@.map_values(
            |q: QueuedMessage| delivery(q@),
        ),
{
    let ghost all = queued@;
    let mut out: Vec<ServerMessage> = Vec::new();
    for q in it: queued
        invariant
            it.seq() == all,
            out@.len() == it.index(),
            forall|j: int| 0 <= j < out@.len() ==> (#[trigger] out@[j])@ == delivery(all[j]@),
    {
        out.push(deliver(q));
    }
    assert(out@.map_values(|m: ServerMessage| m@) =~= all.map_values(
        |q: QueuedMessage| delivery(q@),
    ));
    out
}

/// Whether the control queue knows this kind of message.
pub open spec fn is_control_kind(kind: Seq<char>) -> bool {
    kind == "chat_request"@ || kind == "chat_accept"@ || kind == "chat_reject"@
}

/// The frames for stored control messages: those of a known kind that could be
/// decoded, in order.
pub open spec fn control_frames(
    controls: Seq<(Seq<char>, Option<ServerMessage<Seq<char>, Seq<u8>>>)>,
) -> Seq<ServerMessage<Seq<char>, Seq<u8>>>
    decreases controls.len(),
{
    if controls.len() == 0 {
        seq![]
    } else {
        let rest = control_frames(controls.drop_last());
        let (kind, message) = controls.last();
        if is_control_kind(kind) && message is Some {
            rest.push(message->Some_0)
        } else {
            rest
        }
    }
}

/// The view of a stored control message.
pub open spec fn control_view(c: (String, Option<ServerMessage>)) -> (
    Seq<char>,
    Option<ServerMessage<Seq<char>, Seq<u8>>>,
) {
    (
        c.0@,
        match c.1 {
            Some(m) => Some(m@),
            None => None,
        },
    )
}

/// The frames for stored control messages, each given with its kind and, where
/// it could be decoded, the message.
pub fn deliver_controls(controls: Vec<(String, Option<ServerMessage>)>) -> (r: Vec<ServerMessage>)
    ensures
        r@.map_values(|m: ServerMessage| m@) == control_frames(
            controls@.map_values(|c: (String, Option<ServerMessage>)| control_view(c)),
        ),
{
    let ghost all = controls@.map_values(|c: (String, Option<ServerMessage>)| control_view(c));
    let mut out: Vec<ServerMessage> = Vec::new();
    assert(out@.map_values(|m: ServerMessage| m@) =~= control_frames(all.take(0)));
    for c in it: controls
        invariant
            it.seq() == controls@,
            all == controls@.map_values(|c: (String, Option<ServerMessage>)| control_view(c)),
            out@.map_values(|m: ServerMessage| m@) == control_frames(all.take(it.index())),
    {
        let ghost i = it.index();
        let ghost before = out@;
        assert(all.take(i + 1).drop_last() =~= all.take(i));
        assert(all.take(i + 1).last() == control_view(c));
        let (kind, message) = c;
        let k = kind.as_str();
        if text::same_text(k, "chat_request") || text::same_text(k, "chat_accept")
            || text::same_text(k, "chat_reject") {
            if let Some(m) = message {
                out.push(m);
                assert(out@.map_values(|m: ServerMessage| m@) =~= before.map_values(
                    |m: ServerMessage| m@,
                ).push(m@));
            }
        }
    }
    assert(all.take(all.len() as int) =~= all);
    out
}

/// All that is waiting for a user, in the order in which it is handed out.
pub open spec fn queue_frames(
    controls: Seq<(Seq<char>, Option<ServerMessage<Seq<char>, Seq<u8>>>)>,
    queued: Seq<QueuedMessage<Seq<char>, Seq<u8>>>,
) -> Seq<ServerMessage<Seq<char>, Seq<u8>>> {
    control_frames(controls) + queued.map_values(
        |q: QueuedMessage<Seq<char>, Seq<u8>>| delivery(q),
    )
}

/// All that is waiting for a user, in the order in which it is handed out:
/// control messages first, then messages and files, oldest first.
pub fn deliver_queue(
    controls: Vec<(String, Option<ServerMessage>)>,
    queued: Vec<QueuedMessage>,
) -> (r: Vec<ServerMessage>)
    ensures
        r@.map_values(|m: ServerMessage| m@) == control_frames(
            controls@.map_values(|c: (String, Option<ServerMessage>)| control_view(c)),
        ) + queued@.map_values(|q: QueuedMessage| delivery(q@)),
        r@.map_values(|m: ServerMessage| m@) == queue_frames(
            controls@.map_values(|c: (String, Option<ServerMessage>)| control_view(c)),
            queued@.map_values(|q: QueuedMessage| q@),
        ),
{
    let mut frames = deliver_controls(controls);
    let ghost first = frames@;
    let mut messages = deliver_messages(queued);
    let ghost second = messages@;
    frames.append(&mut messages);
    assert(frames@.map_values(|m: ServerMessage| m@) =~= first.map_values(|m: ServerMessage| m@)
        + second.map_values(|m: ServerMessage| m@));
    assert(queued@.map_values(|q: QueuedMessage| q@).map_values(
        |q: QueuedMessage<Seq<char>, Seq<u8>>| delivery(q),
    ) =~= queued@.map_values(|q: QueuedMessage| delivery(q@)));
    frames
}

} // verus!
