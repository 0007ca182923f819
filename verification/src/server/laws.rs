//! What holds of the server as a whole.

use vstd::prelude::*;

use crate::protocol::message::{ClientMessage, ServerMessage};
use crate::server::db;
use crate::server::db::PrekeyRow;
use crate::server::handler;
use crate::server::handler::{
    Answer, BytesView, Effect, KeysView, Next, Pending, Request, StepView, TextView,
};

verus! {

/// A number that goes through a signed 64-bit column comes back unchanged.
proof fn lemma_column_keeps_number(n: u64)
    ensures
        (n as i64) as u64 == n,
{
    assert((n as i64) as u64 == n) by (bit_vector);
}

/// An encrypted message that had to be stored reaches its recipient exactly as
/// it would have reached it directly.
pub proof fn law_stored_message_arrives_unchanged(
    from: TextView,
    to: TextView,
    ciphertext: BytesView,
    nonce: BytesView,
    server_timestamp: u64,
    id: i64,
)
    ensures
        ({
            let message = ServerMessage::IncomingMessage {
                from,
                ciphertext,
                nonce,
                server_timestamp,
            };
            &&& handler::stored(from, to, message) == Some(
                Effect::QueueMessage { to, from, ciphertext, nonce, timestamp: server_timestamp },
            )
            &&& db::delivery(
                db::read_back(
                    id,
                    db::message_row(to, from, ciphertext, nonce, server_timestamp),
                ),
            ) == message
        }),
{
    reveal_strlit("message");
    reveal_strlit("file");
    assert("message"@.len() != "file"@.len());
    lemma_column_keeps_number(server_timestamp);
}

/// A file chunk that had to be stored reaches its recipient as it would have
/// reached it directly, but with the time at which it was stored.
pub proof fn law_stored_file_arrives_unchanged(
    from: TextView,
    to: TextView,
    filename: TextView,
    chunk_index: u32,
    total_chunks: u32,
    ciphertext: BytesView,
    nonce: BytesView,
    sent: u64,
    stored_at: i64,
    id: i64,
)
    ensures
        handler::stored(
            from,
            to,
            ServerMessage::IncomingFile {
                from,
                filename,
                chunk_index,
                total_chunks,
                ciphertext,
                nonce,
                server_timestamp: sent,
            },
        ) == Some(
            Effect::QueueFile {
                to,
                from,
                filename,
                chunk_index,
                total_chunks,
                ciphertext,
                nonce,
            },
        ),
        db::delivery(
            db::read_back(
                id,
                db::file_row(
                    to,
                    from,
                    filename,
                    chunk_index,
                    total_chunks,
                    ciphertext,
                    nonce,
                    stored_at,
                ),
            ),
        ) == (ServerMessage::IncomingFile {
            from,
            filename,
            chunk_index,
            total_chunks,
            ciphertext,
            nonce,
            server_timestamp: stored_at as u64,
        }),
{
    assert((chunk_index as i64) as u32 == chunk_index) by (bit_vector);
    assert((total_chunks as i64) as u32 == total_chunks) by (bit_vector);
}

/// A control message that had to be stored is of a kind that the queue hands
/// out, so it reaches its recipient unchanged.
pub proof fn law_stored_control_arrives_unchanged(
    from: TextView,
    to: TextView,
    message: ServerMessage<TextView, BytesView>,
)
    requires
        message is IncomingChatRequest || message is ChatRequestAccepted
            || message is ChatRequestRejected,
    ensures
        handler::stored(from, to, message) matches Some(
            Effect::QueueControl { to: t, from: f, kind, message: m },
        ) && t == to && f == from && m == message && db::control_frames(
            seq![(kind, Some(m))],
        ) == seq![message],
{
    let effect = handler::stored(from, to, message)->Some_0;
    let kind = effect->QueueControl_kind;
    let one = seq![(kind, Some(message))];
    assert(one.drop_last() =~= Seq::empty());
    assert(db::control_frames(one.drop_last()) =~= Seq::empty());
    assert(one.last() == (kind, Some(message)));
    assert(db::control_frames(one) =~= seq![message]);
}

/// Control messages of known kinds are all handed out, in the order in which
/// they were stored.
pub proof fn law_control_queue_keeps_order(
    controls: Seq<(TextView, Option<ServerMessage<TextView, BytesView>>)>,
)
    requires
        forall|i: int|
            0 <= i < controls.len() ==> db::is_control_kind((#[trigger] controls[i]).0)
                && controls[i].1 is Some,
    ensures
        db::control_frames(controls) == controls.map_values(
            |c: (TextView, Option<ServerMessage<TextView, BytesView>>)| c.1->Some_0,
        ),
    decreases controls.len(),
{
    if controls.len() > 0 {
        law_control_queue_keeps_order(controls.drop_last());
        assert(db::is_control_kind(controls[controls.len() - 1].0));
    }
    assert(db::control_frames(controls) =~= controls.map_values(
        |c: (TextView, Option<ServerMessage<TextView, BytesView>>)| c.1->Some_0,
    ));
}

/// The step that answers the open question of `step`.
pub open spec fn answered(
    me: Option<TextView>,
    step: StepView,
    answer: Answer<TextView, BytesView>,
    now: i64,
) -> StepView {
    match step.next {
        Next::Ask { pending, .. } => handler::next_step(me, pending, answer, now),
        _ => handler::idle(),
    }
}

/// Whether carrying out a step stores something or hands it to another client.
pub open spec fn touches_others(step: StepView) -> bool {
    ||| step.next matches Next::Ask { request: Request::Deliver { .. }, .. }
    ||| exists|i: int|
        0 <= i < step.effects.len() && (#[trigger] step.effects[i] is QueueControl
            || step.effects[i] is QueueMessage || step.effects[i] is QueueFile)
}

/// A message to a user that exists is handed over with the sender's own name
/// and untouched contents, stored if that user has no connection, and
/// acknowledged in both cases.
pub proof fn law_message_is_relayed(
    me: Option<TextView>,
    to: TextView,
    ciphertext: BytesView,
    nonce: BytesView,
    now: i64,
    later: i64,
)
    ensures
        ({
            let from = handler::name_of(me);
            let message = ServerMessage::IncomingMessage {
                from,
                ciphertext,
                nonce,
                server_timestamp: now as u64,
            };
            let sent = handler::first_step(
                me,
                ClientMessage::SendMessage { to, ciphertext, nonce },
            );
            let found = answered(me, sent, Answer::Exists { yes: true }, now);
            let done = Effect::Reply(ServerMessage::SendAck { ok: true, error: None });
            &&& sent.next matches Next::Ask { request: Request::UserExists { username }, .. }
                && username == to
            &&& found.next matches Next::Ask { request: Request::Deliver { to: t, message: m }, .. }
                && t == to && m == message
            &&& answered(me, found, Answer::Delivered, later).effects == seq![done]
            &&& answered(me, found, Answer::Undelivered { message }, later).effects == seq![
                Effect::QueueMessage { to, from, ciphertext, nonce, timestamp: now as u64 },
                done,
            ]
        }),
{
}

/// What is addressed to a user that does not exist is refused: nothing is
/// stored, nothing is handed to anybody, and the sender is told.
pub proof fn law_unknown_recipient_is_refused(
    me: Option<TextView>,
    msg: ClientMessage<TextView, BytesView, KeysView>,
    now: i64,
)
    requires
        msg is ChatRequest || msg is SendMessage || msg is SendFile,
    ensures
        ({
            let refused = answered(
                me,
                handler::first_step(me, msg),
                Answer::Exists { yes: false },
                now,
            );
            &&& !touches_others(handler::first_step(me, msg))
            &&& !touches_others(refused)
            &&& refused == handler::reply(handler::ack(msg is ChatRequest, Some("User not found"@)))
        }),
{
}

/// Nobody speaks under a name before the server has accepted it: only a
/// registration or a login that succeeded changes the name of a connection,
/// and then to the name that was asked for.
pub proof fn law_name_comes_from_login(
    me: Option<TextView>,
    msg: ClientMessage<TextView, BytesView, KeysView>,
    answer: Answer<TextView, BytesView>,
    now: i64,
)
    ensures
        ({
            let step = handler::first_step(me, msg);
            step.next matches Next::Ask { pending, .. } ==> {
                let after = handler::name_after(me, pending, answer);
                after != me ==> {
                    ||| msg matches ClientMessage::Register { username, .. } && after == Some(
                        username,
                    ) && answer == (Answer::<TextView, BytesView>::Registered { error: None })
                    ||| msg matches ClientMessage::Login { username, .. } && after == Some(username)
                        && answer == (Answer::<TextView, BytesView>::Authenticated { ok: true })
                }
            }
        }),
{
}

/// Everything that another client receives bears the name that the sender's
/// connection has logged in under.
pub proof fn law_sender_cannot_be_forged(
    me: Option<TextView>,
    msg: ClientMessage<TextView, BytesView, KeysView>,
    answer: Answer<TextView, BytesView>,
    now: i64,
)
    ensures
        ({
            let first = handler::first_step(me, msg);
            let second = answered(me, first, answer, now);
            &&& first.next matches Next::Ask { request: Request::Deliver { message, .. }, .. }
                ==> sender(message) == Some(handler::name_of(me))
            &&& second.next matches Next::Ask { request: Request::Deliver { message, .. }, .. }
                ==> sender(message) == Some(handler::name_of(me))
        }),
{
}

/// The sender that a relayed message names.
pub open spec fn sender(message: ServerMessage<TextView, BytesView>) -> Option<TextView> {
    match message {
        ServerMessage::IncomingChatRequest { from, .. } => Some(from),
        ServerMessage::ChatRequestAccepted { from, .. } => Some(from),
        ServerMessage::ChatRequestRejected { from } => Some(from),
        ServerMessage::IncomingMessage { from, .. } => Some(from),
        ServerMessage::IncomingFile { from, .. } => Some(from),
        _ => None,
    }
}

/// A connection that nobody has logged in over gets no stored messages and
/// adds no prekeys.
pub proof fn law_strangers_get_nothing(one_time_prekeys: KeysView)
    ensures
        handler::first_step(None, ClientMessage::Heartbeat) == handler::idle(),
        handler::first_step(None, ClientMessage::RefillPrekeys { one_time_prekeys })
            == handler::idle(),
        handler::leaving(None) == Seq::<Effect<TextView, BytesView>>::empty(),
{
}

/// Prekeys that are added get indices that no earlier prekey of the user has,
/// and no two of them get the same.
pub proof fn law_prekey_indices_are_fresh(
    max_index: Option<i64>,
    keys: KeysView,
    taken: Set<i64>,
)
    requires
        db::last_index(max_index) + keys.len() <= i64::MAX,
        db::last_index(max_index) >= -1,
        forall|i: i64| taken.contains(i) ==> i <= db::last_index(max_index),
    ensures
        ({
            let rows = db::numbered(db::last_index(max_index) + 1, keys);
            &&& rows.len() == keys.len()
            &&& forall|i: int|
                0 <= i < rows.len() ==> !taken.contains((#[trigger] rows[i]).0) && rows[i].1
                    == keys[i]
            &&& forall|i: int, j: int|
                0 <= i < j < rows.len() ==> (#[trigger] rows[i]).0 < (#[trigger] rows[j]).0
        }),
{
}

/// What is stored stands in the row of its recipient, under its sender, and
/// holds what was sent.
pub proof fn law_row_is_the_recipients(
    recipient: TextView,
    sender: TextView,
    filename: TextView,
    chunk_index: u32,
    total_chunks: u32,
    ciphertext: BytesView,
    nonce: BytesView,
    timestamp: u64,
    now: i64,
)
    ensures
        ({
            let message = db::message_row(recipient, sender, ciphertext, nonce, timestamp);
            let file = db::file_row(
                recipient,
                sender,
                filename,
                chunk_index,
                total_chunks,
                ciphertext,
                nonce,
                now,
            );
            &&& message.recipient == recipient && message.sender == sender
            &&& message.ciphertext == ciphertext && message.nonce == nonce
            &&& message.timestamp as u64 == timestamp
            &&& message.msg_type == "message"@ && message.filename is None
            &&& message.chunk_index is None && message.total_chunks is None
            &&& file.recipient == recipient && file.sender == sender
            &&& file.ciphertext == ciphertext && file.nonce == nonce && file.timestamp == now
            &&& file.msg_type == "file"@ && file.filename == Some(filename)
            &&& file.chunk_index == Some(chunk_index as i64)
            &&& file.total_chunks == Some(total_chunks as i64)
        }),
{
    lemma_column_keeps_number(timestamp);
}

/// A row is read back as it stands, under its own number.
pub proof fn law_row_is_read_as_it_stands(id: i64, row: db::MessageRow<TextView, BytesView>)
    ensures
        ({
            let read = db::read_back(id, row);
            &&& read.id == id && read.sender == row.sender && read.ciphertext == row.ciphertext
            &&& read.nonce == row.nonce && read.timestamp == row.timestamp as u64
            &&& read.msg_type == row.msg_type && read.filename == row.filename
            &&& row.chunk_index is None <==> read.chunk_index is None
            &&& row.total_chunks is None <==> read.total_chunks is None
            &&& row.chunk_index matches Some(n) ==> read.chunk_index == Some(n as u32)
            &&& row.total_chunks matches Some(n) ==> read.total_chunks == Some(n as u32)
        }),
{
}

/// Whatever is stored, a file is handed out as a file and anything else as a
/// message, from its sender and with its contents.
pub proof fn law_stored_rows_are_handed_out(qm: db::QueuedMessage<TextView, BytesView>)
    ensures
        db::delivery(qm) is IncomingFile <==> qm.msg_type == "file"@,
        db::delivery(qm) is IncomingMessage <==> qm.msg_type != "file"@,
        sender(db::delivery(qm)) == Some(qm.sender),
        qm.msg_type != "file"@ ==> db::delivery(qm) == (ServerMessage::<
            TextView,
            BytesView,
        >::IncomingMessage {
            from: qm.sender,
            ciphertext: qm.ciphertext,
            nonce: qm.nonce,
            server_timestamp: qm.timestamp,
        }),
        qm.msg_type == "file"@ && qm.filename is Some && qm.chunk_index is Some && qm.total_chunks
            is Some ==> db::delivery(qm) == (ServerMessage::<TextView, BytesView>::IncomingFile {
            from: qm.sender,
            filename: qm.filename->Some_0,
            chunk_index: qm.chunk_index->Some_0,
            total_chunks: qm.total_chunks->Some_0,
            ciphertext: qm.ciphertext,
            nonce: qm.nonce,
            server_timestamp: qm.timestamp,
        }),
{
}

/// One more stored control message is one more frame, at the end, if it is of a
/// known kind and could be decoded; else it is as if it were not there.
pub proof fn law_controls_come_out_in_order(
    controls: Seq<(TextView, Option<ServerMessage<TextView, BytesView>>)>,
    kind: TextView,
    message: Option<ServerMessage<TextView, BytesView>>,
)
    ensures
        ({
            let before = db::control_frames(controls);
            let after = db::control_frames(controls.push((kind, message)));
            &&& (kind == "chat_request"@ || kind == "chat_accept"@ || kind == "chat_reject"@)
                && message is Some ==> after == before.push(message->Some_0)
            &&& !(kind == "chat_request"@ || kind == "chat_accept"@ || kind == "chat_reject"@)
                || message is None ==> after == before
        }),
        db::control_frames(seq![]).len() == 0,
{
    assert(controls.push((kind, message)).drop_last() =~= controls);
}

/// A prekey is handed out with its own key and index, and its own row is the one
/// to be marked; where there is none, there is nothing to mark either.
pub proof fn law_handed_out_prekey_is_the_marked_one(prekey: Option<PrekeyRow<BytesView>>)
    ensures
        prekey matches Some(p) ==> db::handed_out(prekey) == (
            Some(p.public_key),
            Some(p.key_index as u32),
            Some(p.id),
        ),
        prekey is None ==> db::handed_out(prekey) == (
            None::<BytesView>,
            None::<u32>,
            None::<i64>,
        ),
{
}

/// The first prekeys of a user are numbered from zero, in the order in which
/// they came.
pub proof fn law_prekeys_are_numbered_in_order(first: int, keys: KeysView, i: int)
    requires
        0 <= i < keys.len(),
        0 <= first,
        first + keys.len() <= i64::MAX,
    ensures
        db::numbered(first, keys).len() == keys.len(),
        db::numbered(first, keys)[i] == ((first + i) as i64, keys[i]),
        db::last_index(None) == -1,
        db::last_index(Some(first as i64)) == first,
{
}

/// Whoever sends the hash that is stored is let in, and nobody else; a user that
/// there is not cannot log in.
pub proof fn law_login_needs_the_stored_hash(stored: BytesView, password_hash: BytesView)
    ensures
        db::authentication(Some(stored), password_hash) == Ok::<bool, db::DbError>(
            stored == password_hash,
        ),
        db::authentication(Some(stored), stored) == Ok::<bool, db::DbError>(true),
        db::authentication(None, password_hash) == Err::<bool, db::DbError>(
            db::DbError::UserNotFound,
        ),
{
}

/// A name is given once. A new account has a row for each of its prekeys, under
/// the place of the key in the list.
pub proof fn law_name_is_given_once(keys: KeysView, i: int)
    requires
        0 <= i < keys.len() <= i64::MAX,
    ensures
        db::DbError::UsernameTaken.text() == "Username already taken"@,
        db::DbError::UserNotFound.text() == "User not found"@,
        db::registration(true, keys) == Err::<Seq<(i64, BytesView)>, db::DbError>(
            db::DbError::UsernameTaken,
        ),
        db::registration(false, keys) matches Ok(rows) && rows.len() == keys.len() && rows[i] == (
            i as i64,
            keys[i],
        ),
{
}

/// What is waiting for a user is handed out control messages first, then messages
/// and files, each in the order in which it was stored, and nothing is left
/// out.
pub proof fn law_queue_is_handed_out_in_order(
    controls: Seq<(TextView, Option<ServerMessage<TextView, BytesView>>)>,
    queued: Seq<db::QueuedMessage<TextView, BytesView>>,
    i: int,
)
    requires
        0 <= i < queued.len(),
    ensures
        ({
            let frames = db::queue_frames(controls, queued);
            let n = db::control_frames(controls).len();
            &&& frames.len() == n + queued.len()
            &&& frames.take(n as int) == db::control_frames(controls)
            &&& frames[n + i] == db::delivery(queued[i])
        }),
{
    let frames = db::queue_frames(controls, queued);
    let n = db::control_frames(controls).len();
    assert(frames.take(n as int) =~= db::control_frames(controls));
}

// ── One-time prekeys ────────────────────────────────────────

/// A one-time prekey in the table, and whether it has been used.
#[verifier::ext_equal]
pub ghost struct StoredPrekey {
    pub row: PrekeyRow<BytesView>,
    pub used: bool,
}

/// The prekeys of a user that has just registered: the numbered keys, each in a
/// row of its own, none of them used.
pub open spec fn is_fresh_table(table: Seq<StoredPrekey>, keys: Seq<BytesView>) -> bool {
    &&& table.len() == keys.len()
    &&& forall|j: int|
        0 <= j < keys.len() ==> !(#[trigger] table[j]).used && (
        table[j].row.key_index,
        table[j].row.public_key,
    ) == db::numbered(0, keys)[j]
    &&& have_own_rows(table)
}

/// No two prekeys have the same row number.
pub open spec fn have_own_rows(table: Seq<StoredPrekey>) -> bool {
    forall|i: int, j: int|
        0 <= i < j < table.len() ==> (#[trigger] table[i]).row.id != (#[trigger] table[j]).row.id
}

/// What the table is asked for is an unused prekey, whichever; nothing comes
/// where all are used.
pub open spec fn is_offered(table: Seq<StoredPrekey>, prekey: Option<PrekeyRow<BytesView>>) -> bool {
    match prekey {
        Some(p) => exists|j: int|
            0 <= j < table.len() && !(#[trigger] table[j]).used && table[j].row == p,
        None => forall|j: int| 0 <= j < table.len() ==> (#[trigger] table[j]).used,
    }
}

/// The table with a row marked as used.
pub open spec fn marked(table: Seq<StoredPrekey>, id: Option<i64>) -> Seq<StoredPrekey> {
    table.map_values(
        |s: StoredPrekey| StoredPrekey { used: s.used || id == Some(s.row.id), ..s },
    )
}

/// Bundles of one user that are fetched one after the other: for each the table
/// offers a prekey, the bundle hands it out, and its row is marked.
pub open spec fn are_fetched(
    tables: Seq<Seq<StoredPrekey>>,
    offers: Seq<Option<PrekeyRow<BytesView>>>,
    bundles: Seq<db::HandedOut>,
) -> bool {
    &&& tables.len() == offers.len() + 1
    &&& bundles.len() == offers.len()
    &&& forall|k: int|
        0 <= k < offers.len() ==> {
            &&& is_offered(tables[k], #[trigger] offers[k])
            &&& bundles[k] == db::handed_out(offers[k])
            &&& tables[k + 1] == marked(tables[k], bundles[k].2)
        }
}

/// How many prekeys have not been used.
pub open spec fn unused(table: Seq<StoredPrekey>) -> nat
    decreases table.len(),
{
    if table.len() == 0 {
        0
    } else {
        unused(table.drop_last()) + if table.last().used {
            0nat
        } else {
            1
        }
    }
}

proof fn lemma_all_unused(table: Seq<StoredPrekey>)
    requires
        forall|j: int| 0 <= j < table.len() ==> !(#[trigger] table[j]).used,
    ensures
        unused(table) == table.len(),
    decreases table.len(),
{
    if table.len() > 0 {
        lemma_all_unused(table.drop_last());
        assert(!table[table.len() - 1].used);
    }
}

proof fn lemma_none_unused(table: Seq<StoredPrekey>)
    ensures
        unused(table) == 0 <==> (forall|j: int|
            0 <= j < table.len() ==> (#[trigger] table[j]).used),
    decreases table.len(),
{
    if table.len() > 0 {
        let rest = table.drop_last();
        lemma_none_unused(rest);
        if unused(table) == 0 {
            assert forall|j: int| 0 <= j < table.len() implies (#[trigger] table[j]).used by {
                if j < table.len() - 1 {
                    assert(rest[j].used);
                }
            }
        }
        if forall|j: int| 0 <= j < table.len() ==> (#[trigger] table[j]).used {
            assert forall|j: int| 0 <= j < rest.len() implies (#[trigger] rest[j]).used by {
                assert(table[j].used);
            }
            assert(table[table.len() - 1].used);
        }
    }
}

proof fn lemma_marked_elsewhere(table: Seq<StoredPrekey>, id: i64)
    requires
        forall|j: int| 0 <= j < table.len() ==> (#[trigger] table[j]).row.id != id,
    ensures
        marked(table, Some(id)) == table,
{
    assert forall|j: int| 0 <= j < table.len() implies marked(table, Some(id))[j] == table[j] by {
        assert(table[j].row.id != id);
    }
    assert(marked(table, Some(id)) =~= table);
}

proof fn lemma_marking_uses_one(table: Seq<StoredPrekey>, j: int)
    requires
        have_own_rows(table),
        0 <= j < table.len(),
        !table[j].used,
    ensures
        unused(marked(table, Some(table[j].row.id))) + 1 == unused(table),
    decreases table.len(),
{
    let id = table[j].row.id;
    let after = marked(table, Some(id));
    let rest = table.drop_last();
    assert(after.drop_last() =~= marked(rest, Some(id)));
    assert forall|a: int, b: int| 0 <= a < b < rest.len() implies (#[trigger] rest[a]).row.id != (
    #[trigger] rest[b]).row.id by {
        assert(table[a].row.id != table[b].row.id);
    }
    if j < rest.len() {
        assert(rest[j] == table[j]);
        lemma_marking_uses_one(rest, j);
        assert(table[j].row.id != table[table.len() - 1].row.id);
    } else {
        assert forall|i: int| 0 <= i < rest.len() implies (#[trigger] rest[i]).row.id != id by {
            assert(table[i].row.id != table[j].row.id);
        }
        lemma_marked_elsewhere(rest, id);
    }
}

proof fn lemma_fetched_so_far(
    tables: Seq<Seq<StoredPrekey>>,
    offers: Seq<Option<PrekeyRow<BytesView>>>,
    bundles: Seq<db::HandedOut>,
    k: nat,
)
    requires
        are_fetched(tables, offers, bundles),
        have_own_rows(tables[0]),
        unused(tables[0]) == tables[0].len(),
        k <= offers.len(),
    ensures
        tables[k as int].len() == tables[0].len(),
        have_own_rows(tables[k as int]),
        forall|j: int|
            0 <= j < tables[0].len() ==> (#[trigger] tables[k as int][j]).row == tables[0][j].row,
        unused(tables[k as int]) == if k < tables[0].len() {
            (tables[0].len() - k) as nat
        } else {
            0
        },
        forall|i: int, j: int|
            #![trigger offers[i], tables[k as int][j]]
            0 <= i < k && 0 <= j < tables[0].len() && offers[i] == Some(tables[0][j].row)
                ==> tables[k as int][j].used,
    decreases k,
{
    if k > 0 {
        let last = k - 1;
        lemma_fetched_so_far(tables, offers, bundles, last as nat);
        let before = tables[last];
        let after = tables[k as int];
        let offer = offers[last];
        assert(is_offered(before, offer));
        assert(after == marked(before, bundles[last].2));
        assert(after.len() == before.len());
        assert forall|j: int| 0 <= j < after.len() implies (#[trigger] after[j]).row
            == tables[0][j].row by {
            assert(before[j].row == tables[0][j].row);
        }
        assert forall|a: int, b: int| 0 <= a < b < after.len() implies (#[trigger] after[a]).row.id
            != (#[trigger] after[b]).row.id by {
            assert(before[a].row.id != before[b].row.id);
        }
        lemma_none_unused(before);
        match offer {
            Some(p) => {
                let j = choose|j: int|
                    0 <= j < before.len() && !(#[trigger] before[j]).used && before[j].row == p;
                lemma_marking_uses_one(before, j);
            },
            None => {
                assert(after =~= before);
            },
        }
        assert forall|i: int, j: int|
            #![trigger offers[i], tables[k as int][j]]
            0 <= i < k && 0 <= j < tables[0].len() && offers[i] == Some(
                tables[0][j].row,
            ) implies tables[k as int][j].used by {
            assert(before[j].row == tables[0][j].row);
            if i < last {
                assert(before[j].used);
            }
        }
    }
}

/// A one-time prekey is handed out once. Of a user that registered with `n`
/// keys, each of the first `n` bundles holds one of these keys, with its index,
/// that no earlier bundle held; the bundles after that hold none.
pub proof fn law_prekey_is_handed_out_once(
    keys: Seq<BytesView>,
    tables: Seq<Seq<StoredPrekey>>,
    offers: Seq<Option<PrekeyRow<BytesView>>>,
    bundles: Seq<db::HandedOut>,
) -> (chosen: Seq<int>)
    requires
        keys.len() <= 0x1_0000_0000,
        is_fresh_table(tables[0], keys),
        are_fetched(tables, offers, bundles),
    ensures
        chosen.len() == bundles.len(),
        forall|k: int|
            0 <= k < bundles.len() && k < keys.len() ==> {
                &&& 0 <= #[trigger] chosen[k] < keys.len()
                &&& bundles[k].0 == Some(keys[chosen[k]])
                &&& bundles[k].1 matches Some(index) && index == chosen[k]
            },
        forall|k: int, l: int|
            0 <= k < l < bundles.len() && l < keys.len() ==> #[trigger] chosen[k]
                != #[trigger] chosen[l],
        forall|k: int|
            keys.len() <= k < bundles.len() ==> #[trigger] bundles[k] == (
                None::<BytesView>,
                None::<u32>,
                None::<i64>,
            ),
{
    let first = tables[0];
    lemma_all_unused(first);
    let chosen = Seq::new(
        bundles.len(),
        |k: int|
            choose|j: int|
                0 <= j < first.len() && !(#[trigger] tables[k][j]).used && offers[k] == Some(
                    first[j].row,
                ),
    );
    assert forall|k: int| 0 <= k < bundles.len() && k < keys.len() implies ({
        &&& 0 <= #[trigger] chosen[k] < keys.len()
        &&& bundles[k].0 == Some(keys[chosen[k]])
        &&& bundles[k].1 matches Some(index) && index == chosen[k]
        &&& !tables[k][chosen[k]].used
        &&& offers[k] == Some(first[chosen[k]].row)
    }) by {
        lemma_fetched_so_far(tables, offers, bundles, k as nat);
        lemma_none_unused(tables[k]);
        assert(is_offered(tables[k], offers[k]));
        let p = offers[k]->Some_0;
        let j = choose|j: int|
            0 <= j < tables[k].len() && !(#[trigger] tables[k][j]).used && tables[k][j].row == p;
        assert(tables[k][j].row == first[j].row);
        let c = chosen[k];
        assert(!first[c].used);
    }
    assert forall|k: int, l: int|
        0 <= k < l < bundles.len() && l < keys.len() implies #[trigger] chosen[k]
        != #[trigger] chosen[l] by {
        lemma_fetched_so_far(tables, offers, bundles, l as nat);
        assert(offers[k] == Some(first[chosen[k]].row));
        assert(tables[l][chosen[k]].used);
        assert(!tables[l][chosen[l]].used);
    }
    assert forall|k: int| keys.len() <= k < bundles.len() implies #[trigger] bundles[k] == (
        None::<BytesView>,
        None::<u32>,
        None::<i64>,
    ) by {
        lemma_fetched_so_far(tables, offers, bundles, k as nat);
        lemma_none_unused(tables[k]);
        assert(is_offered(tables[k], offers[k]));
    }
    chosen
}

} // verus!
