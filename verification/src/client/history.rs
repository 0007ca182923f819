//! Encrypted local history — opt-in, encrypted, purgeable.
//!
//! History is disabled by default; the user must opt in. When enabled,
//! messages are encrypted with XChaCha20-Poly1305 and kept in an append-only
//! local file: what a file holds is read before it is written again.

use vstd::prelude::*;

use crate::bytes;
use crate::clock;
use crate::codec;
use crate::crypto::identity;
use crate::crypto::primitives;
use crate::crypto::CryptoError;
use crate::text;

verus! {

/// The name of the file that history is kept in.
pub const HISTORY_FILE: &'static str = "history.enc";

#[derive(Debug, Clone)]
#[verifier::ext_equal]
pub struct HistoryEntry<T = String> {
    pub timestamp: i64,
    pub peer: T,
    pub direction: Direction,
    pub content: T,
}

#[derive(Debug, Clone, Copy, PartialEq, Eq, Structural)]
pub enum Direction {
    Sent,
    Received,
}

/// The view of a [`HistoryEntry`].
pub type EntryView = HistoryEntry<Seq<char>>;

impl View for HistoryEntry<String> {
    type V = HistoryEntry<Seq<char>>;

    open spec fn view(&self) -> HistoryEntry<Seq<char>> {
        HistoryEntry {
            timestamp: self.timestamp,
            peer: self.peer@,
            direction: self.direction,
            content: self.content@,
        }
    }
}

/// The views of a list of entries.
pub open spec fn entry_views(entries: Seq<HistoryEntry>) -> Seq<EntryView> {
    entries.map_values(|e: HistoryEntry| e@)
}

/// Local encrypted chat history store
#[derive(Debug)]
pub struct HistoryStore {
    entries: Vec<HistoryEntry>,
    /// What was found on disk and has not been read, as history was off
    unread: Option<Vec<u8>>,
    password: String,
    enabled: bool,
    dirty: bool,
}

/// The view of a [`HistoryStore`].
#[verifier::ext_equal]
pub ghost struct HistoryView {
    pub entries: Seq<EntryView>,
    pub unread: Option<Seq<u8>>,
    pub password: Seq<char>,
    pub enabled: bool,
    pub dirty: bool,
}

impl View for HistoryStore {
    type V = HistoryView;

    closed spec fn view(&self) -> HistoryView {
        HistoryView {
            entries: entry_views(self.entries@),
            unread: bytes::opt_bytes(self.unread),
            password: self.password@,
            enabled: self.enabled,
            dirty: self.dirty,
        }
    }
}

/// The store after a message at the time `now`: where history is on, one more
/// entry, and something to save.
pub open spec fn recorded(
    h: HistoryView,
    peer: Seq<char>,
    direction: Direction,
    content: Seq<char>,
    now: i64,
) -> HistoryView {
    if h.enabled {
        HistoryView {
            entries: h.entries.push(HistoryEntry { timestamp: now, peer, direction, content }),
            dirty: true,
            ..h
        }
    } else {
        h
    }
}

/// The store after a purge.
pub open spec fn purged(h: HistoryView) -> HistoryView {
    HistoryView { entries: seq![], unread: None, dirty: false, ..h }
}

// ── Rows ────────────────────────────────────────────────────

/// The number of a direction.
pub open spec fn direction_number(d: Direction) -> u32 {
    match d {
        Direction::Sent => 0,
        Direction::Received => 1,
    }
}

/// The row of an entry.
pub open spec fn entry_row(e: EntryView) -> codec::HistoryRowView {
    (e.timestamp, e.peer, direction_number(e.direction), e.content)
}

/// The entry of a row whose direction is known.
pub open spec fn row_entry(row: codec::HistoryRowView) -> EntryView {
    HistoryEntry {
        timestamp: row.0,
        peer: row.1,
        direction: if row.2 == 0 {
            Direction::Sent
        } else {
            Direction::Received
        },
        content: row.3,
    }
}

/// The entries of a list of rows, if every direction is known.
pub open spec fn entries_of(rows: Seq<codec::HistoryRowView>) -> Option<Seq<EntryView>> {
    if forall|i: int| 0 <= i < rows.len() ==> (#[trigger] rows[i]).2 < 2 {
        Some(rows.map_values(|r: codec::HistoryRowView| row_entry(r)))
    } else {
        None
    }
}

/// The rows that entries are written as.
pub open spec fn rows_of(entries: Seq<EntryView>) -> Seq<codec::HistoryRowView> {
    entries.map_values(|e: EntryView| entry_row(e))
}

/// The entries that a password reads from bytes.
pub open spec fn entries_in(password: Seq<char>, data: Seq<u8>) -> Option<Seq<EntryView>> {
    match identity::blob_opened(password, data) {
        Ok(plaintext) => match codec::history_read(plaintext) {
            Some(rows) => entries_of(rows),
            None => None,
        },
        Err(_) => None,
    }
}

/// The entries of what was found on disk; what cannot be read counts as
/// nothing.
pub open spec fn earlier_entries(password: Seq<char>, data: Option<Seq<u8>>) -> Seq<EntryView> {
    match data {
        Some(d) => match entries_in(password, d) {
            Some(entries) => entries,
            None => seq![],
        },
        None => seq![],
    }
}

/// All the history that a store stands for: what is still unread, then what
/// has been read or recorded.
pub open spec fn whole(h: HistoryView) -> Seq<EntryView> {
    earlier_entries(h.password, h.unread) + h.entries
}

/// The store that is made of what was found on disk.
pub open spec fn opened(data: Option<Seq<u8>>, password: Seq<char>, enabled: bool) -> HistoryView {
    HistoryView {
        entries: if enabled {
            earlier_entries(password, data)
        } else {
            seq![]
        },
        unread: if enabled {
            None
        } else {
            data
        },
        password,
        enabled,
        dirty: false,
    }
}

/// The store with history switched on: what was unread is read, and stands in
/// front of the rest.
pub open spec fn switched_on(h: HistoryView) -> HistoryView {
    HistoryView { entries: whole(h), unread: None, enabled: true, ..h }
}

/// The store with history switched off.
pub open spec fn switched_off(h: HistoryView) -> HistoryView {
    HistoryView { enabled: false, ..h }
}

proof fn lemma_rows_are_read_back(entries: Seq<EntryView>)
    ensures
        entries_of(rows_of(entries)) == Some(entries),
{
    let rows = rows_of(entries);
    assert forall|i: int| 0 <= i < rows.len() implies (#[trigger] rows[i]).2 < 2 by {
        assert(rows[i] == entry_row(entries[i]));
    }
    assert(rows.map_values(|r: codec::HistoryRowView| row_entry(r)) =~= entries) by {
        assert forall|i: int| 0 <= i < entries.len() implies row_entry(rows[i])
            == #[trigger] entries[i] by {
            assert(rows[i] == entry_row(entries[i]));
        }
    }
}

fn to_rows(entries: &Vec<HistoryEntry>) -> (rows: Vec<codec::HistoryRow>)
    ensures
        codec::history_rows(rows@) == rows_of(entry_views(entries@)),
{
    let mut rows: Vec<codec::HistoryRow> = Vec::new();
    let n: usize = entries.len();
    for i in 0..n
        invariant
            n == entries@.len(),
            rows@.len() == i,
            forall|j: int|
                0 <= j < i ==> (#[trigger] codec::history_rows(rows@)[j]) == entry_row(
                    entries@[j]@,
                ),
    {
        let ghost before = rows@;
        let e = &entries[i];
        let number: u32 = match e.direction {
            Direction::Sent => 0,
            Direction::Received => 1,
        };
        rows.push((e.timestamp, e.peer.clone(), number, e.content.clone()));
        assert forall|j: int| 0 <= j < i + 1 implies (#[trigger] codec::history_rows(rows@)[j])
            == entry_row(entries@[j]@) by {
            if j < i {
                assert(codec::history_rows(before)[j] == entry_row(entries@[j]@));
            }
        }
    }
    assert(codec::history_rows(rows@) =~= rows_of(entry_views(entries@)));
    rows
}

fn from_rows(rows: Vec<codec::HistoryRow>) -> (r: Option<Vec<HistoryEntry>>)
    ensures
        match r {
            Some(entries) => entries_of(codec::history_rows(rows@)) == Some(
                entry_views(entries@),
            ),
            None => entries_of(codec::history_rows(rows@)) is None,
        },
{
    let ghost all = codec::history_rows(rows@);
    let mut out: Vec<HistoryEntry> = Vec::new();
    for row in it: rows
        invariant
            it.seq() == rows@,
            all == codec::history_rows(rows@),
            out@.len() == it.index(),
            forall|j: int| 0 <= j < it.index() ==> (#[trigger] all[j]).2 < 2,
            forall|j: int| 0 <= j < it.index() ==> (#[trigger] out@[j])@ == row_entry(all[j]),
    {
        let (timestamp, peer, number, content) = row;
        assert(all[it.index()] == (timestamp, peer@, number, content@));
        if number >= 2 {
            return None;
        }
        let direction = if number == 0 {
            Direction::Sent
        } else {
            Direction::Received
        };
        out.push(HistoryEntry { timestamp, peer, direction, content });
    }
    assert(entry_views(out@) =~= all.map_values(|r: codec::HistoryRowView| row_entry(r)));
    Some(out)
}

fn load(data: &[u8], password: &str) -> (r: Option<Vec<HistoryEntry>>)
    ensures
        match r {
            Some(entries) => entries_in(password@, data@) == Some(entry_views(entries@)),
            None => entries_in(password@, data@) is None,
        },
{
    let plaintext = match identity::decrypt_blob(password, data) {
        Ok(p) => p,
        Err(_) => return None,
    };
    match codec::read_history(plaintext.as_slice()) {
        Ok(rows) => from_rows(rows),
        Err(_) => None,
    }
}

// ── The store ───────────────────────────────────────────────

impl HistoryStore {
    /// Create a new history store. `stored` is what was found on disk, if
    /// anything. Where history is off it is kept unread until history is
    /// switched on.
    pub fn new(stored: Option<Vec<u8>>, password: String, enabled: bool) -> (r: HistoryStore)
        ensures
            r@ == opened(bytes::opt_bytes(stored), password@, enabled),
    {
        let mut r = HistoryStore {
            entries: Vec::new(),
            unread: stored,
            password,
            enabled: false,
            dirty: false,
        };
        assert(r@.entries =~= seq![]);
        if enabled {
            r.enable();
            assert(r@.entries =~= earlier_entries(password@, bytes::opt_bytes(stored)));
        }
        r
    }

    /// Check if history is enabled
    pub fn is_enabled(&self) -> (r: bool)
        ensures
            r == self@.enabled,
    {
        self.enabled
    }

    /// Enable history. What was found on disk is read now, if it has not been
    /// read before.
    pub fn enable(&mut self)
        ensures
            final(self)@ == switched_on(old(self)@),
    {
        let found = match &self.unread {
            Some(data) => load(data.as_slice(), self.password.as_str()),
            None => None,
        };
        if let Some(earlier) = found {
            let mut all = earlier;
            all.append(&mut self.entries);
            self.entries = all;
        }
        self.unread = None;
        self.enabled = true;
        assert(self@.entries =~= whole(old(self)@));
    }

    /// Disable history (does NOT purge existing)
    pub fn disable(&mut self)
        ensures
            final(self)@ == switched_off(old(self)@),
    {
        self.enabled = false;
    }

    /// Add a message to history, at the present time
    pub fn add(&mut self, peer: &str, direction: Direction, content: &str)
        ensures
            exists|now: i64|
                final(self)@ == #[trigger] recorded(old(self)@, peer@, direction, content@, now),
    {
        let now: i64 = clock::utc_timestamp();
        self.add_at(peer, direction, content, now);
    }

    /// Add a message to history, at the time `now`
    pub fn add_at(&mut self, peer: &str, direction: Direction, content: &str, now: i64)
        ensures
            final(self)@ == recorded(old(self)@, peer@, direction, content@, now),
    {
        if !self.enabled {
            return;
        }
        self.entries.push(
            HistoryEntry {
                timestamp: now,
                peer: peer.to_owned(),
                direction,
                content: content.to_owned(),
            },
        );
        self.dirty = true;
        assert(self@.entries =~= recorded(old(self)@, peer@, direction, content@, now).entries);
    }

    /// Get history for a specific peer
    pub fn get_peer_history(&self, peer: &str) -> (r: Vec<&HistoryEntry>)
        ensures
            r@.map_values(|e: &HistoryEntry| e@) == self@.entries.filter(
                |e: EntryView| e.peer == peer@,
            ),
    {
        let mut out: Vec<&HistoryEntry> = Vec::new();
        let n: usize = self.entries.len();
        let ghost keep = |e: EntryView| e.peer == peer@;
        assert(out@.map_values(|e: &HistoryEntry| e@) =~= self@.entries.take(0).filter(keep)) by {
            reveal(Seq::filter);
        }
        for i in 0..n
            invariant
                n == self.entries@.len(),
                n == self@.entries.len(),
                keep == (|e: EntryView| e.peer == peer@),
                out@.map_values(|e: &HistoryEntry| e@) == self@.entries.take(i as int).filter(keep),
        {
            let ghost before = out@;
            let e = &self.entries[i];
            proof {
                reveal(Seq::filter);
                let prefix = self@.entries.take(i + 1);
                assert(prefix.drop_last() =~= self@.entries.take(i as int));
                assert(prefix.last() == e@);
            }
            if text::same_text(e.peer.as_str(), peer) {
                out.push(e);
                assert(out@.map_values(|e: &HistoryEntry| e@) =~= before.map_values(
                    |e: &HistoryEntry| e@,
                ).push(e@));
            }
        }
        assert(self@.entries.take(n as int) =~= self@.entries);
        out
    }

    /// Get all history
    pub fn all(&self) -> (r: &[HistoryEntry])
        ensures
            entry_views(r@) == self@.entries,
    {
        self.entries.as_slice()
    }

    /// Whether there is anything to save.
    pub fn needs_saving(&self) -> (r: bool)
        ensures
            r == (self@.enabled && self@.dirty),
    {
        self.enabled && self.dirty
    }

    /// The bytes to keep the history in, encrypted, if there is anything to
    /// save. A store with the same password reads it back.
    pub fn save(&self) -> (r: Result<Option<Vec<u8>>, CryptoError>)
        ensures
            ({
                let written = codec::history_written(rows_of(self@.entries));
                let due = self@.enabled && self@.dirty;
                match r {
                    Ok(None) => !due,
                    Ok(Some(data)) => {
                        &&& due && identity::usable_password(self@.password) && written.len()
                            <= primitives::MAX_PLAINTEXT
                        &&& data@ == identity::blob(
                            self@.password,
                            data@.take(16),
                            data@.subrange(16, 40),
                            written,
                        )
                        &&& entries_in(self@.password, data@) == Some(self@.entries)
                    },
                    Err(e) => {
                        ||| due && !identity::usable_password(self@.password) && e
                            == CryptoError::PasswordTooLong
                        ||| due && identity::usable_password(self@.password) && written.len()
                            > primitives::MAX_PLAINTEXT && e == CryptoError::BlobTooLong
                    },
                }
            }),
    {
        if !self.enabled || !self.dirty {
            return Ok(None);
        }
        let rows = to_rows(&self.entries);
        proof {
            lemma_rows_are_read_back(self@.entries);
        }
        let data = codec::write_history(&rows);
        match identity::encrypt_blob(self.password.as_str(), data.as_slice()) {
            Ok(blob) => Ok(Some(blob)),
            Err(e) => Err(e),
        }
    }

    /// The bytes have been written: there is nothing to save any more.
    pub fn mark_saved(&mut self)
        ensures
            final(self)@ == (HistoryView { dirty: false, ..old(self)@ }),
    {
        self.dirty = false;
    }

    /// Forgets all history. What is on disk has to be overwritten and deleted.
    pub fn purge(&mut self)
        ensures
            final(self)@ == purged(old(self)@),
    {
        self.entries = Vec::new();
        self.unread = None;
        self.dirty = false;
        assert(self@.entries =~= seq![]);
    }

    /// Whether a text is the password of the store.
    pub fn is_password(&self, password: &str) -> (r: bool)
        ensures
            r == (password@ == self@.password),
    {
        text::same_text(self.password.as_str(), password)
    }

    /// Get the default history file path
    pub fn default_path(data_dir: &str) -> (r: String)
        ensures
            r@ == text::path_in(data_dir@, HISTORY_FILE@),
    {
        text::join_path(data_dir, HISTORY_FILE)
    }
}

// ── Laws ────────────────────────────────────────────────────

/// Without the user's consent nothing is recorded.
pub proof fn law_disabled_history_records_nothing(
    h: HistoryView,
    peer: Seq<char>,
    direction: Direction,
    content: Seq<char>,
    now: i64,
)
    requires
        !h.enabled,
    ensures
        recorded(h, peer, direction, content, now) == h,
{
}

/// A store that records has read all that was found on disk.
pub open spec fn up_to_date(h: HistoryView) -> bool {
    h.enabled ==> h.unread is None
}

/// History is append-only. Whether it was on or off when the store was made,
/// what was found on disk stays at the front: switching it on or off loses
/// nothing, a message is added at the end, and what is saved is the whole.
pub proof fn law_history_is_append_only(
    data: Option<Seq<u8>>,
    password: Seq<char>,
    enabled: bool,
    h: HistoryView,
    peer: Seq<char>,
    direction: Direction,
    content: Seq<char>,
    now: i64,
)
    requires
        up_to_date(h),
    ensures
        up_to_date(opened(data, password, enabled)),
        whole(opened(data, password, enabled)) == earlier_entries(password, data),
        up_to_date(switched_on(h)) && whole(switched_on(h)) == whole(h),
        up_to_date(switched_off(h)) && whole(switched_off(h)) == whole(h),
        up_to_date(recorded(h, peer, direction, content, now)),
        h.enabled ==> whole(recorded(h, peer, direction, content, now)) == whole(h).push(
            HistoryEntry { timestamp: now, peer, direction, content },
        ),
        h.enabled ==> whole(h) == h.entries,
{
    let none = Seq::<EntryView>::empty();
    let made = opened(data, password, enabled);
    assert(whole(made) =~= earlier_entries(password, data));
    assert(whole(switched_on(h)) =~= whole(h));
    assert(none + h.entries =~= h.entries);
    let entry = HistoryEntry { timestamp: now, peer, direction, content };
    assert(none + h.entries.push(entry) =~= (none + h.entries).push(entry));
}

/// What a store writes is what the next one reads: after it has been saved, a
/// store that is made of the bytes stands for the same history.
pub proof fn law_saved_history_is_found_again(h: HistoryView, data: Seq<u8>, enabled: bool)
    requires
        h.enabled && up_to_date(h),
        entries_in(h.password, data) == Some(h.entries),
    ensures
        whole(opened(Some(data), h.password, enabled)) == whole(h),
{
    assert(whole(opened(Some(data), h.password, enabled)) =~= h.entries);
    assert(whole(h) =~= h.entries);
}

/// A purge leaves nothing behind, and nothing to save.
pub proof fn law_purge_leaves_nothing(h: HistoryView)
    ensures
        whole(purged(h)).len() == 0,
        !purged(h).dirty,
        purged(h).enabled == h.enabled,
{
}

/// Where history is on, a message is recorded as it was: at the end, with its
/// peer, its direction, its words and its time; and there is something to save.
/// Nothing that was recorded before changes.
pub proof fn law_message_is_recorded_as_it_was(
    h: HistoryView,
    peer: Seq<char>,
    direction: Direction,
    content: Seq<char>,
    now: i64,
)
    requires
        h.enabled,
    ensures
        ({
            let after = recorded(h, peer, direction, content, now);
            &&& after.entries.len() == h.entries.len() + 1
            &&& after.entries.drop_last() == h.entries
            &&& after.entries.last().peer == peer && after.entries.last().direction == direction
            &&& after.entries.last().content == content && after.entries.last().timestamp == now
            &&& after.dirty
            &&& after == (HistoryView { entries: after.entries, dirty: true, ..h })
        }),
{
    assert(recorded(h, peer, direction, content, now).entries.drop_last() =~= h.entries);
}

/// Switching history on makes it record, and switching it off makes it stop;
/// neither touches the password, nor whether there is something to save. What
/// was off stays as it is, and what was on has read what was on disk.
pub proof fn law_switch_is_a_switch(h: HistoryView)
    ensures
        switched_on(h).enabled,
        !switched_off(h).enabled,
        switched_on(h).password == h.password && switched_off(h).password == h.password,
        switched_on(h).dirty == h.dirty && switched_off(h).dirty == h.dirty,
        switched_off(h).entries == h.entries && switched_off(h).unread == h.unread,
        switched_on(h).unread is None,
        switched_on(h).entries == earlier_entries(h.password, h.unread) + h.entries,
{
}

/// Whatever happens to messages between switching history off and on again,
/// nothing of it is recorded.
pub proof fn law_nothing_is_recorded_while_off(
    h: HistoryView,
    peer: Seq<char>,
    direction: Direction,
    content: Seq<char>,
    now: i64,
)
    ensures
        recorded(switched_off(h), peer, direction, content, now) == switched_off(h),
        up_to_date(h) ==> whole(
            switched_on(recorded(switched_off(h), peer, direction, content, now)),
        ) == whole(h),
{
    assert(whole(switched_on(switched_off(h))) =~= whole(h));
}

/// History is off unless it was asked for: a store that is made without consent
/// records nothing and has read nothing; one that is made with it has read what
/// was found.
pub proof fn law_store_is_made_as_asked(
    data: Option<Seq<u8>>,
    password: Seq<char>,
    enabled: bool,
)
    ensures
        opened(data, password, enabled).enabled == enabled,
        opened(data, password, enabled).password == password,
        !opened(data, password, enabled).dirty,
        !enabled ==> opened(data, password, enabled).entries.len() == 0 && opened(
            data,
            password,
            enabled,
        ).unread == data,
        enabled ==> opened(data, password, enabled).entries == earlier_entries(password, data)
            && opened(data, password, enabled).unread is None,
{
}

/// What was found on disk is what the password reads there; where it reads
/// nothing, there is nothing.
pub proof fn law_found_entries_are_those_of_the_password(password: Seq<char>, data: Seq<u8>)
    ensures
        entries_in(password, data) matches Some(e) ==> earlier_entries(password, Some(data)) == e,
        entries_in(password, data) is None ==> earlier_entries(password, Some(data)).len() == 0,
        earlier_entries(password, None).len() == 0,
        identity::blob_opened(password, data) is Err ==> entries_in(password, data) is None,
{
}

/// An entry is written and read back field by field, sent as sent and received
/// as received.
pub proof fn law_entry_survives_its_row(e: EntryView)
    ensures
        row_entry(entry_row(e)) == e,
        entry_row(e).2 < 2,
        entries_of(seq![entry_row(e)]) == Some(seq![e]),
{
    assert(seq![e].map_values(|x: EntryView| entry_row(x)) =~= seq![entry_row(e)]);
    lemma_rows_are_read_back(seq![e]);
}

/// A row with an unknown direction makes the whole unreadable, and with known
/// ones each row is an entry.
pub proof fn law_unknown_direction_is_refused(rows: Seq<codec::HistoryRowView>, i: int)
    requires
        0 <= i < rows.len(),
    ensures
        rows[i].2 >= 2 ==> entries_of(rows) is None,
        entries_of(rows) matches Some(e) ==> e.len() == rows.len() && e[i].timestamp == rows[i].0
            && e[i].peer == rows[i].1 && e[i].content == rows[i].3 && (e[i].direction
            == Direction::Sent <==> rows[i].2 == 0),
{
}

} // verus!
