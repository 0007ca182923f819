//! The bytes that stores are kept in, as the crate bincode writes them.
//!
//! A struct is written as its fields in a row, a map as its pairs in a row, a
//! variant without fields as its number; so the rows here are tuples of plain
//! values. Which bytes come out is not said; what is claimed is that reading
//! gives back what was written.

use vstd::prelude::*;

use crate::bytes;
use crate::text;

verus! {

// ── Identity ────────────────────────────────────────────────

/// The bytes of an identity: signing key, signed prekey, one-time prekeys, and
/// the next index.
pub uninterp spec fn identity_written(
    signing_key: Seq<u8>,
    signed_prekey: Seq<u8>,
    one_time_prekeys: Seq<Seq<u8>>,
    next_index: u32,
) -> Seq<u8>;

/// The identity that is read from bytes.
pub uninterp spec fn identity_read(data: Seq<u8>) -> Option<
    (Seq<u8>, Seq<u8>, Seq<Seq<u8>>, u32),
>;

/// `bincode::serialize` for an identity. It has no size limit and does not
/// fail on byte strings and numbers; `bincode::deserialize` reads the same
/// values back.
#[verifier::external_body]
pub(crate) fn write_identity(
    signing_key: &Vec<u8>,
    signed_prekey: &Vec<u8>,
    one_time_prekeys: &Vec<Vec<u8>>,
    next_index: u32,
) -> (r: Vec<u8>)
    ensures
        r@ == identity_written(
            signing_key@,
            signed_prekey@,
            bytes::keys_view(one_time_prekeys@),
            next_index,
        ),
        identity_read(r@) == Some(
            (signing_key@, signed_prekey@, bytes::keys_view(one_time_prekeys@), next_index),
        ),
{
    bincode::serialize(&(signing_key, signed_prekey, one_time_prekeys, next_index)).unwrap()
}

/// `bincode::deserialize` for an identity.
#[verifier::external_body]
pub(crate) fn read_identity(data: &[u8]) -> (r: Option<(Vec<u8>, Vec<u8>, Vec<Vec<u8>>, u32)>)
    ensures
        match r {
            Some(i) => identity_read(data@) == Some((i.0@, i.1@, bytes::keys_view(i.2@), i.3)),
            None => identity_read(data@) is None,
        },
{
    bincode::deserialize(data).ok()
}

// ── Sessions ────────────────────────────────────────────────

/// A session: the peer, the chain key and counter of either direction, and
/// whether it is established.
pub type SessionRow = (String, Vec<u8>, u32, Vec<u8>, u32, bool);

pub type SessionRowView = (Seq<char>, Seq<u8>, u32, Seq<u8>, u32, bool);

pub open spec fn session_rows(rows: Seq<SessionRow>) -> Seq<SessionRowView> {
    rows.map_values(|r: SessionRow| (r.0@, r.1@, r.2, r.3@, r.4, r.5))
}

/// The bytes of a list of sessions and a version number.
pub uninterp spec fn sessions_written(
    rows: Seq<(Seq<char>, Seq<u8>, u32, Seq<u8>, u32, bool)>,
    version: u32,
) -> Seq<u8>;

/// The sessions and the version number that are read from bytes.
pub uninterp spec fn sessions_read(data: Seq<u8>) -> Option<
    (Seq<(Seq<char>, Seq<u8>, u32, Seq<u8>, u32, bool)>, u32),
>;

/// `bincode::serialize` for sessions. It has no size limit and does not fail
/// on such values; `bincode::deserialize` reads the same values back.
#[verifier::external_body]
pub(crate) fn write_sessions(rows: &Vec<SessionRow>, version: u32) -> (r: Vec<u8>)
    ensures
        r@ == sessions_written(session_rows(rows@), version),
        sessions_read(r@) == Some((session_rows(rows@), version)),
{
    bincode::serialize(&(rows, version)).unwrap()
}

/// `bincode::deserialize` for sessions. Nothing is claimed of the text of an
/// error.
#[verifier::external_body]
pub(crate) fn read_sessions(data: &[u8]) -> (r: Result<(Vec<SessionRow>, u32), String>)
    ensures
        match r {
            Ok(s) => sessions_read(data@) == Some((session_rows(s.0@), s.1)),
            Err(_) => sessions_read(data@) is None,
        },
{
    bincode::deserialize(data).map_err(|e| e.to_string())
}

// ── Contacts ────────────────────────────────────────────────

/// A contact: the name that it is listed under, its own name, identity key,
/// whether it is verified, and its alias.
pub type ContactRow = (String, String, Option<Vec<u8>>, bool, Option<String>);

pub type ContactRowView = (Seq<char>, Seq<char>, Option<Seq<u8>>, bool, Option<Seq<char>>);

pub open spec fn contact_rows(rows: Seq<ContactRow>) -> Seq<ContactRowView> {
    rows.map_values(
        |r: ContactRow| (r.0@, r.1@, bytes::opt_bytes(r.2), r.3, text::opt_text(r.4)),
    )
}

/// The bytes of a list of contacts.
pub uninterp spec fn contacts_written(
    rows: Seq<(Seq<char>, Seq<char>, Option<Seq<u8>>, bool, Option<Seq<char>>)>,
) -> Seq<u8>;

/// The contacts that are read from bytes.
pub uninterp spec fn contacts_read(data: Seq<u8>) -> Option<
    Seq<(Seq<char>, Seq<char>, Option<Seq<u8>>, bool, Option<Seq<char>>)>,
>;

/// `bincode::serialize` for contacts. It has no size limit and does not fail on
/// such values; `bincode::deserialize` reads the same values back.
#[verifier::external_body]
pub(crate) fn write_contacts(rows: &Vec<ContactRow>) -> (r: Vec<u8>)
    ensures
        r@ == contacts_written(contact_rows(rows@)),
        contacts_read(r@) == Some(contact_rows(rows@)),
{
    bincode::serialize(rows).unwrap()
}

/// `bincode::deserialize` for contacts. Nothing is claimed of the text of an
/// error.
#[verifier::external_body]
pub(crate) fn read_contacts(data: &[u8]) -> (r: Result<Vec<ContactRow>, String>)
    ensures
        match r {
            Ok(rows) => contacts_read(data@) == Some(contact_rows(rows@)),
            Err(_) => contacts_read(data@) is None,
        },
{
    bincode::deserialize(data).map_err(|e| e.to_string())
}

// ── History ─────────────────────────────────────────────────

/// A line of history: the time, the peer, the number of the direction, and the
/// text.
pub type HistoryRow = (i64, String, u32, String);

pub type HistoryRowView = (i64, Seq<char>, u32, Seq<char>);

pub open spec fn history_rows(rows: Seq<HistoryRow>) -> Seq<HistoryRowView> {
    rows.map_values(|r: HistoryRow| (r.0, r.1@, r.2, r.3@))
}

/// The bytes of a list of history lines.
pub uninterp spec fn history_written(rows: Seq<(i64, Seq<char>, u32, Seq<char>)>) -> Seq<u8>;

/// The history lines that are read from bytes.
pub uninterp spec fn history_read(data: Seq<u8>) -> Option<
    Seq<(i64, Seq<char>, u32, Seq<char>)>,
>;

/// `bincode::serialize` for history lines. It has no size limit and does not
/// fail on such values; `bincode::deserialize` reads the same values back.
#[verifier::external_body]
pub(crate) fn write_history(rows: &Vec<HistoryRow>) -> (r: Vec<u8>)
    ensures
        r@ == history_written(history_rows(rows@)),
        history_read(r@) == Some(history_rows(rows@)),
{
    bincode::serialize(rows).unwrap()
}

/// `bincode::deserialize` for history lines. Nothing is claimed of the text of
/// an error.
#[verifier::external_body]
pub(crate) fn read_history(data: &[u8]) -> (r: Result<Vec<HistoryRow>, String>)
    ensures
        match r {
            Ok(rows) => history_read(data@) == Some(history_rows(rows@)),
            Err(_) => history_read(data@) is None,
        },
{
    bincode::deserialize(data).map_err(|e| e.to_string())
}

} // verus!
