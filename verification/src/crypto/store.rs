//! Encrypted session store — persists ratchet state.

use vstd::prelude::*;

use crate::codec;
use crate::crypto::identity;
use crate::crypto::primitives;
use crate::crypto::ratchet::{ChainView, RatchetState, SessionRatchet, SessionView};
use crate::crypto::CryptoError;
use crate::text;
use crate::textmap;
use crate::textmap::TextMap;

verus! {

/// The name of the file that sessions are kept in.
pub const SESSIONS_FILE: &'static str = "sessions.enc";

/// Persistent encrypted session store
#[derive(Debug)]
pub struct SessionStore {
    /// Map of peer username → session ratchet state
    sessions: TextMap<SessionRatchet>,
    /// Store version for migration support
    version: u32,
}

/// The sessions of a store, by peer.
pub open spec fn session_views(m: Map<Seq<char>, SessionRatchet>) -> Map<Seq<char>, SessionView> {
    m.map_values(|s: SessionRatchet| s@)
}

impl View for SessionStore {
    type V = Map<Seq<char>, SessionView>;

    closed spec fn view(&self) -> Map<Seq<char>, SessionView> {
        session_views(self.sessions@)
    }
}

/// The row of a session.
pub open spec fn session_row(peer: Seq<char>, s: SessionView) -> codec::SessionRowView {
    (
        peer,
        s.send.chain_key,
        s.send.counter,
        s.recv.chain_key,
        s.recv.counter,
        s.established,
    )
}

/// The peer and the session of a row.
pub open spec fn row_session(row: codec::SessionRowView) -> (Seq<char>, SessionView) {
    (
        row.0,
        SessionView {
            send: ChainView { chain_key: row.1, counter: row.2 },
            recv: ChainView { chain_key: row.3, counter: row.4 },
            established: row.5,
        },
    )
}

/// The sessions of a list of rows.
pub open spec fn sessions_of(rows: Seq<codec::SessionRowView>) -> Map<Seq<char>, SessionView> {
    textmap::collect(rows.map_values(|r: codec::SessionRowView| row_session(r)))
}

/// The sessions and the version that a password reads from bytes.
pub open spec fn store_in(password: Seq<char>, data: Seq<u8>) -> Option<
    (Map<Seq<char>, SessionView>, u32),
> {
    match identity::blob_opened(password, data) {
        Ok(plaintext) => match codec::sessions_read(plaintext) {
            Some(s) => Some((sessions_of(s.0), s.1)),
            None => None,
        },
        Err(_) => None,
    }
}

impl SessionStore {
    /// The rows that the store is written as.
    pub closed spec fn rows(&self) -> Seq<codec::SessionRowView> {
        self.sessions.listed().map_values(|k: Seq<char>| session_row(k, self@[k]))
    }

    /// The version of the store.
    pub closed spec fn version_number(&self) -> u32 {
        self.version
    }

    pub fn new() -> (r: SessionStore)
        ensures
            r@ == Map::<Seq<char>, SessionView>::empty(),
            r.version_number() == 1,
    {
        let r = SessionStore { sessions: TextMap::new(), version: 1 };
        assert(r@ =~= Map::<Seq<char>, SessionView>::empty());
        r
    }

    /// Get a mutable reference to a session
    pub fn get_session_mut(&mut self, peer: &str) -> (r: Option<&mut SessionRatchet>)
        ensures
            match r {
                Some(s) => old(self)@.contains_key(peer@) && s@ == old(self)@[peer@]
                    && final(self)@ == old(self)@.insert(peer@, final(s)@),
                None => !old(self)@.contains_key(peer@) && final(self)@ == old(self)@,
            },
            final(self).version_number() == old(self).version_number(),
    {
        self.sessions.get_mut(peer)
    }

    /// Get an immutable reference
    pub fn get_session(&self, peer: &str) -> (r: Option<&SessionRatchet>)
        ensures
            match r {
                Some(s) => self@.contains_key(peer@) && s@ == self@[peer@],
                None => !self@.contains_key(peer@),
            },
    {
        self.sessions.get(peer)
    }

    /// Insert or replace a session
    pub fn put_session(&mut self, peer: String, session: SessionRatchet)
        ensures
            final(self)@ == old(self)@.insert(peer@, session@),
            final(self).version_number() == old(self).version_number(),
    {
        self.sessions.insert(peer, session);
        assert(self@ =~= old(self)@.insert(peer@, session@));
    }

    /// Remove a session
    pub fn remove_session(&mut self, peer: &str) -> (r: Option<SessionRatchet>)
        ensures
            match r {
                Some(s) => old(self)@.contains_key(peer@) && s@ == old(self)@[peer@],
                None => !old(self)@.contains_key(peer@),
            },
            final(self)@ == old(self)@.remove(peer@),
            final(self).version_number() == old(self).version_number(),
    {
        let r = self.sessions.remove(peer);
        assert(self@ =~= old(self)@.remove(peer@));
        r
    }

    /// Check if a session exists
    pub fn has_session(&self, peer: &str) -> (r: bool)
        ensures
            r == self@.contains_key(peer@),
    {
        self.sessions.contains_key(peer)
    }

    /// List all peers with sessions
    pub fn peers(&self) -> (r: Vec<String>)
        ensures
            textmap::distinct(r@),
            forall|peer: Seq<char>| #[trigger]
                self@.contains_key(peer) <==> exists|i: int| #[trigger] textmap::is_at(r@, peer, i),
    {
        let r = self.sessions.names();
        assert forall|peer: Seq<char>| #[trigger]
            self@.contains_key(peer) <==> exists|i: int| #[trigger] textmap::is_at(
                r@,
                peer,
                i,
            ) by {
            assert(self@.contains_key(peer) == self.sessions@.contains_key(peer));
        }
        r
    }

    /// How many sessions there are.
    pub fn count(&self) -> (r: usize)
        ensures
            r == self@.dom().len(),
    {
        assert(self@.dom() =~= self.sessions@.dom());
        self.sessions.len()
    }

    fn to_rows(&self) -> (rows: Vec<codec::SessionRow>)
        ensures
            codec::session_rows(rows@) == self.rows(),
            sessions_of(self.rows()) == self@,
    {
        let mut rows: Vec<codec::SessionRow> = Vec::new();
        let n: usize = self.sessions.len();
        for i in 0..n
            invariant
                n == self.sessions.listed().len(),
                rows@.len() == i,
                forall|j: int|
                    0 <= j < i ==> (#[trigger] codec::session_rows(rows@)[j]) == self.rows()[j],
        {
            let ghost before = rows@;
            let (peer, s) = self.sessions.at(i);
            rows.push(
                (
                    peer.clone(),
                    s.send_chain.chain_key().clone(),
                    s.send_chain.counter(),
                    s.recv_chain.chain_key().clone(),
                    s.recv_chain.counter(),
                    s.established,
                ),
            );
            assert forall|j: int| 0 <= j < i + 1 implies (#[trigger] codec::session_rows(rows@)[j])
                == self.rows()[j] by {
                if j < i {
                    assert(codec::session_rows(before)[j] == self.rows()[j]);
                } else {
                    assert(self@[peer@] == s@);
                }
            }
        }
        proof {
            assert(codec::session_rows(rows@) =~= self.rows());
            self.sessions.lemma_listed();
            let names = self.sessions.listed();
            assert(self.rows().map_values(|r: codec::SessionRowView| row_session(r))
                =~= textmap::pairs_of(names, self@));
            textmap::lemma_collect_pairs(names, self@);
        }
        rows
    }

    fn from_rows(rows: Vec<codec::SessionRow>, version: u32) -> (r: SessionStore)
        ensures
            r@ == sessions_of(codec::session_rows(rows@)),
            r.version_number() == version,
    {
        let ghost pairs = codec::session_rows(rows@).map_values(
            |r: codec::SessionRowView| row_session(r),
        );
        let mut store = SessionStore { sessions: TextMap::new(), version };
        assert(store@ =~= textmap::collect(pairs.take(0)));
        for row in it: rows
            invariant
                it.seq() == rows@,
                pairs == codec::session_rows(rows@).map_values(
                    |r: codec::SessionRowView| row_session(r),
                ),
                store@ == textmap::collect(pairs.take(it.index())),
                store.version_number() == version,
        {
            proof {
                textmap::lemma_collect_step(pairs, it.index());
            }
            let (peer, send_key, send_count, recv_key, recv_count, established) = row;
            let session = SessionRatchet {
                send_chain: RatchetState::from_parts(send_key, send_count),
                recv_chain: RatchetState::from_parts(recv_key, recv_count),
                established,
            };
            assert(pairs[it.index()] == (peer@, session@));
            store.put_session(peer, session);
        }
        assert(pairs.take(pairs.len() as int) =~= pairs);
        store
    }

    /// The bytes to keep the store in, encrypted. The same password loads it
    /// again.
    pub fn save(&self, password: &str) -> (r: Result<Vec<u8>, CryptoError>)
        ensures
            ({
                let written = codec::sessions_written(self.rows(), self.version_number());
                match r {
                    Ok(data) => {
                        &&& identity::usable_password(password@) && written.len()
                            <= primitives::MAX_PLAINTEXT
                        &&& data@ == identity::blob(
                            password@,
                            data@.take(16),
                            data@.subrange(16, 40),
                            written,
                        )
                        &&& store_in(password@, data@) == Some((self@, self.version_number()))
                    },
                    Err(e) => {
                        ||| !identity::usable_password(password@) && e
                            == CryptoError::PasswordTooLong
                        ||| identity::usable_password(password@) && written.len()
                            > primitives::MAX_PLAINTEXT && e == CryptoError::BlobTooLong
                    },
                }
            }),
    {
        let rows = self.to_rows();
        let data = codec::write_sessions(&rows, self.version);
        identity::encrypt_blob(password, data.as_slice())
    }

    /// Load from encrypted bytes
    pub fn load(data: &[u8], password: &str) -> (r: Result<SessionStore, CryptoError>)
        ensures
            match r {
                Ok(store) => store_in(password@, data@) == Some((store@, store.version_number())),
                Err(e) => store_in(password@, data@) is None && match identity::blob_opened(
                    password@,
                    data@,
                ) {
                    Ok(_) => e is NoStore,
                    Err(cause) => e == cause,
                },
            },
    {
        let plaintext = match identity::decrypt_blob(password, data) {
            Ok(p) => p,
            Err(e) => return Err(e),
        };
        match codec::read_sessions(plaintext.as_slice()) {
            Ok((rows, version)) => Ok(SessionStore::from_rows(rows, version)),
            Err(e) => Err(CryptoError::NoStore(e)),
        }
    }

    /// Load or create new: `stored` is what was found on disk, if anything. A
    /// store that is corrupt or has another password is not an error: the
    /// result then says so, beside an empty store.
    pub fn load_or_new(stored: Option<Vec<u8>>, password: &str) -> (r: (SessionStore, bool))
        ensures
            match stored {
                Some(data) => match store_in(password@, data@) {
                    Some(s) => r.0@ == s.0 && r.0.version_number() == s.1 && !r.1,
                    None => r.0@ == Map::<Seq<char>, SessionView>::empty()
                        && r.0.version_number() == 1 && r.1,
                },
                None => r.0@ == Map::<Seq<char>, SessionView>::empty() && r.0.version_number() == 1
                    && !r.1,
            },
    {
        match stored {
            Some(data) => match SessionStore::load(data.as_slice(), password) {
                Ok(store) => (store, false),
                Err(_) => (SessionStore::new(), true),
            },
            None => (SessionStore::new(), false),
        }
    }

    /// Purge all sessions (panic mode)
    pub fn purge(&mut self)
        ensures
            final(self)@ == Map::<Seq<char>, SessionView>::empty(),
            final(self).version_number() == old(self).version_number(),
    {
        self.sessions = TextMap::new();
        assert(self@ =~= Map::<Seq<char>, SessionView>::empty());
    }

    /// Get the store file path for a given data directory
    pub fn default_path(data_dir: &str) -> (r: String)
        ensures
            r@ == text::path_in(data_dir@, SESSIONS_FILE@),
    {
        text::join_path(data_dir, SESSIONS_FILE)
    }
}

/// A session is written and read back field by field: the row of a session
/// stands for that session again, under the same peer.
pub proof fn law_session_survives_its_row(peer: Seq<char>, s: SessionView)
    ensures
        row_session(session_row(peer, s)) == (peer, s),
{
}

/// Sessions are read from bytes only with the password that opens them, and each
/// row is a session with its own peer.
pub proof fn law_sessions_are_read_row_by_row(
    password: Seq<char>,
    data: Seq<u8>,
    peer: Seq<char>,
    s: SessionView,
    version: u32,
)
    ensures
        identity::blob_opened(password, data) is Err ==> store_in(password, data) is None,
        identity::blob_opened(password, data) matches Ok(p) ==> {
            &&& codec::sessions_read(p) is None ==> store_in(password, data) is None
            &&& codec::sessions_read(p) == Some((seq![session_row(peer, s)], version)) ==> store_in(
                password,
                data,
            ) == Some((Map::<Seq<char>, SessionView>::empty().insert(peer, s), version))
        },
{
    let one = seq![session_row(peer, s)];
    let pairs = one.map_values(|r: codec::SessionRowView| row_session(r));
    textmap::lemma_collect_step(pairs, 0);
    assert(pairs.take(1) =~= pairs);
    assert(pairs[0] == (peer, s));
    assert(pairs.take(0) =~= seq![]);
    assert(textmap::collect(pairs.take(0)) =~= Map::<Seq<char>, SessionView>::empty());
}

} // verus!
