//! Encrypted contacts — no plaintext social graph on disk.

use vstd::prelude::*;

use crate::bytes;
use crate::codec;
use crate::crypto::identity;
use crate::crypto::primitives;
use crate::crypto::CryptoError;
use crate::text;
use crate::textmap;
use crate::textmap::TextMap;

verus! {

/// The name of the file that contacts are kept in.
pub const CONTACTS_FILE: &'static str = "contacts.enc";

#[derive(Debug, Clone)]
#[verifier::ext_equal]
pub struct Contact<T = String, B = Vec<u8>> {
    pub username: T,
    /// Their identity public key (for fingerprint verification)
    pub identity_key: Option<B>,
    /// Whether we've verified their safety number out-of-band
    pub verified: bool,
    /// Optional display name / alias
    pub alias: Option<T>,
}

/// The view of a [`Contact`].
pub type ContactView = Contact<Seq<char>, Seq<u8>>;

impl View for Contact<String, Vec<u8>> {
    type V = Contact<Seq<char>, Seq<u8>>;

    open spec fn view(&self) -> Contact<Seq<char>, Seq<u8>> {
        Contact {
            username: self.username@,
            identity_key: bytes::opt_bytes(self.identity_key),
            verified: self.verified,
            alias: text::opt_text(self.alias),
        }
    }
}

/// Encrypted contact store
#[derive(Debug)]
pub struct ContactStore {
    contacts: TextMap<Contact>,
}

impl View for ContactStore {
    type V = Map<Seq<char>, ContactView>;

    closed spec fn view(&self) -> Map<Seq<char>, ContactView> {
        self.contacts@.map_values(|c: Contact| c@)
    }
}

/// A contact that nothing is known of but the name.
pub open spec fn new_contact(username: Seq<char>) -> ContactView {
    Contact { username, identity_key: None, verified: false, alias: None }
}

/// A contact with another identity key. A key that has changed is not verified
/// any more.
pub open spec fn with_key(c: ContactView, key: Seq<u8>) -> ContactView {
    Contact {
        username: c.username,
        identity_key: Some(key),
        verified: c.verified && (c.identity_key is None || c.identity_key == Some(key)),
        alias: c.alias,
    }
}

/// The contacts after `add`.
pub open spec fn added(m: Map<Seq<char>, ContactView>, username: Seq<char>) -> Map<
    Seq<char>,
    ContactView,
> {
    if m.contains_key(username) {
        m
    } else {
        m.insert(username, new_contact(username))
    }
}

/// The contacts after `set_identity_key`.
pub open spec fn keyed(
    m: Map<Seq<char>, ContactView>,
    username: Seq<char>,
    key: Seq<u8>,
) -> Map<Seq<char>, ContactView> {
    if m.contains_key(username) {
        m.insert(username, with_key(m[username], key))
    } else {
        m
    }
}

/// The contacts after `verify`.
pub open spec fn marked_verified(m: Map<Seq<char>, ContactView>, username: Seq<char>) -> Map<
    Seq<char>,
    ContactView,
> {
    if m.contains_key(username) {
        m.insert(username, Contact { verified: true, ..m[username] })
    } else {
        m
    }
}

/// The contacts after `set_alias`.
pub open spec fn aliased(
    m: Map<Seq<char>, ContactView>,
    username: Seq<char>,
    alias: Seq<char>,
) -> Map<Seq<char>, ContactView> {
    if m.contains_key(username) {
        m.insert(username, Contact { alias: Some(alias), ..m[username] })
    } else {
        m
    }
}

/// The name that a user is shown under.
pub open spec fn shown_name(m: Map<Seq<char>, ContactView>, username: Seq<char>) -> Seq<char> {
    if m.contains_key(username) {
        match m[username].alias {
            Some(alias) => alias,
            None => m[username].username,
        }
    } else {
        username
    }
}

/// The row of a contact.
pub open spec fn contact_row(name: Seq<char>, c: ContactView) -> codec::ContactRowView {
    (name, c.username, c.identity_key, c.verified, c.alias)
}

/// The name and the contact of a row.
pub open spec fn row_contact(row: codec::ContactRowView) -> (Seq<char>, ContactView) {
    (row.0, Contact { username: row.1, identity_key: row.2, verified: row.3, alias: row.4 })
}

/// The contacts of a list of rows.
pub open spec fn contacts_of(rows: Seq<codec::ContactRowView>) -> Map<Seq<char>, ContactView> {
    textmap::collect(rows.map_values(|r: codec::ContactRowView| row_contact(r)))
}

/// The contacts that a password reads from bytes.
pub open spec fn contacts_in(password: Seq<char>, data: Seq<u8>) -> Option<
    Map<Seq<char>, ContactView>,
> {
    match identity::blob_opened(password, data) {
        Ok(plaintext) => match codec::contacts_read(plaintext) {
            Some(rows) => Some(contacts_of(rows)),
            None => None,
        },
        Err(_) => None,
    }
}

impl ContactStore {
    /// The names of the contacts, in the order in which they are listed.
    pub closed spec fn names(&self) -> Seq<Seq<char>> {
        self.contacts.listed()
    }

    /// The rows that the store is written as.
    pub open spec fn rows(&self) -> Seq<codec::ContactRowView> {
        self.names().map_values(|k: Seq<char>| contact_row(k, self@[k]))
    }

    pub fn new() -> (r: ContactStore)
        ensures
            r@ == Map::<Seq<char>, ContactView>::empty(),
    {
        let r = ContactStore { contacts: TextMap::new() };
        assert(r@ =~= Map::<Seq<char>, ContactView>::empty());
        r
    }

    /// Add a contact
    pub fn add(&mut self, username: &str)
        ensures
            final(self)@ == added(old(self)@, username@),
    {
        if !self.contacts.contains_key(username) {
            self.contacts.insert(
                username.to_owned(),
                Contact {
                    username: username.to_owned(),
                    identity_key: None,
                    verified: false,
                    alias: None,
                },
            );
            assert(self@ =~= old(self)@.insert(username@, new_contact(username@)));
        }
    }

    /// Remove a contact
    pub fn remove(&mut self, username: &str) -> (r: bool)
        ensures
            r == old(self)@.contains_key(username@),
            final(self)@ == old(self)@.remove(username@),
    {
        let r = self.contacts.remove(username).is_some();
        assert(self@ =~= old(self)@.remove(username@));
        r
    }

    /// Get a contact
    pub fn get(&self, username: &str) -> (r: Option<&Contact>)
        ensures
            match r {
                Some(c) => self@.contains_key(username@) && c@ == self@[username@],
                None => !self@.contains_key(username@),
            },
    {
        self.contacts.get(username)
    }

    /// Get a mutable contact
    pub fn get_mut(&mut self, username: &str) -> (r: Option<&mut Contact>)
        ensures
            match r {
                Some(c) => old(self)@.contains_key(username@) && c@ == old(self)@[username@]
                    && final(self)@ == old(self)@.insert(username@, final(c)@),
                None => !old(self)@.contains_key(username@) && final(self)@ == old(self)@,
            },
    {
        self.contacts.get_mut(username)
    }

    /// Set a contact's identity key (from bundle fetch)
    pub fn set_identity_key(&mut self, username: &str, key: Vec<u8>)
        ensures
            final(self)@ == keyed(old(self)@, username@, key@),
    {
        if let Some(contact) = self.get_mut(username) {
            if let Some(old_key) = &contact.identity_key {
                if !bytes::same_bytes(old_key.as_slice(), key.as_slice()) {
                    contact.verified = false;
                }
            }
            contact.identity_key = Some(key);
        }
    }

    /// Mark a contact as verified
    pub fn verify(&mut self, username: &str) -> (r: bool)
        ensures
            r == old(self)@.contains_key(username@),
            final(self)@ == marked_verified(old(self)@, username@),
    {
        if let Some(contact) = self.get_mut(username) {
            contact.verified = true;
            true
        } else {
            false
        }
    }

    /// Set an alias for a contact
    pub fn set_alias(&mut self, username: &str, alias: &str)
        ensures
            final(self)@ == aliased(old(self)@, username@, alias@),
    {
        if let Some(contact) = self.get_mut(username) {
            contact.alias = Some(alias.to_owned());
        }
    }

    /// List all contacts
    pub fn list(&self) -> (r: Vec<&Contact>)
        ensures
            r@.map_values(|c: &Contact| c@) == self.names().map_values(|k: Seq<char>| self@[k]),
            self.names().no_duplicates(),
            forall|k: Seq<char>| self.names().contains(k) <==> #[trigger] self@.contains_key(k),
    {
        let mut out: Vec<&Contact> = Vec::new();
        let n: usize = self.contacts.len();
        for i in 0..n
            invariant
                n == self.names().len(),
                out@.len() == i,
                forall|j: int| 0 <= j < i ==> (#[trigger] out@[j])@ == self@[self.names()[j]],
        {
            let (name, c) = self.contacts.at(i);
            assert(self@[name@] == c@);
            out.push(c);
        }
        proof {
            self.contacts.lemma_listed();
            assert(out@.map_values(|c: &Contact| c@) =~= self.names().map_values(
                |k: Seq<char>| self@[k],
            ));
            assert forall|k: Seq<char>|
                self.names().contains(k) <==> #[trigger] self@.contains_key(k) by {
                assert(self@.contains_key(k) == self.contacts@.contains_key(k));
            }
        }
        out
    }

    /// List contact usernames
    pub fn usernames(&self) -> (r: Vec<String>)
        ensures
            r@.map_values(|s: String| s@) == self.names(),
            textmap::distinct(r@),
            forall|k: Seq<char>| #[trigger]
                self@.contains_key(k) <==> exists|i: int| #[trigger] textmap::is_at(r@, k, i),
    {
        let r = self.contacts.names();
        assert forall|k: Seq<char>| #[trigger]
            self@.contains_key(k) <==> exists|i: int| #[trigger] textmap::is_at(r@, k, i) by {
            assert(self@.contains_key(k) == self.contacts@.contains_key(k));
        }
        r
    }

    /// Check if a contact exists
    pub fn has(&self, username: &str) -> (r: bool)
        ensures
            r == self@.contains_key(username@),
    {
        self.contacts.contains_key(username)
    }

    /// Get display name (alias or username)
    pub fn display_name(&self, username: &str) -> (r: String)
        ensures
            r@ == shown_name(self@, username@),
    {
        match self.get(username) {
            Some(contact) => match &contact.alias {
                Some(alias) => alias.clone(),
                None => contact.username.clone(),
            },
            None => username.to_owned(),
        }
    }

    fn to_rows(&self) -> (rows: Vec<codec::ContactRow>)
        ensures
            codec::contact_rows(rows@) == self.rows(),
            contacts_of(self.rows()) == self@,
    {
        let mut rows: Vec<codec::ContactRow> = Vec::new();
        let n: usize = self.contacts.len();
        for i in 0..n
            invariant
                n == self.names().len(),
                rows@.len() == i,
                forall|j: int|
                    0 <= j < i ==> (#[trigger] codec::contact_rows(rows@)[j]) == self.rows()[j],
        {
            let ghost before = rows@;
            let (name, c) = self.contacts.at(i);
            let alias = match &c.alias {
                Some(a) => Some(a.clone()),
                None => None,
            };
            rows.push(
                (
                    name.clone(),
                    c.username.clone(),
                    bytes::copy_opt_bytes(&c.identity_key),
                    c.verified,
                    alias,
                ),
            );
            assert forall|j: int| 0 <= j < i + 1 implies (#[trigger] codec::contact_rows(rows@)[j])
                == self.rows()[j] by {
                if j < i {
                    assert(codec::contact_rows(before)[j] == self.rows()[j]);
                } else {
                    assert(self@[name@] == c@);
                }
            }
        }
        proof {
            assert(codec::contact_rows(rows@) =~= self.rows());
            self.contacts.lemma_listed();
            let names = self.names();
            assert(self.rows().map_values(|r: codec::ContactRowView| row_contact(r))
                =~= textmap::pairs_of(names, self@));
            textmap::lemma_collect_pairs(names, self@);
        }
        rows
    }

    fn from_rows(rows: Vec<codec::ContactRow>) -> (r: ContactStore)
        ensures
            r@ == contacts_of(codec::contact_rows(rows@)),
    {
        let ghost pairs = codec::contact_rows(rows@).map_values(
            |r: codec::ContactRowView| row_contact(r),
        );
        let mut contacts: TextMap<Contact> = TextMap::new();
        assert(contacts@.map_values(|c: Contact| c@) =~= textmap::collect(pairs.take(0)));
        for row in it: rows
            invariant
                it.seq() == rows@,
                pairs == codec::contact_rows(rows@).map_values(
                    |r: codec::ContactRowView| row_contact(r),
                ),
                contacts@.map_values(|c: Contact| c@) == textmap::collect(
                    pairs.take(it.index()),
                ),
        {
            proof {
                textmap::lemma_collect_step(pairs, it.index());
            }
            let (name, username, identity_key, verified, alias) = row;
            let contact = Contact { username, identity_key, verified, alias };
            let ghost before = contacts@;
            assert(pairs[it.index()] == (name@, contact@));
            contacts.insert(name, contact);
            assert(contacts@.map_values(|c: Contact| c@) =~= before.map_values(
                |c: Contact| c@,
            ).insert(name@, contact@));
        }
        assert(pairs.take(pairs.len() as int) =~= pairs);
        ContactStore { contacts }
    }

    /// The bytes to keep the store in, encrypted. The same password loads it
    /// again.
    pub fn save(&self, password: &str) -> (r: Result<Vec<u8>, CryptoError>)
        ensures
            ({
                let written = codec::contacts_written(self.rows());
                match r {
                    Ok(data) => {
                        &&& identity::usable_password(password@) && written.len()
                            <= primitives::MAX_PLAINTEXT
                        &&& data@ == identity::blob(
                            password@,
                            data@.take(16),
                            data@.subrange(16, 40),
                            written,
                        )
                        &&& contacts_in(password@, data@) == Some(self@)
                    },
                    Err(e) => {
                        ||| !identity::usable_password(password@) && e
                            == CryptoError::PasswordTooLong
                        ||| identity::usable_password(password@) && written.len()
                            > primitives::MAX_PLAINTEXT && e == CryptoError::BlobTooLong
                    },
                }
            }),
    {
        let rows = self.to_rows();
        let data = codec::write_contacts(&rows);
        identity::encrypt_blob(password, data.as_slice())
    }

    /// Load from encrypted bytes
    pub fn load(data: &[u8], password: &str) -> (r: Result<ContactStore, CryptoError>)
        ensures
            match r {
                Ok(store) => contacts_in(password@, data@) == Some(store@),
                Err(e) => contacts_in(password@, data@) is None && match identity::blob_opened(
                    password@,
                    data@,
                ) {
                    Ok(_) => e is NoStore,
                    Err(cause) => e == cause,
                },
            },
    {
        let plaintext = match identity::decrypt_blob(password, data) {
            Ok(p) => p,
            Err(e) => return Err(e),
        };
        match codec::read_contacts(plaintext.as_slice()) {
            Ok(rows) => Ok(ContactStore::from_rows(rows)),
            Err(e) => Err(CryptoError::NoStore(e)),
        }
    }

    /// Load or create new: `stored` is what was found on disk, if anything.
    /// Where it cannot be read the store starts empty.
    pub fn load_or_new(stored: Option<Vec<u8>>, password: &str) -> (r: ContactStore)
        ensures
            r@ == match stored {
                Some(data) => match contacts_in(password@, data@) {
                    Some(contacts) => contacts,
                    None => Map::<Seq<char>, ContactView>::empty(),
                },
                None => Map::<Seq<char>, ContactView>::empty(),
            },
    {
        match stored {
            Some(data) => match ContactStore::load(data.as_slice(), password) {
                Ok(store) => store,
                Err(_) => ContactStore::new(),
            },
            None => ContactStore::new(),
        }
    }

    /// Default path
    pub fn default_path(data_dir: &str) -> (r: String)
        ensures
            r@ == text::path_in(data_dir@, CONTACTS_FILE@),
    {
        text::join_path(data_dir, CONTACTS_FILE)
    }
}

// ── Laws ────────────────────────────────────────────────────

/// A contact whose key changes is never verified afterwards; one whose key
/// comes again stays as it was.
pub proof fn law_changed_key_is_unverified(
    m: Map<Seq<char>, ContactView>,
    username: Seq<char>,
    key: Seq<u8>,
)
    requires
        m.contains_key(username),
    ensures
        ({
            let after = keyed(m, username, key)[username];
            &&& after.identity_key == Some(key)
            &&& m[username].identity_key is Some && m[username].identity_key != Some(key)
                ==> !after.verified
            &&& m[username].identity_key == Some(key) ==> after == m[username]
        }),
{
}

/// Adding a contact again changes nothing of what is known of it.
pub proof fn law_add_is_idempotent(m: Map<Seq<char>, ContactView>, username: Seq<char>)
    ensures
        added(added(m, username), username) == added(m, username),
        m.contains_key(username) ==> added(m, username)[username] == m[username],
        added(m, username).contains_key(username),
{
}

/// Nothing that is done to one contact touches another.
pub proof fn law_contacts_are_independent(
    m: Map<Seq<char>, ContactView>,
    username: Seq<char>,
    other: Seq<char>,
    key: Seq<u8>,
    alias: Seq<char>,
)
    requires
        username != other,
        m.contains_key(other),
    ensures
        added(m, username)[other] == m[other] && added(m, username).contains_key(other),
        keyed(m, username, key)[other] == m[other] && keyed(m, username, key).contains_key(other),
        marked_verified(m, username)[other] == m[other] && marked_verified(
            m,
            username,
        ).contains_key(other),
        aliased(m, username, alias)[other] == m[other] && aliased(m, username, alias).contains_key(
            other,
        ),
        m.remove(username)[other] == m[other] && m.remove(username).contains_key(other),
{
}

/// A contact is shown under its alias once it has one.
pub proof fn law_alias_is_shown(
    m: Map<Seq<char>, ContactView>,
    username: Seq<char>,
    alias: Seq<char>,
)
    requires
        m.contains_key(username),
    ensures
        shown_name(aliased(m, username, alias), username) == alias,
{
}

/// A new contact is known by its name alone, and is not verified; everything
/// that is learnt of a contact later is kept, and changes that one thing only.
pub proof fn law_contact_changes_one_thing_at_a_time(
    m: Map<Seq<char>, ContactView>,
    username: Seq<char>,
    key: Seq<u8>,
    alias: Seq<char>,
)
    ensures
        !m.contains_key(username) ==> added(m, username).contains_key(username) && added(
            m,
            username,
        )[username] == (Contact {
            username,
            identity_key: None::<Seq<u8>>,
            verified: false,
            alias: None::<Seq<char>>,
        }),
        !m.contains_key(username) ==> keyed(m, username, key) == m && marked_verified(m, username)
            == m && aliased(m, username, alias) == m,
        m.contains_key(username) ==> {
            let before = m[username];
            &&& added(m, username) == m
            &&& keyed(m, username, key)[username] == (Contact {
                identity_key: Some(key),
                verified: keyed(m, username, key)[username].verified,
                ..before
            })
            &&& before.identity_key is None ==> keyed(m, username, key)[username].verified
                == before.verified
            &&& !before.verified ==> !keyed(m, username, key)[username].verified
            &&& marked_verified(m, username)[username] == (Contact { verified: true, ..before })
            &&& aliased(m, username, alias)[username] == (Contact {
                alias: Some(alias),
                ..before
            })
            &&& keyed(m, username, key).dom() == m.dom()
            &&& marked_verified(m, username).dom() == m.dom()
            &&& aliased(m, username, alias).dom() == m.dom()
        },
{
    if m.contains_key(username) {
        assert(keyed(m, username, key).dom() =~= m.dom());
        assert(marked_verified(m, username).dom() =~= m.dom());
        assert(aliased(m, username, alias).dom() =~= m.dom());
    }
}

/// Without an alias a contact is shown under its own name, and a stranger under
/// the name that is asked for.
pub proof fn law_name_is_shown_without_an_alias(
    m: Map<Seq<char>, ContactView>,
    username: Seq<char>,
)
    ensures
        !m.contains_key(username) ==> shown_name(m, username) == username,
        m.contains_key(username) && m[username].alias is None ==> shown_name(m, username)
            == m[username].username,
        m.contains_key(username) && m[username].alias is Some ==> shown_name(m, username)
            == m[username].alias->Some_0,
        shown_name(added(m, username), username) == shown_name(m, username),
{
}

/// A contact is written and read back field by field.
pub proof fn law_contact_survives_its_row(name: Seq<char>, c: ContactView)
    ensures
        row_contact(contact_row(name, c)) == (name, c),
{
}

/// Contacts are read from bytes only with the password that opens them, and each
/// row is a contact under its own name.
pub proof fn law_contacts_are_read_row_by_row(
    password: Seq<char>,
    data: Seq<u8>,
    name: Seq<char>,
    c: ContactView,
)
    ensures
        identity::blob_opened(password, data) is Err ==> contacts_in(password, data) is None,
        identity::blob_opened(password, data) matches Ok(p) ==> {
            &&& codec::contacts_read(p) is None ==> contacts_in(password, data) is None
            &&& codec::contacts_read(p) == Some(seq![contact_row(name, c)]) ==> contacts_in(
                password,
                data,
            ) == Some(Map::<Seq<char>, ContactView>::empty().insert(name, c))
            &&& codec::contacts_read(p) == Some(Seq::<codec::ContactRowView>::empty())
                ==> contacts_in(password, data) == Some(Map::<Seq<char>, ContactView>::empty())
        },
{
    let one = seq![contact_row(name, c)];
    let pairs = one.map_values(|r: codec::ContactRowView| row_contact(r));
    textmap::lemma_collect_step(pairs, 0);
    assert(pairs.take(1) =~= pairs);
    assert(pairs[0] == (name, c));
    assert(pairs.take(0) =~= seq![]);
    let none = Seq::<codec::ContactRowView>::empty().map_values(
        |r: codec::ContactRowView| row_contact(r),
    );
    assert(none =~= seq![]);
    assert(textmap::collect(none) =~= Map::<Seq<char>, ContactView>::empty());
    assert(textmap::collect(pairs.take(0)) =~= Map::<Seq<char>, ContactView>::empty());
}

} // verus!
