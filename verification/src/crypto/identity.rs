//! Identity key management — generation, encryption, storage.

use vstd::prelude::*;
use vstd::slice::*;
use vstd::utf8::*;

use crate::bytes;
use crate::codec;
use crate::crypto::encrypt;
use crate::crypto::keys::{PublicKey, SigningKey, StaticSecret, VerifyingKey};
use crate::crypto::primitives;
use crate::crypto::CryptoError;

verus! {

// ── Blobs ───────────────────────────────────────────────────

/// The key that a password and a salt give.
pub open spec fn blob_key(password: Seq<char>, salt: Seq<u8>) -> Seq<u8> {
    primitives::argon2_key(encode_utf8(password), salt)
}

/// A blob: [salt: 16][nonce: 24][ciphertext...]
pub open spec fn blob(
    password: Seq<char>,
    salt: Seq<u8>,
    nonce: Seq<u8>,
    plaintext: Seq<u8>,
) -> Seq<u8> {
    salt + nonce + primitives::xchacha_sealed(blob_key(password, salt), nonce, plaintext)
}

/// A password that keys can be derived from.
pub open spec fn usable_password(password: Seq<char>) -> bool {
    encode_utf8(password).len() <= primitives::MAX_PASSWORD
}

/// What a password opens a blob to.
pub open spec fn blob_opened(password: Seq<char>, data: Seq<u8>) -> Result<Seq<u8>, CryptoError> {
    if data.len() < 40 {
        Err(CryptoError::BlobTooShort)
    } else if !usable_password(password) {
        Err(CryptoError::PasswordTooLong)
    } else {
        match encrypt::opened(
            blob_key(password, data.take(16)),
            data.subrange(16, 40),
            data.skip(40),
        ) {
            Some(plaintext) => Ok(plaintext),
            None => Err(CryptoError::BlobRejected),
        }
    }
}

/// Derive an encryption key from a password using Argon2id
fn derive_key(password: &str, salt: &[u8; 16]) -> (r: Result<[u8; 32], CryptoError>)
    ensures
        match r {
            Ok(key) => usable_password(password@) && key@ == blob_key(password@, salt@),
            Err(e) => !usable_password(password@) && e == CryptoError::PasswordTooLong,
        },
{
    let bytes = password.as_bytes();
    if bytes.len() as u64 > primitives::MAX_PASSWORD {
        return Err(CryptoError::PasswordTooLong);
    }
    Ok(primitives::argon2(bytes, salt))
}

/// The first 16 bytes, filled up with zeros.
pub open spec fn salt_bytes(text: Seq<u8>) -> Seq<u8> {
    Seq::new(
        16,
        |i: int|
            if i < text.len() {
                text[i]
            } else {
                0u8
            },
    )
}

fn salt16(text: &[u8]) -> (r: [u8; 16])
    ensures
        r@ == salt_bytes(text@),
{
    let mut salt = [0u8;16];
    let mut i: usize = 0;
    while i < 16 && i < text.len()
        invariant
            i <= 16,
            i <= text@.len(),
            forall|j: int| 0 <= j < i ==> salt@[j] == text@[j],
            forall|j: int| i <= j < 16 ==> salt@[j] == 0,
        decreases 16 - i,
    {
        salt[i] = text[i];
        i = i + 1;
    }
    assert(salt@ =~= salt_bytes(text@));
    salt
}

/// Encrypt a blob: [salt: 16][nonce: 24][ciphertext...]
///
/// The salt and the nonce are fresh; the same password opens the blob.
pub fn encrypt_blob(password: &str, plaintext: &[u8]) -> (r: Result<Vec<u8>, CryptoError>)
    ensures
        match r {
            Ok(data) => {
                &&& usable_password(password@) && plaintext@.len() <= primitives::MAX_PLAINTEXT
                &&& data@.len() == 40 + plaintext@.len() + primitives::TAG_LEN
                &&& data@ == blob(password@, data@.take(16), data@.subrange(16, 40), plaintext@)
                &&& blob_opened(password@, data@) == Ok::<Seq<u8>, CryptoError>(plaintext@)
            },
            Err(e) => {
                ||| !usable_password(password@) && e == CryptoError::PasswordTooLong
                ||| usable_password(password@) && plaintext@.len() > primitives::MAX_PLAINTEXT && e
                    == CryptoError::BlobTooLong
            },
        },
{
    let salt_text = primitives::random_salt_text();
    let salt = salt16(salt_text.as_str().as_bytes());
    let nonce = primitives::random_nonce();
    encrypt_blob_with(password, &salt, &nonce, plaintext)
}

/// Encrypt a blob with a given salt and nonce.
pub fn encrypt_blob_with(
    password: &str,
    salt: &[u8; 16],
    nonce: &[u8; 24],
    plaintext: &[u8],
) -> (r: Result<Vec<u8>, CryptoError>)
    ensures
        match r {
            Ok(data) => {
                &&& usable_password(password@) && plaintext@.len() <= primitives::MAX_PLAINTEXT
                &&& data@.len() == 40 + plaintext@.len() + primitives::TAG_LEN
                &&& data@ == blob(password@, salt@, nonce@, plaintext@)
                &&& data@.take(16) == salt@ && data@.subrange(16, 40) == nonce@
                &&& blob_opened(password@, data@) == Ok::<Seq<u8>, CryptoError>(plaintext@)
            },
            Err(e) => {
                ||| !usable_password(password@) && e == CryptoError::PasswordTooLong
                ||| usable_password(password@) && plaintext@.len() > primitives::MAX_PLAINTEXT && e
                    == CryptoError::BlobTooLong
            },
        },
{
    let mut key = match derive_key(password, salt) {
        Ok(key) => key,
        Err(e) => return Err(e),
    };
    let sealed = encrypt::seal(&key, nonce, plaintext);
    primitives::wipe_array(&mut key);
    match sealed {
        Some(ciphertext) => {
            let head = bytes::concat(salt.as_slice(), nonce.as_slice());
            let data = bytes::concat(head.as_slice(), ciphertext.as_slice());
            assert(data@.take(16) =~= salt@);
            assert(data@.subrange(16, 40) =~= nonce@);
            assert(data@.skip(40) =~= ciphertext@);
            Ok(data)
        },
        None => Err(CryptoError::BlobTooLong),
    }
}

/// Decrypt a blob produced by encrypt_blob
pub fn decrypt_blob(password: &str, data: &[u8]) -> (r: Result<Vec<u8>, CryptoError>)
    ensures
        match r {
            Ok(p) => blob_opened(password@, data@) == Ok::<Seq<u8>, CryptoError>(p@) && data@
                == blob(password@, data@.take(16), data@.subrange(16, 40), p@),
            Err(e) => blob_opened(password@, data@) == Err::<Seq<u8>, CryptoError>(e),
        },
{
    if data.len() < 40 {
        return Err(CryptoError::BlobTooShort);
    }
    let salt = salt16(slice_subrange(data, 0, 16));
    let nonce = bytes::to_array24(slice_subrange(data, 16, 40));
    let ciphertext = slice_subrange(data, 40, data.len());
    assert(salt@ =~= data@.take(16));
    assert(ciphertext@ =~= data@.skip(40));
    let mut key = match derive_key(password, &salt) {
        Ok(key) => key,
        Err(e) => return Err(e),
    };
    let opened = encrypt::open(&key, &nonce, ciphertext);
    primitives::wipe_array(&mut key);
    match opened {
        Some(plaintext) => {
            assert(data@ =~= data@.take(16) + data@.subrange(16, 40) + data@.skip(40));
            Ok(plaintext)
        },
        None => Err(CryptoError::BlobRejected),
    }
}

// ── Identities ──────────────────────────────────────────────

/// Full identity bundle for a user
#[derive(Clone)]
pub struct Identity {
    /// Ed25519 signing key (identity key)
    pub signing_key_bytes: Vec<u8>,
    /// X25519 static secret for signed prekey
    pub signed_prekey_secret: Vec<u8>,
    /// One-time prekey secrets
    pub one_time_prekey_secrets: Vec<Vec<u8>>,
    /// Next OTP key index
    pub next_otpk_index: u32,
}

/// The view of an [`Identity`].
#[verifier::ext_equal]
pub ghost struct IdentityView {
    pub signing_key: Seq<u8>,
    pub signed_prekey: Seq<u8>,
    pub one_time_prekeys: Seq<Seq<u8>>,
    pub next_otpk_index: u32,
}

impl View for Identity {
    type V = IdentityView;

    open spec fn view(&self) -> IdentityView {
        IdentityView {
            signing_key: self.signing_key_bytes@,
            signed_prekey: self.signed_prekey_secret@,
            one_time_prekeys: bytes::keys_view(self.one_time_prekey_secrets@),
            next_otpk_index: self.next_otpk_index,
        }
    }
}

impl Drop for Identity {
    fn drop(&mut self)
        ensures
            final(self)@.signing_key.len() == 0,
            final(self)@.signed_prekey.len() == 0,
            final(self)@.one_time_prekeys.len() == 0,
        opens_invariants none
        no_unwind
    {
        primitives::wipe(&mut self.signing_key_bytes);
        primitives::wipe(&mut self.signed_prekey_secret);
        primitives::wipe_all(&mut self.one_time_prekey_secrets);
    }
}

impl IdentityView {
    /// Every key of the identity has 32 bytes.
    pub open spec fn wf(self) -> bool {
        &&& self.signing_key.len() == 32
        &&& self.signed_prekey.len() == 32
        &&& are_keys(self.one_time_prekeys)
    }

    /// The public identity key.
    pub open spec fn public_key(self) -> Seq<u8> {
        primitives::ed25519_public_of(self.signing_key)
    }

    /// The public signed prekey.
    pub open spec fn spk_public(self) -> Seq<u8> {
        primitives::x25519_public_of(self.signed_prekey)
    }

    /// The signature of the public signed prekey.
    pub open spec fn spk_signature(self) -> Seq<u8> {
        primitives::ed25519_signature_of(self.signing_key, self.spk_public())
    }
}

/// The public keys of a list of secrets.
pub open spec fn publics(secrets: Seq<Seq<u8>>) -> Seq<Seq<u8>> {
    secrets.map_values(|s: Seq<u8>| primitives::x25519_public_of(s))
}

/// The identity that a password reads from bytes.
pub open spec fn identity_in(password: Seq<char>, data: Seq<u8>) -> Option<IdentityView> {
    match blob_opened(password, data) {
        Ok(plaintext) => match codec::identity_read(plaintext) {
            Some(i) => Some(
                IdentityView {
                    signing_key: i.0,
                    signed_prekey: i.1,
                    one_time_prekeys: i.2,
                    next_otpk_index: i.3,
                },
            ),
            None => None,
        },
        Err(_) => None,
    }
}

/// The bytes of a list of secrets.
pub open spec fn secrets_view(secrets: Seq<StaticSecret>) -> Seq<Seq<u8>> {
    secrets.map_values(|s: StaticSecret| s@)
}

fn draw_secrets(count: u32) -> (r: Vec<StaticSecret>)
    ensures
        r@.len() == count,
{
    let mut secrets: Vec<StaticSecret> = Vec::with_capacity(count as usize);
    for i in 0..count
        invariant
            secrets@.len() == i,
    {
        secrets.push(StaticSecret::random());
    }
    secrets
}

/// Every one-time prekey has 32 bytes.
pub open spec fn are_keys(one_time_prekeys: Seq<Seq<u8>>) -> bool {
    forall|i: int|
        0 <= i < one_time_prekeys.len() ==> (#[trigger] one_time_prekeys[i]).len() == 32
}

impl Identity {
    /// The identity that consists of the given secrets.
    pub fn from_secrets(
        signing_key: &SigningKey,
        signed_prekey: &StaticSecret,
        one_time_prekeys: &Vec<StaticSecret>,
    ) -> (r: Identity)
        requires
            one_time_prekeys@.len() <= u32::MAX,
        ensures
            r@ == (IdentityView {
                signing_key: signing_key@,
                signed_prekey: signed_prekey@,
                one_time_prekeys: secrets_view(one_time_prekeys@),
                next_otpk_index: one_time_prekeys@.len() as u32,
            }),
            r@.wf(),
    {
        let mut r = Identity {
            signing_key_bytes: bytes::copy_bytes(signing_key.as_bytes().as_slice()),
            signed_prekey_secret: bytes::copy_bytes(signed_prekey.as_bytes().as_slice()),
            one_time_prekey_secrets: Vec::new(),
            next_otpk_index: 0,
        };
        assert(r@.one_time_prekeys =~= seq![]);
        r.add_otpks(one_time_prekeys);
        assert(r@.one_time_prekeys =~= secrets_view(one_time_prekeys@));
        r
    }

    /// Generate a fresh identity with N one-time prekeys. Every key is drawn on
    /// its own.
    pub fn generate(num_otpks: u32) -> (r: Identity)
        ensures
            r@.wf(),
            r@.one_time_prekeys.len() == num_otpks,
            r@.next_otpk_index == num_otpks,
    {
        let signing_key = SigningKey::random();
        let signed_prekey = StaticSecret::random();
        let one_time_prekeys = draw_secrets(num_otpks);
        Identity::from_secrets(&signing_key, &signed_prekey, &one_time_prekeys)
    }

    /// Whether every key of the identity has 32 bytes. One that was read from
    /// disk may have others.
    pub fn has_valid_keys(&self) -> (r: bool)
        ensures
            r == self@.wf(),
    {
        if self.signing_key_bytes.len() != 32 || self.signed_prekey_secret.len() != 32 {
            return false;
        }
        let n: usize = self.one_time_prekey_secrets.len();
        for i in 0..n
            invariant
                n == self.one_time_prekey_secrets@.len(),
                forall|j: int| 0 <= j < i ==> (#[trigger] self@.one_time_prekeys[j]).len() == 32,
        {
            let s = &self.one_time_prekey_secrets[i];
            assert(s@ == self@.one_time_prekeys[i as int]);
            if s.len() != 32 {
                return false;
            }
        }
        true
    }

    /// Get the Ed25519 signing key
    pub fn signing_key(&self) -> (r: SigningKey)
        requires
            self@.signing_key.len() == 32,
        ensures
            r@ == self@.signing_key,
    {
        SigningKey::from_bytes(bytes::to_array32(self.signing_key_bytes.as_slice()))
    }

    /// Get the Ed25519 verifying (public identity) key
    pub fn verifying_key(&self) -> (r: VerifyingKey)
        requires
            self@.signing_key.len() == 32,
        ensures
            r@ == self@.public_key(),
            r@.len() == 32,
    {
        self.signing_key().verifying_key()
    }

    /// Get the identity public key bytes
    pub fn identity_public_key(&self) -> (r: Vec<u8>)
        requires
            self@.signing_key.len() == 32,
        ensures
            r@ == self@.public_key(),
            r@.len() == 32,
    {
        bytes::copy_bytes(self.verifying_key().to_bytes().as_slice())
    }

    /// Get X25519 signed prekey secret
    pub fn spk_secret(&self) -> (r: StaticSecret)
        requires
            self@.signed_prekey.len() == 32,
        ensures
            r@ == self@.signed_prekey,
    {
        StaticSecret::from_bytes(bytes::to_array32(self.signed_prekey_secret.as_slice()))
    }

    /// Get X25519 signed prekey public
    pub fn spk_public(&self) -> (r: PublicKey)
        requires
            self@.signed_prekey.len() == 32,
        ensures
            r@ == self@.spk_public(),
            r@.len() == 32,
    {
        self.spk_secret().public_key()
    }

    /// Sign the signed prekey with the identity key
    pub fn sign_spk(&self) -> (r: Vec<u8>)
        requires
            self@.signing_key.len() == 32,
            self@.signed_prekey.len() == 32,
        ensures
            r@ == self@.spk_signature(),
            r@.len() == 64,
    {
        let signature = self.signing_key().sign(self.spk_public().as_bytes().as_slice());
        bytes::copy_bytes(signature.as_slice())
    }

    /// Get all one-time prekey public keys
    pub fn otpk_publics(&self) -> (r: Vec<Vec<u8>>)
        requires
            are_keys(self@.one_time_prekeys),
        ensures
            bytes::keys_view(r@) == publics(self@.one_time_prekeys),
    {
        let mut out: Vec<Vec<u8>> = Vec::new();
        let n: usize = self.one_time_prekey_secrets.len();
        for i in 0..n
            invariant
                n == self@.one_time_prekeys.len(),
                n == self.one_time_prekey_secrets@.len(),
                are_keys(self@.one_time_prekeys),
                out@.len() == i,
                forall|j: int|
                    0 <= j < i ==> (#[trigger] out@[j])@ == primitives::x25519_public_of(
                        self@.one_time_prekeys[j],
                    ),
        {
            let s = &self.one_time_prekey_secrets[i];
            assert(s@ == self@.one_time_prekeys[i as int]);
            let secret = StaticSecret::from_bytes(bytes::to_array32(s.as_slice()));
            out.push(bytes::copy_bytes(secret.public_key().as_bytes().as_slice()));
        }
        assert(bytes::keys_view(out@) =~= publics(self@.one_time_prekeys));
        out
    }

    /// Adds one-time prekeys at the end. Their public keys are returned.
    pub fn add_otpks(&mut self, secrets: &Vec<StaticSecret>) -> (r: Vec<Vec<u8>>)
        requires
            old(self)@.next_otpk_index + secrets@.len() <= u32::MAX,
        ensures
            final(self)@ == (IdentityView {
                one_time_prekeys: old(self)@.one_time_prekeys + secrets_view(secrets@),
                next_otpk_index: (old(self)@.next_otpk_index + secrets@.len()) as u32,
                ..old(self)@
            }),
            bytes::keys_view(r@) == publics(secrets_view(secrets@)),
            are_keys(secrets_view(secrets@)),
            are_keys(old(self)@.one_time_prekeys) ==> are_keys(final(self)@.one_time_prekeys),
    {
        let mut new_publics: Vec<Vec<u8>> = Vec::new();
        let ghost all = secrets_view(secrets@);
        let ghost base = self@;
        let n: usize = secrets.len();
        assert(base.one_time_prekeys + all.take(0) =~= base.one_time_prekeys);
        for i in 0..n
            invariant
                n == secrets@.len(),
                all == secrets_view(secrets@),
                base.next_otpk_index + n <= u32::MAX,
                self@ == (IdentityView {
                    one_time_prekeys: base.one_time_prekeys + all.take(i as int),
                    next_otpk_index: (base.next_otpk_index + i) as u32,
                    ..base
                }),
                new_publics@.len() == i,
                forall|j: int|
                    0 <= j < i ==> (#[trigger] new_publics@[j])@ == primitives::x25519_public_of(
                        all[j],
                    ),
                forall|j: int| 0 <= j < i ==> (#[trigger] all[j]).len() == 32,
        {
            let ghost before = self@.one_time_prekeys;
            let secret = &secrets[i];
            assert(all[i as int] == secret@);
            new_publics.push(bytes::copy_bytes(secret.public_key().as_bytes().as_slice()));
            self.one_time_prekey_secrets.push(bytes::copy_bytes(secret.as_bytes().as_slice()));
            self.next_otpk_index = self.next_otpk_index + 1;
            assert(self@.one_time_prekeys =~= before.push(secret@));
            assert(self@.one_time_prekeys =~= base.one_time_prekeys + all.take(i + 1));
        }
        assert(all.take(n as int) =~= all);
        assert(bytes::keys_view(new_publics@) =~= publics(all));
        new_publics
    }

    /// Generate more one-time prekeys, each drawn on its own. Their public keys
    /// are returned; the secrets are added at the end.
    pub fn generate_more_otpks(&mut self, count: u32) -> (r: Vec<Vec<u8>>)
        requires
            old(self)@.next_otpk_index + count <= u32::MAX,
        ensures
            exists|added: Seq<Seq<u8>>| #[trigger]
                are_keys(added) && added.len() == count && final(self)@ == (IdentityView {
                    one_time_prekeys: old(self)@.one_time_prekeys + added,
                    next_otpk_index: (old(self)@.next_otpk_index + count) as u32,
                    ..old(self)@
                }) && bytes::keys_view(r@) == publics(added),
            old(self)@.wf() ==> final(self)@.wf(),
    {
        let secrets = draw_secrets(count);
        self.add_otpks(&secrets)
    }

    /// Get the OTP secret at a given index
    pub fn otpk_secret_at(&self, index: u32) -> (r: Option<StaticSecret>)
        requires
            index < self@.one_time_prekeys.len() ==> self@.one_time_prekeys[index as int].len()
                == 32,
        ensures
            match r {
                Some(s) => index < self@.one_time_prekeys.len() && s@
                    == self@.one_time_prekeys[index as int] && s@.len() == 32,
                None => index >= self@.one_time_prekeys.len(),
            },
    {
        let idx: usize = index as usize;
        if idx < self.one_time_prekey_secrets.len() {
            let s = &self.one_time_prekey_secrets[idx];
            assert(s@ == self@.one_time_prekeys[index as int]);
            Some(StaticSecret::from_bytes(bytes::to_array32(s.as_slice())))
        } else {
            None
        }
    }

    /// Encrypt the identity with a password-derived key. The same password
    /// reads it back.
    pub fn encrypt_to_bytes(&self, password: &str) -> (r: Result<Vec<u8>, CryptoError>)
        ensures
            ({
                let written = codec::identity_written(
                    self@.signing_key,
                    self@.signed_prekey,
                    self@.one_time_prekeys,
                    self@.next_otpk_index,
                );
                match r {
                    Ok(data) => {
                        &&& usable_password(password@) && written.len()
                            <= primitives::MAX_PLAINTEXT
                        &&& data@ == blob(
                            password@,
                            data@.take(16),
                            data@.subrange(16, 40),
                            written,
                        )
                        &&& identity_in(password@, data@) == Some(self@)
                    },
                    Err(e) => {
                        ||| !usable_password(password@) && e == CryptoError::PasswordTooLong
                        ||| usable_password(password@) && written.len() > primitives::MAX_PLAINTEXT
                            && e == CryptoError::BlobTooLong
                    },
                }
            }),
    {
        let plaintext = codec::write_identity(
            &self.signing_key_bytes,
            &self.signed_prekey_secret,
            &self.one_time_prekey_secrets,
            self.next_otpk_index,
        );
        encrypt_blob(password, plaintext.as_slice())
    }

    /// Decrypt an identity
    pub fn decrypt_from_bytes(password: &str, data: &[u8]) -> (r: Result<Identity, CryptoError>)
        ensures
            match r {
                Ok(id) => identity_in(password@, data@) == Some(id@),
                Err(e) => identity_in(password@, data@) is None && e == (match blob_opened(
                    password@,
                    data@,
                ) {
                    Ok(_) => CryptoError::NoIdentity,
                    Err(cause) => cause,
                }),
            },
    {
        let plaintext = match decrypt_blob(password, data) {
            Ok(p) => p,
            Err(e) => return Err(e),
        };
        match codec::read_identity(plaintext.as_slice()) {
            Some(i) => {
                let (signing_key_bytes, signed_prekey_secret, one_time_prekey_secrets, next) = i;
                Ok(
                    Identity {
                        signing_key_bytes,
                        signed_prekey_secret,
                        one_time_prekey_secrets,
                        next_otpk_index: next,
                    },
                )
            },
            None => Err(CryptoError::NoIdentity),
        }
    }
}

// ── Laws ────────────────────────────────────────────────────

/// A blob is its salt, its nonce and the ciphertext, in a row; the key is the
/// one that Argon2id gives for the password and this salt.
pub proof fn law_blob_is_salt_nonce_ciphertext(
    password: Seq<char>,
    salt: Seq<u8>,
    nonce: Seq<u8>,
    plaintext: Seq<u8>,
)
    requires
        salt.len() == 16,
        nonce.len() == 24,
    ensures
        ({
            let data = blob(password, salt, nonce, plaintext);
            &&& data.take(16) == salt
            &&& data.subrange(16, 40) == nonce
            &&& data.skip(40) == primitives::xchacha_sealed(
                primitives::argon2_key(encode_utf8(password), salt),
                nonce,
                plaintext,
            )
        }),
{
    let data = blob(password, salt, nonce, plaintext);
    assert(data.take(16) =~= salt);
    assert(data.subrange(16, 40) =~= nonce);
    assert(data.skip(40) =~= primitives::xchacha_sealed(
        primitives::argon2_key(encode_utf8(password), salt),
        nonce,
        plaintext,
    ));
}

/// A blob is opened by the password that sealed it. If the cipher gives a
/// plaintext back under the same key and nonce, the blob gives it back too; so
/// what a blob gives is decided by the password and the salt in front.
pub proof fn law_blob_is_opened_by_its_password(
    password: Seq<char>,
    salt: Seq<u8>,
    nonce: Seq<u8>,
    plaintext: Seq<u8>,
)
    requires
        salt.len() == 16,
        nonce.len() == 24,
        usable_password(password),
        blob(password, salt, nonce, plaintext).len() <= 40 + primitives::MAX_PLAINTEXT
            + primitives::TAG_LEN,
    ensures
        match primitives::xchacha_opened(
            primitives::argon2_key(encode_utf8(password), salt),
            nonce,
            primitives::xchacha_sealed(
                primitives::argon2_key(encode_utf8(password), salt),
                nonce,
                plaintext,
            ),
        ) {
            Some(read) => blob_opened(password, blob(password, salt, nonce, plaintext)) == Ok::<
                Seq<u8>,
                CryptoError,
            >(read),
            None => blob_opened(password, blob(password, salt, nonce, plaintext)) is Err,
        },
{
    law_blob_is_salt_nonce_ciphertext(password, salt, nonce, plaintext);
}

/// What is too short for a salt and a nonce is refused, and nothing is read
/// from it.
pub proof fn law_short_blob_is_refused(password: Seq<char>, data: Seq<u8>)
    requires
        data.len() < 40,
    ensures
        blob_opened(password, data) == Err::<Seq<u8>, CryptoError>(CryptoError::BlobTooShort),
        identity_in(password, data) is None,
{
}

/// What is published of an identity are the public keys of its secrets, and its
/// own signature of the signed prekey.
pub proof fn law_identity_publishes_its_own_keys(id: IdentityView, i: int)
    requires
        0 <= i < id.one_time_prekeys.len(),
    ensures
        id.public_key() == primitives::ed25519_public_of(id.signing_key),
        id.spk_public() == primitives::x25519_public_of(id.signed_prekey),
        id.spk_signature() == primitives::ed25519_signature_of(
            id.signing_key,
            primitives::x25519_public_of(id.signed_prekey),
        ),
        publics(id.one_time_prekeys).len() == id.one_time_prekeys.len(),
        publics(id.one_time_prekeys)[i] == primitives::x25519_public_of(id.one_time_prekeys[i]),
{
}

/// An identity is the one that was written, key for key, where the blob opens
/// to bytes that are read as one.
pub proof fn law_identity_is_read_field_by_field(
    password: Seq<char>,
    data: Seq<u8>,
    signing_key: Seq<u8>,
    signed_prekey: Seq<u8>,
    one_time_prekeys: Seq<Seq<u8>>,
    next_otpk_index: u32,
)
    requires
        blob_opened(password, data) matches Ok(p) && codec::identity_read(p) == Some(
            (signing_key, signed_prekey, one_time_prekeys, next_otpk_index),
        ),
    ensures
        identity_in(password, data) matches Some(id) && id.signing_key == signing_key
            && id.signed_prekey == signed_prekey && id.one_time_prekeys == one_time_prekeys
            && id.next_otpk_index == next_otpk_index,
{
}

/// An identity is sound exactly if all its keys have 32 bytes.
pub proof fn law_sound_identity_has_full_keys(id: IdentityView)
    ensures
        id.wf() <==> id.signing_key.len() == 32 && id.signed_prekey.len() == 32 && forall|i: int|
            0 <= i < id.one_time_prekeys.len() ==> (#[trigger] id.one_time_prekeys[i]).len() == 32,
{
}

} // verus!
