//! The cryptographic algorithms, as outside crates provide them.
//!
//! What an algorithm computes has a name here; the contracts of the library
//! speak of these names. Nothing is proved of the algorithms themselves. The
//! few facts that are claimed beside the names are those that the callers
//! need: that opening undoes sealing, that both sides of a key agreement
//! compute the same secret.

use vstd::prelude::*;

use chacha20poly1305::aead::{Aead, KeyInit};
use ed25519_dalek::{Signer, Verifier};
use sha2::Digest;
use zeroize::Zeroize;

verus! {

// ── Authenticated encryption ────────────────────────────────

/// What XChaCha20-Poly1305 makes of a plaintext.
pub uninterp spec fn xchacha_sealed(key: Seq<u8>, nonce: Seq<u8>, plaintext: Seq<u8>) -> Seq<u8>;

/// What XChaCha20-Poly1305 reads from a ciphertext, if it is authentic.
pub uninterp spec fn xchacha_opened(key: Seq<u8>, nonce: Seq<u8>, ciphertext: Seq<u8>) -> Option<
    Seq<u8>,
>;

/// The longest plaintext, in bytes: the key stream has 2^32 - 2 blocks of 64
/// bytes for it.
pub const MAX_PLAINTEXT: u64 = 274_877_906_816;

/// The length of the authentication tag at the end of a ciphertext.
pub const TAG_LEN: usize = 16;

/// `XChaCha20Poly1305::encrypt` of the crate chacha20poly1305, without
/// associated data. It succeeds on every plaintext within the limit; the
/// ciphertext is longer by the tag, and `decrypt` with the same key and nonce
/// gives the plaintext back.
#[verifier::external_body]
pub(crate) fn xchacha_seal(key: &[u8; 32], nonce: &[u8; 24], plaintext: &[u8]) -> (r: Vec<u8>)
    requires
        plaintext@.len() <= MAX_PLAINTEXT,
    ensures
        r@ == xchacha_sealed(key@, nonce@, plaintext@),
        r@.len() == plaintext@.len() + TAG_LEN,
        xchacha_opened(key@, nonce@, r@) == Some(plaintext@),
{
    let cipher = chacha20poly1305::XChaCha20Poly1305::new(key.into());
    cipher.encrypt(chacha20poly1305::XNonce::from_slice(nonce), plaintext).unwrap()
}

/// `XChaCha20Poly1305::decrypt` of the crate chacha20poly1305, without
/// associated data. What it accepts is the encryption of what it returns, so it
/// is longer by the tag.
#[verifier::external_body]
pub(crate) fn xchacha_open(key: &[u8; 32], nonce: &[u8; 24], ciphertext: &[u8]) -> (r: Option<
    Vec<u8>,
>)
    requires
        ciphertext@.len() <= MAX_PLAINTEXT + TAG_LEN,
    ensures
        match r {
            Some(p) => xchacha_opened(key@, nonce@, ciphertext@) == Some(p@) && ciphertext@
                == xchacha_sealed(key@, nonce@, p@) && ciphertext@.len() == p@.len() + TAG_LEN,
            None => xchacha_opened(key@, nonce@, ciphertext@) is None,
        },
{
    let cipher = chacha20poly1305::XChaCha20Poly1305::new(key.into());
    cipher.decrypt(chacha20poly1305::XNonce::from_slice(nonce), ciphertext).ok()
}

// ── Hashes and key derivation ───────────────────────────────

/// The SHA-256 digest.
pub uninterp spec fn sha256_of(data: Seq<u8>) -> Seq<u8>;

/// `Sha256::digest` of the crate sha2.
#[verifier::external_body]
pub(crate) fn sha256(data: &[u8]) -> (r: [u8; 32])
    ensures
        r@ == sha256_of(data@),
{
    sha2::Sha256::digest(data).into()
}

/// The SHA-512 digest.
pub uninterp spec fn sha512_of(data: Seq<u8>) -> Seq<u8>;

/// `Sha512::digest` of the crate sha2.
#[verifier::external_body]
pub(crate) fn sha512(data: &[u8]) -> (r: [u8; 64])
    ensures
        r@ == sha512_of(data@),
{
    sha2::Sha512::digest(data).into()
}

/// The first 32 bytes that HKDF-SHA256 derives from key material, without a
/// salt, for a purpose.
pub uninterp spec fn hkdf_key(material: Seq<u8>, purpose: Seq<u8>) -> Seq<u8>;

/// `Hkdf::<Sha256>::new` without a salt and then `expand` to 32 bytes, of the
/// crate hkdf. `expand` fails above 255 times 32 bytes only.
#[verifier::external_body]
pub(crate) fn hkdf(material: &[u8], purpose: &[u8]) -> (r: [u8; 32])
    ensures
        r@ == hkdf_key(material@, purpose@),
{
    let mut key = [0u8;32];
    hkdf::Hkdf::<sha2::Sha256>::new(None, material).expand(purpose, &mut key).unwrap();
    key
}

/// The 32-byte key that Argon2id derives from a password and a salt, with the
/// default parameters of the crate argon2.
pub uninterp spec fn argon2_key(password: Seq<u8>, salt: Seq<u8>) -> Seq<u8>;

/// The longest password, in bytes.
pub const MAX_PASSWORD: u64 = 0xffff_ffff;

/// `Argon2::default().hash_password_into` with 32 bytes of output, of the crate
/// argon2. It takes passwords up to the limit and salts of at least eight
/// bytes.
#[verifier::external_body]
pub(crate) fn argon2(password: &[u8], salt: &[u8; 16]) -> (r: [u8; 32])
    requires
        password@.len() <= MAX_PASSWORD,
    ensures
        r@ == argon2_key(password@, salt@),
{
    let mut key = [0u8;32];
    argon2::Argon2::default().hash_password_into(password, salt, &mut key).unwrap();
    key
}

// ── Elliptic curves ─────────────────────────────────────────

/// The X25519 public key of a secret.
pub uninterp spec fn x25519_public_of(secret: Seq<u8>) -> Seq<u8>;

/// `x25519_dalek::PublicKey::from` for a `StaticSecret`.
#[verifier::external_body]
pub(crate) fn x25519_public(secret: &[u8; 32]) -> (r: [u8; 32])
    ensures
        r@ == x25519_public_of(secret@),
{
    x25519_dalek::PublicKey::from(&x25519_dalek::StaticSecret::from(*secret)).to_bytes()
}

/// The X25519 secret that one side shares with a public key.
pub uninterp spec fn x25519_shared_with(secret: Seq<u8>, public: Seq<u8>) -> Seq<u8>;

/// `StaticSecret::diffie_hellman` of the crate x25519-dalek. With the public
/// key of another secret it gives what that other side computes from this
/// side's public key.
#[verifier::external_body]
pub(crate) fn x25519(secret: &[u8; 32], public: &[u8; 32]) -> (r: [u8; 32])
    ensures
        r@ == x25519_shared_with(secret@, public@),
        forall|other: Seq<u8>|
            other.len() == 32 && public@ == #[trigger] x25519_public_of(other) ==> r@
                == x25519_shared_with(other, x25519_public_of(secret@)),
{
    let theirs = x25519_dalek::PublicKey::from(*public);
    x25519_dalek::StaticSecret::from(*secret).diffie_hellman(&theirs).to_bytes()
}

/// The Ed25519 public key of a secret key.
pub uninterp spec fn ed25519_public_of(secret: Seq<u8>) -> Seq<u8>;

/// `SigningKey::from_bytes` and `verifying_key` of the crate ed25519-dalek.
#[verifier::external_body]
pub(crate) fn ed25519_public(secret: &[u8; 32]) -> (r: [u8; 32])
    ensures
        r@ == ed25519_public_of(secret@),
{
    ed25519_dalek::SigningKey::from_bytes(secret).verifying_key().to_bytes()
}

/// The Ed25519 signature of a message.
pub uninterp spec fn ed25519_signature_of(secret: Seq<u8>, message: Seq<u8>) -> Seq<u8>;

/// `SigningKey::from_bytes` and `sign` of the crate ed25519-dalek.
#[verifier::external_body]
pub(crate) fn ed25519_sign(secret: &[u8; 32], message: &[u8]) -> (r: [u8; 64])
    ensures
        r@ == ed25519_signature_of(secret@, message@),
{
    ed25519_dalek::SigningKey::from_bytes(secret).sign(message).to_bytes()
}

/// Whether a signature of a message is valid under an Ed25519 public key.
pub uninterp spec fn ed25519_accepts(
    public: Seq<u8>,
    message: Seq<u8>,
    signature: Seq<u8>,
) -> bool;

/// `VerifyingKey::from_bytes` and `verify` of the crate ed25519-dalek. A public
/// key that is no point accepts nothing. What `sign` makes with a secret key is
/// valid under the public key of that secret key.
#[verifier::external_body]
pub(crate) fn ed25519_verify(public: &[u8; 32], message: &[u8], signature: &[u8; 64]) -> (r: bool)
    ensures
        r == ed25519_accepts(public@, message@, signature@),
        forall|secret: Seq<u8>|
            secret.len() == 32 && public@ == #[trigger] ed25519_public_of(secret) && signature@
                == ed25519_signature_of(secret, message@) ==> r,
{
    match ed25519_dalek::VerifyingKey::from_bytes(public) {
        Ok(key) => key.verify(message, &ed25519_dalek::Signature::from_bytes(signature)).is_ok(),
        Err(_) => false,
    }
}

/// The first 32 bytes as an X25519 secret, with the bits fixed that the curve
/// asks for.
pub open spec fn clamped(bytes: Seq<u8>) -> Seq<u8> {
    Seq::new(
        32,
        |i: int|
            if i == 0 {
                bytes[0] & 248
            } else if i == 31 {
                (bytes[31] & 127) | 64
            } else {
                bytes[i]
            },
    )
}

/// The Montgomery form of an Ed25519 public key, if it is a point of the
/// curve.
pub uninterp spec fn montgomery_of(public: Seq<u8>) -> Option<Seq<u8>>;

/// `CompressedEdwardsY::decompress` and `to_montgomery` of the crate
/// curve25519-dalek. The public key of an Ed25519 secret key is a point, and
/// its Montgomery form is the X25519 public key of the secret scalar, which is
/// the first half of the secret key's SHA-512 digest, clamped.
#[verifier::external_body]
pub(crate) fn montgomery(public: &[u8; 32]) -> (r: Option<[u8; 32]>)
    ensures
        match r {
            Some(m) => montgomery_of(public@) == Some(m@),
            None => montgomery_of(public@) is None,
        },
        forall|secret: Seq<u8>|
            secret.len() == 32 && public@ == #[trigger] ed25519_public_of(secret) ==> r is Some
                && r->Some_0@ == x25519_public_of(clamped(sha512_of(secret))),
{
    let point = curve25519_dalek::edwards::CompressedEdwardsY(*public);
    point.decompress().map(|p| p.to_montgomery().to_bytes())
}

// ── Randomness ──────────────────────────────────────────────

/// `RngCore::fill_bytes` of the crate rand on the system's generator, for a
/// nonce. The bytes are random: nothing is claimed of them.
#[verifier::external_body]
pub(crate) fn random_nonce() -> (r: [u8; 24]) {
    let mut nonce = [0u8;24];
    rand::RngCore::fill_bytes(&mut rand::rngs::OsRng, &mut nonce);
    nonce
}

/// `StaticSecret::random_from_rng` of the crate x25519-dalek on the system's
/// generator. The bytes are random: nothing is claimed of them.
#[verifier::external_body]
pub(crate) fn random_secret() -> (r: [u8; 32]) {
    x25519_dalek::StaticSecret::random_from_rng(rand::rngs::OsRng).to_bytes()
}

/// `SigningKey::generate` of the crate ed25519-dalek on the system's generator.
/// The bytes are random: nothing is claimed of them.
#[verifier::external_body]
pub(crate) fn random_signing_key() -> (r: [u8; 32]) {
    ed25519_dalek::SigningKey::generate(&mut rand::rngs::OsRng).to_bytes()
}

/// `SaltString::generate` of the crate password-hash on the system's
/// generator: a salt as text. It is random: nothing is claimed of it.
#[verifier::external_body]
pub(crate) fn random_salt_text() -> (r: String) {
    argon2::password_hash::SaltString::generate(&mut rand::rngs::OsRng).as_str().to_string()
}

/// `RngCore::fill_bytes` of the crate rand on the system's generator, for as
/// many bytes as are asked for. The bytes are random: nothing else is claimed
/// of them.
#[verifier::external_body]
pub(crate) fn random_bytes(len: usize) -> (r: Vec<u8>)
    ensures
        r@.len() == len,
{
    let mut data = vec![0u8; len];
    rand::RngCore::fill_bytes(&mut rand::rngs::OsRng, &mut data);
    data
}

/// `rand::random::<u64>` of the crate rand. The number is random: nothing is
/// claimed of it.
#[verifier::external_body]
pub(crate) fn random_number() -> (r: u64) {
    rand::random::<u64>()
}

// ── Erasing ─────────────────────────────────────────────────

/// `Vec::<u8>::zeroize` of the crate zeroize: the bytes are overwritten, and
/// the vector is empty.
#[verifier::external_body]
pub(crate) fn wipe(bytes: &mut Vec<u8>)
    ensures
        final(bytes)@ == Seq::<u8>::empty(),
    opens_invariants none
    no_unwind
{
    bytes.zeroize();
}

/// `Vec::<Vec<u8>>::zeroize` of the crate zeroize: the bytes of every element
/// are overwritten, and the vector is empty.
#[verifier::external_body]
pub(crate) fn wipe_all(keys: &mut Vec<Vec<u8>>)
    ensures
        final(keys)@ == Seq::<Vec<u8>>::empty(),
    opens_invariants none
    no_unwind
{
    keys.zeroize();
}

/// `<[u8; N]>::zeroize` of the crate zeroize: every byte is zero.
#[verifier::external_body]
pub(crate) fn wipe_array<const N: usize>(bytes: &mut [u8; N])
    ensures
        final(bytes)@ == Seq::new(N as nat, |i: int| 0u8),
    opens_invariants none
    no_unwind
{
    bytes.zeroize();
}

} // verus!
