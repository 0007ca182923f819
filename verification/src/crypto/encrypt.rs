//! General-purpose encryption helpers.

use vstd::prelude::*;
use vstd::utf8::*;

use crate::bytes;
use crate::crypto::primitives;
use crate::crypto::CryptoError;

verus! {

/// Encrypts with a given nonce. A plaintext beyond the cipher's limit is
/// refused.
pub fn seal(key: &[u8; 32], nonce: &[u8; 24], plaintext: &[u8]) -> (r: Option<Vec<u8>>)
    ensures
        match r {
            Some(c) => {
                &&& plaintext@.len() <= primitives::MAX_PLAINTEXT
                &&& c@ == primitives::xchacha_sealed(key@, nonce@, plaintext@)
                &&& c@.len() == plaintext@.len() + primitives::TAG_LEN
                &&& opened(key@, nonce@, c@) == Some(plaintext@)
            },
            None => plaintext@.len() > primitives::MAX_PLAINTEXT,
        },
{
    if plaintext.len() as u64 > primitives::MAX_PLAINTEXT {
        return None;
    }
    Some(primitives::xchacha_seal(key, nonce, plaintext))
}

/// What is read from a ciphertext: nothing, if it is not authentic or beyond
/// the cipher's limit.
pub open spec fn opened(key: Seq<u8>, nonce: Seq<u8>, ciphertext: Seq<u8>) -> Option<Seq<u8>> {
    if ciphertext.len() > primitives::MAX_PLAINTEXT + primitives::TAG_LEN {
        None
    } else {
        primitives::xchacha_opened(key, nonce, ciphertext)
    }
}

/// Decrypts with a given nonce. What is accepted is the encryption of what is
/// returned.
pub fn open(key: &[u8; 32], nonce: &[u8; 24], ciphertext: &[u8]) -> (r: Option<Vec<u8>>)
    ensures
        bytes::opt_bytes(r) == opened(key@, nonce@, ciphertext@),
        r matches Some(p) ==> ciphertext@ == primitives::xchacha_sealed(key@, nonce@, p@),
{
    if ciphertext.len() as u64 > primitives::MAX_PLAINTEXT + primitives::TAG_LEN as u64 {
        return None;
    }
    primitives::xchacha_open(key, nonce, ciphertext)
}

/// Encrypt data with a 32-byte key, returning (ciphertext, nonce)
pub fn encrypt_with_key(key: &[u8; 32], plaintext: &[u8]) -> (r: Result<
    (Vec<u8>, [u8; 24]),
    CryptoError,
>)
    ensures
        match r {
            Ok((c, nonce)) => {
                &&& plaintext@.len() <= primitives::MAX_PLAINTEXT
                &&& c@ == primitives::xchacha_sealed(key@, nonce@, plaintext@)
                &&& opened(key@, nonce@, c@) == Some(plaintext@)
            },
            Err(e) => plaintext@.len() > primitives::MAX_PLAINTEXT && e
                == CryptoError::EncryptionFailed,
        },
{
    let nonce = primitives::random_nonce();
    match seal(key, &nonce, plaintext) {
        Some(c) => Ok((c, nonce)),
        None => Err(CryptoError::EncryptionFailed),
    }
}

/// Decrypt data with a 32-byte key
pub fn decrypt_with_key(key: &[u8; 32], ciphertext: &[u8], nonce: &[u8; 24]) -> (r: Result<
    Vec<u8>,
    CryptoError,
>)
    ensures
        match r {
            Ok(p) => opened(key@, nonce@, ciphertext@) == Some(p@),
            Err(e) => opened(key@, nonce@, ciphertext@) is None && e
                == CryptoError::DecryptionFailed,
        },
{
    match open(key, nonce, ciphertext) {
        Some(p) => Ok(p),
        None => Err(CryptoError::DecryptionFailed),
    }
}

/// The hash that a password is known by on the server.
pub open spec fn password_hash(password: Seq<char>) -> Seq<u8> {
    primitives::sha256_of(encode_utf8("ZeroSum_PasswordHash_"@) + encode_utf8(password))
}

/// Hash a password for authentication (not for key derivation)
pub fn hash_password(password: &str) -> (r: Vec<u8>)
    ensures
        r@ == password_hash(password@),
{
    let input = bytes::concat("ZeroSum_PasswordHash_".as_bytes(), password.as_bytes());
    bytes::copy_bytes(primitives::sha256(input.as_slice()).as_slice())
}

/// The server knows a password by the digest of a label and the password
/// itself.
pub proof fn law_password_is_hashed(password: Seq<char>)
    ensures
        password_hash(password) == primitives::sha256_of(
            encode_utf8("ZeroSum_PasswordHash_"@) + encode_utf8(password),
        ),
{
}

/// A ciphertext within the limit is read exactly as the cipher reads it.
pub proof fn law_cipher_decides(key: Seq<u8>, nonce: Seq<u8>, ciphertext: Seq<u8>)
    ensures
        ciphertext.len() <= primitives::MAX_PLAINTEXT + primitives::TAG_LEN ==> opened(
            key,
            nonce,
            ciphertext,
        ) == primitives::xchacha_opened(key, nonce, ciphertext),
        ciphertext.len() > primitives::MAX_PLAINTEXT + primitives::TAG_LEN ==> opened(
            key,
            nonce,
            ciphertext,
        ) is None,
{
}

} // verus!
