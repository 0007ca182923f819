//! Keys, key agreement, message encryption and encrypted stores.

pub mod encrypt;
pub mod fingerprint;
pub mod identity;
pub mod keys;
pub mod primitives;
pub mod ratchet;
pub mod store;
pub mod x3dh;

use vstd::prelude::*;


verus! {

/// Why a cryptographic operation fails.
#[derive(Debug, Clone)]
pub enum CryptoError {
    EncryptionFailed,
    DecryptionFailed,
    /// The message is too long for a blob.
    BlobTooLong,
    /// A blob that is shorter than its salt and nonce.
    BlobTooShort,
    /// A blob that the password does not open.
    BlobRejected,
    PasswordTooLong,
    RatchetEncryptionFailed,
    RatchetDecryptionFailed,
    InvalidNonceLength,
    /// A signed prekey that the identity key did not sign.
    PrekeyNotSigned,
    /// The contents of an opened blob are no identity.
    NoIdentity,
    /// The contents of an opened blob are no store.
    NoStore(String),
}

impl CryptoError {
    /// The text of an error.
    pub open spec fn text(self) -> Seq<char> {
        match self {
            CryptoError::EncryptionFailed => "Encryption failed"@,
            CryptoError::DecryptionFailed => "Decryption failed"@,
            CryptoError::BlobTooLong => "Encryption failed: aead::Error"@,
            CryptoError::BlobTooShort => "Encrypted data too short"@,
            CryptoError::BlobRejected => "Decryption failed — wrong password or corrupt data"@,
            CryptoError::PasswordTooLong => "Argon2 error: password is too long"@,
            CryptoError::RatchetEncryptionFailed => "Ratchet encryption failed"@,
            CryptoError::RatchetDecryptionFailed =>
                "Ratchet decryption failed — session may be out of sync"@,
            CryptoError::InvalidNonceLength => "Invalid nonce length"@,
            CryptoError::PrekeyNotSigned => "Invalid signature of the signed prekey"@,
            CryptoError::NoIdentity => "deserialize identity"@,
            CryptoError::NoStore(e) => e@,
        }
    }

    /// The text of an error.
    pub fn message(&self) -> (r: String)
        ensures
            r@ == self.text(),
    {
        match self {
            CryptoError::EncryptionFailed => "Encryption failed".to_owned(),
            CryptoError::DecryptionFailed => "Decryption failed".to_owned(),
            CryptoError::BlobTooLong => "Encryption failed: aead::Error".to_owned(),
            CryptoError::BlobTooShort => "Encrypted data too short".to_owned(),
            CryptoError::BlobRejected =>
                "Decryption failed — wrong password or corrupt data".to_owned(),
            CryptoError::PasswordTooLong => "Argon2 error: password is too long".to_owned(),
            CryptoError::RatchetEncryptionFailed => "Ratchet encryption failed".to_owned(),
            CryptoError::RatchetDecryptionFailed =>
                "Ratchet decryption failed — session may be out of sync".to_owned(),
            CryptoError::InvalidNonceLength => "Invalid nonce length".to_owned(),
            CryptoError::PrekeyNotSigned => "Invalid signature of the signed prekey".to_owned(),
            CryptoError::NoIdentity => "deserialize identity".to_owned(),
            CryptoError::NoStore(e) => e.clone(),
        }
    }
}

/// The user hears what failed, and nothing else: whether a message or a store could
/// not be read, whether a password or a nonce has a wrong length, or whether keys
/// are not vouched for.
pub proof fn law_errors_say_what_failed()
    ensures
        CryptoError::RatchetDecryptionFailed.text()
            == "Ratchet decryption failed — session may be out of sync"@,
        CryptoError::BlobRejected.text() == "Decryption failed — wrong password or corrupt data"@,
        CryptoError::BlobTooShort.text() == "Encrypted data too short"@,
        CryptoError::InvalidNonceLength.text() == "Invalid nonce length"@,
        CryptoError::PrekeyNotSigned.text() == "Invalid signature of the signed prekey"@,
        CryptoError::PasswordTooLong.text() == "Argon2 error: password is too long"@,
        CryptoError::NoIdentity.text() == "deserialize identity"@,
        CryptoError::EncryptionFailed.text() == "Encryption failed"@,
        CryptoError::DecryptionFailed.text() == "Decryption failed"@,
        CryptoError::RatchetEncryptionFailed.text() == "Ratchet encryption failed"@,
        CryptoError::BlobTooLong.text() == "Encryption failed: aead::Error"@,
        forall|e: String| #[trigger] CryptoError::NoStore(e).text() == e@,
{
}

} // verus!
