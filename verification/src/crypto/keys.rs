//! Key types. Secrets are erased when they are dropped.

use vstd::prelude::*;

use crate::crypto::primitives;

verus! {

/// An X25519 secret.
pub struct StaticSecret {
    bytes: [u8; 32],
}

/// An X25519 public key.
#[derive(Debug, Clone, Copy)]
pub struct PublicKey {
    bytes: [u8; 32],
}

/// An Ed25519 secret key.
pub struct SigningKey {
    bytes: [u8; 32],
}

/// An Ed25519 public key.
#[derive(Debug, Clone, Copy)]
pub struct VerifyingKey {
    bytes: [u8; 32],
}

impl View for StaticSecret {
    type V = Seq<u8>;

    closed spec fn view(&self) -> Seq<u8> {
        self.bytes@
    }
}

impl View for PublicKey {
    type V = Seq<u8>;

    closed spec fn view(&self) -> Seq<u8> {
        self.bytes@
    }
}

impl View for SigningKey {
    type V = Seq<u8>;

    closed spec fn view(&self) -> Seq<u8> {
        self.bytes@
    }
}

impl View for VerifyingKey {
    type V = Seq<u8>;

    closed spec fn view(&self) -> Seq<u8> {
        self.bytes@
    }
}

impl Drop for StaticSecret {
    fn drop(&mut self)
        ensures
            final(self)@ == Seq::new(32, |i: int| 0u8),
        opens_invariants none
        no_unwind
    {
        primitives::wipe_array(&mut self.bytes);
    }
}

impl Drop for SigningKey {
    fn drop(&mut self)
        ensures
            final(self)@ == Seq::new(32, |i: int| 0u8),
        opens_invariants none
        no_unwind
    {
        primitives::wipe_array(&mut self.bytes);
    }
}

impl StaticSecret {
    /// The secret with the given bytes.
    pub fn from_bytes(bytes: [u8; 32]) -> (r: StaticSecret)
        ensures
            r@ == bytes@,
    {
        StaticSecret { bytes }
    }

    /// A fresh random secret.
    pub fn random() -> (r: StaticSecret)
        ensures
            r@.len() == 32,
    {
        StaticSecret { bytes: primitives::random_secret() }
    }

    /// The bytes of the secret.
    pub fn as_bytes(&self) -> (r: &[u8; 32])
        ensures
            r@ == self@,
            r@.len() == 32,
    {
        &self.bytes
    }

    pub fn to_bytes(&self) -> (r: [u8; 32])
        ensures
            r@ == self@,
    {
        self.bytes
    }

    /// The public key that belongs to the secret.
    pub fn public_key(&self) -> (r: PublicKey)
        ensures
            r@ == primitives::x25519_public_of(self@),
            r@.len() == 32,
    {
        PublicKey { bytes: primitives::x25519_public(&self.bytes) }
    }

    /// The secret shared with the owner of a public key. It is the one that
    /// the owner computes from this side's public key.
    pub fn diffie_hellman(&self, their_public: &[u8; 32]) -> (r: [u8; 32])
        ensures
            r@ == primitives::x25519_shared_with(self@, their_public@),
            forall|other: Seq<u8>|
                other.len() == 32 && their_public@ == #[trigger] primitives::x25519_public_of(other)
                    ==> r@ == primitives::x25519_shared_with(
                    other,
                    primitives::x25519_public_of(self@),
                ),
    {
        primitives::x25519(&self.bytes, their_public)
    }
}

impl PublicKey {
    pub fn as_bytes(&self) -> (r: &[u8; 32])
        ensures
            r@ == self@,
            r@.len() == 32,
    {
        &self.bytes
    }
}

impl SigningKey {
    /// The secret key with the given bytes.
    pub fn from_bytes(bytes: [u8; 32]) -> (r: SigningKey)
        ensures
            r@ == bytes@,
    {
        SigningKey { bytes }
    }

    /// A fresh random secret key.
    pub fn random() -> (r: SigningKey)
        ensures
            r@.len() == 32,
    {
        SigningKey { bytes: primitives::random_signing_key() }
    }

    /// The bytes of the secret.
    pub fn as_bytes(&self) -> (r: &[u8; 32])
        ensures
            r@ == self@,
            r@.len() == 32,
    {
        &self.bytes
    }

    pub fn to_bytes(&self) -> (r: [u8; 32])
        ensures
            r@ == self@,
    {
        self.bytes
    }

    /// The public key that belongs to the secret key.
    pub fn verifying_key(&self) -> (r: VerifyingKey)
        ensures
            r@ == primitives::ed25519_public_of(self@),
            r@.len() == 32,
    {
        VerifyingKey { bytes: primitives::ed25519_public(&self.bytes) }
    }

    /// The signature of a message.
    pub fn sign(&self, message: &[u8]) -> (r: [u8; 64])
        ensures
            r@ == primitives::ed25519_signature_of(self@, message@),
    {
        primitives::ed25519_sign(&self.bytes, message)
    }
}

impl VerifyingKey {
    pub fn to_bytes(&self) -> (r: [u8; 32])
        ensures
            r@ == self@,
            r@.len() == 32,
    {
        self.bytes
    }
}

} // verus!
