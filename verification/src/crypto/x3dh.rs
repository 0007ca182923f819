//! X3DH Key Agreement — Extended Triple Diffie-Hellman.
//!
//! Implements X3DH as specified by Signal for the initial key exchange: a
//! prekey is used only if the identity key has signed it.

use vstd::prelude::*;
use vstd::utf8::*;

use crate::bytes;
use crate::crypto::keys::StaticSecret;
use crate::crypto::primitives;
use crate::crypto::CryptoError;

verus! {

/// Result of X3DH from the initiator's side
pub struct X3dhInitResult {
    /// The shared secret derived from X3DH
    pub shared_secret: [u8; 32],
    /// Ephemeral public key to send to the responder
    pub ephemeral_public: [u8; 32],
}

impl Drop for X3dhInitResult {
    fn drop(&mut self)
        ensures
            final(self).shared_secret@ == Seq::new(32, |i: int| 0u8),
        opens_invariants none
        no_unwind
    {
        primitives::wipe_array(&mut self.shared_secret);
    }
}

/// Whether a prekey is signed: the signature is one of the identity key.
pub open spec fn prekey_signed(identity: Seq<u8>, prekey: Seq<u8>, signature: Seq<u8>) -> bool {
    identity.len() == 32 && signature.len() == 64 && primitives::ed25519_accepts(
        identity,
        prekey,
        signature,
    )
}

/// Whether a prekey is signed. What an identity signs itself is.
pub fn is_prekey_signed(identity: &[u8], prekey: &[u8], signature: &[u8]) -> (r: bool)
    ensures
        r == prekey_signed(identity@, prekey@, signature@),
        forall|secret: Seq<u8>|
            secret.len() == 32 && identity@.len() == 32 && signature@.len() == 64 && identity@
                == #[trigger] primitives::ed25519_public_of(secret) && signature@
                == primitives::ed25519_signature_of(secret, prekey@) ==> r,
{
    identity.len() == 32 && signature.len() == 64 && primitives::ed25519_verify(
        &bytes::to_array32(identity),
        prekey,
        &bytes::to_array64(signature),
    )
}

/// The 32 bytes that stand in front of the key material.
pub open spec fn prefix() -> Seq<u8> {
    Seq::new(32, |i: int| 0xffu8)
}

/// The key material that three or four exchanges make up.
pub open spec fn key_material(
    dh1: Seq<u8>,
    dh2: Seq<u8>,
    dh3: Seq<u8>,
    dh4: Option<Seq<u8>>,
) -> Seq<u8> {
    let three = prefix() + dh1 + dh2 + dh3;
    match dh4 {
        Some(d) => three + d,
        None => three,
    }
}

/// The secret that follows from three or four exchanges.
pub open spec fn derived(
    dh1: Seq<u8>,
    dh2: Seq<u8>,
    dh3: Seq<u8>,
    dh4: Option<Seq<u8>>,
) -> Seq<u8> {
    primitives::hkdf_key(
        key_material(dh1, dh2, dh3, dh4),
        encode_utf8("ZeroSum_X3DH_SharedSecret"@),
    )
}

/// The initiator's secret:
///   DH1 = DH(IK_A, SPK_B)       — identity to signed prekey
///   DH2 = DH(EK_A, IK_B)        — ephemeral to identity
///   DH3 = DH(EK_A, SPK_B)       — ephemeral to signed prekey
///   DH4 = DH(EK_A, OPK_B)       — ephemeral to one-time prekey (optional)
pub open spec fn initiator_secret(
    identity: Seq<u8>,
    ephemeral: Seq<u8>,
    their_identity: Seq<u8>,
    their_signed_prekey: Seq<u8>,
    their_one_time_prekey: Option<Seq<u8>>,
) -> Seq<u8> {
    derived(
        primitives::x25519_shared_with(identity, their_signed_prekey),
        primitives::x25519_shared_with(ephemeral, their_identity),
        primitives::x25519_shared_with(ephemeral, their_signed_prekey),
        match their_one_time_prekey {
            Some(k) => Some(primitives::x25519_shared_with(ephemeral, k)),
            None => None,
        },
    )
}

/// The responder's secret:
///   DH1 = DH(SPK_B, IK_A)       — signed prekey to identity
///   DH2 = DH(IK_B, EK_A)        — identity to ephemeral
///   DH3 = DH(SPK_B, EK_A)       — signed prekey to ephemeral
///   DH4 = DH(OPK_B, EK_A)       — one-time prekey to ephemeral (optional)
pub open spec fn responder_secret(
    identity: Seq<u8>,
    signed_prekey: Seq<u8>,
    one_time_prekey: Option<Seq<u8>>,
    their_identity: Seq<u8>,
    their_ephemeral: Seq<u8>,
) -> Seq<u8> {
    derived(
        primitives::x25519_shared_with(signed_prekey, their_identity),
        primitives::x25519_shared_with(identity, their_ephemeral),
        primitives::x25519_shared_with(signed_prekey, their_ephemeral),
        match one_time_prekey {
            Some(k) => Some(primitives::x25519_shared_with(k, their_ephemeral)),
            None => None,
        },
    )
}

/// The public key of an optional secret.
pub open spec fn opt_public(secret: Option<Seq<u8>>) -> Option<Seq<u8>> {
    match secret {
        Some(s) => Some(primitives::x25519_public_of(s)),
        None => None,
    }
}

/// The bytes of an optional secret.
pub open spec fn opt_secret(secret: Option<&StaticSecret>) -> Option<Seq<u8>> {
    match secret {
        Some(s) => Some(s@),
        None => None,
    }
}

/// The bytes of an optional public key.
pub open spec fn opt_key(key: Option<&[u8; 32]>) -> Option<Seq<u8>> {
    match key {
        Some(k) => Some(k@),
        None => None,
    }
}

/// The secret that follows from the exchanges, which are wiped.
fn derive(
    mut dh1: [u8; 32],
    mut dh2: [u8; 32],
    mut dh3: [u8; 32],
    dh4: Option<[u8; 32]>,
) -> (r: [u8; 32])
    ensures
        r@ == derived(
            dh1@,
            dh2@,
            dh3@,
            match dh4 {
                Some(d) => Some(d@),
                None => None,
            },
        ),
{
    let mut material: Vec<u8> = Vec::with_capacity(160);
    material.resize(32, 0xff);
    assert(material@ =~= prefix());
    bytes::append(&mut material, dh1.as_slice());
    bytes::append(&mut material, dh2.as_slice());
    bytes::append(&mut material, dh3.as_slice());
    if let Some(mut d) = dh4 {
        bytes::append(&mut material, d.as_slice());
        primitives::wipe_array(&mut d);
    }
    let secret = primitives::hkdf(material.as_slice(), "ZeroSum_X3DH_SharedSecret".as_bytes());
    primitives::wipe_array(&mut dh1);
    primitives::wipe_array(&mut dh2);
    primitives::wipe_array(&mut dh3);
    primitives::wipe(&mut material);
    secret
}

/// Initiator performs X3DH, with a fresh ephemeral key.
pub fn x3dh_initiate(
    our_identity_secret: &StaticSecret,
    their_identity_public: &[u8; 32],
    their_signed_prekey: &[u8; 32],
    their_one_time_prekey: Option<&[u8; 32]>,
) -> (r: Result<X3dhInitResult, CryptoError>)
    ensures
        r matches Ok(x) && exists|ephemeral: Seq<u8>|
            ephemeral.len() == 32 && x.ephemeral_public@ == #[trigger] primitives::x25519_public_of(
                ephemeral,
            ) && x.shared_secret@ == initiator_secret(
                our_identity_secret@,
                ephemeral,
                their_identity_public@,
                their_signed_prekey@,
                opt_key(their_one_time_prekey),
            ),
{
    let ephemeral_secret = StaticSecret::random();
    x3dh_initiate_with(
        our_identity_secret,
        &ephemeral_secret,
        their_identity_public,
        their_signed_prekey,
        their_one_time_prekey,
    )
}

/// Initiator performs X3DH with a given ephemeral key.
pub fn x3dh_initiate_with(
    our_identity_secret: &StaticSecret,
    ephemeral_secret: &StaticSecret,
    their_identity_public: &[u8; 32],
    their_signed_prekey: &[u8; 32],
    their_one_time_prekey: Option<&[u8; 32]>,
) -> (r: Result<X3dhInitResult, CryptoError>)
    ensures
        r matches Ok(x) && x.ephemeral_public@ == primitives::x25519_public_of(ephemeral_secret@)
            && x.shared_secret@ == initiator_secret(
            our_identity_secret@,
            ephemeral_secret@,
            their_identity_public@,
            their_signed_prekey@,
            opt_key(their_one_time_prekey),
        ),
        r matches Ok(x) && x.shared_secret@ == primitives::hkdf_key(
            Seq::new(32, |i: int| 0xffu8) + primitives::x25519_shared_with(
                our_identity_secret@,
                their_signed_prekey@,
            ) + primitives::x25519_shared_with(
                ephemeral_secret@,
                their_identity_public@,
            ) + primitives::x25519_shared_with(
                ephemeral_secret@,
                their_signed_prekey@,
            ) + (match their_one_time_prekey {
                Some(k) => primitives::x25519_shared_with(ephemeral_secret@, k@),
                None => Seq::<u8>::empty(),
            }),
            encode_utf8("ZeroSum_X3DH_SharedSecret"@),
        ),
{
    proof {
        law_secret_comes_from_all_exchanges(
            our_identity_secret@,
            ephemeral_secret@,
            their_identity_public@,
            their_signed_prekey@,
            opt_key(their_one_time_prekey),
        );
    }
    let ephemeral_public = ephemeral_secret.public_key();
    let dh1 = our_identity_secret.diffie_hellman(their_signed_prekey);
    let dh2 = ephemeral_secret.diffie_hellman(their_identity_public);
    let dh3 = ephemeral_secret.diffie_hellman(their_signed_prekey);
    let dh4 = match their_one_time_prekey {
        Some(k) => Some(ephemeral_secret.diffie_hellman(k)),
        None => None,
    };
    Ok(
        X3dhInitResult {
            shared_secret: derive(dh1, dh2, dh3, dh4),
            ephemeral_public: *ephemeral_public.as_bytes(),
        },
    )
}

/// Responder performs X3DH. Whoever has initiated with this side's public keys,
/// and with the secrets behind the public keys that are given here, has
/// arrived at the same secret.
pub fn x3dh_respond(
    our_identity_secret: &StaticSecret,
    our_signed_prekey_secret: &StaticSecret,
    our_one_time_prekey_secret: Option<&StaticSecret>,
    their_identity_public: &[u8; 32],
    their_ephemeral_public: &[u8; 32],
) -> (r: Result<[u8; 32], CryptoError>)
    ensures
        r matches Ok(secret) && secret@ == responder_secret(
            our_identity_secret@,
            our_signed_prekey_secret@,
            opt_secret(our_one_time_prekey_secret),
            their_identity_public@,
            their_ephemeral_public@,
        ),
        forall|identity: Seq<u8>, ephemeral: Seq<u8>|
            identity.len() == 32 && ephemeral.len() == 32 && their_identity_public@
                == #[trigger] primitives::x25519_public_of(identity) && their_ephemeral_public@
                == #[trigger] primitives::x25519_public_of(ephemeral) ==> r->Ok_0@
                == initiator_secret(
                identity,
                ephemeral,
                primitives::x25519_public_of(our_identity_secret@),
                primitives::x25519_public_of(our_signed_prekey_secret@),
                opt_public(opt_secret(our_one_time_prekey_secret)),
            ),
        r matches Ok(secret) && secret@ == primitives::hkdf_key(
            Seq::new(32, |i: int| 0xffu8) + primitives::x25519_shared_with(
                our_signed_prekey_secret@,
                their_identity_public@,
            ) + primitives::x25519_shared_with(
                our_identity_secret@,
                their_ephemeral_public@,
            ) + primitives::x25519_shared_with(
                our_signed_prekey_secret@,
                their_ephemeral_public@,
            ) + (match our_one_time_prekey_secret {
                Some(s) => primitives::x25519_shared_with(s@, their_ephemeral_public@),
                None => Seq::<u8>::empty(),
            }),
            encode_utf8("ZeroSum_X3DH_SharedSecret"@),
        ),
{
    proof {
        law_answer_comes_from_all_exchanges(
            our_identity_secret@,
            our_signed_prekey_secret@,
            opt_secret(our_one_time_prekey_secret),
            their_identity_public@,
            their_ephemeral_public@,
        );
    }
    let dh1 = our_signed_prekey_secret.diffie_hellman(their_identity_public);
    let dh2 = our_identity_secret.diffie_hellman(their_ephemeral_public);
    let dh3 = our_signed_prekey_secret.diffie_hellman(their_ephemeral_public);
    let dh4 = match our_one_time_prekey_secret {
        Some(s) => Some(s.diffie_hellman(their_ephemeral_public)),
        None => None,
    };
    Ok(derive(dh1, dh2, dh3, dh4))
}

/// The X25519 secret that belongs to an Ed25519 secret key.
pub open spec fn x25519_secret(ed_secret: Seq<u8>) -> Seq<u8> {
    primitives::clamped(primitives::sha512_of(ed_secret))
}

/// The X25519 public key that stands for an Ed25519 public key: its
/// Montgomery form, or zeros where it is no point.
pub open spec fn x25519_identity(ed_pub: Seq<u8>) -> Seq<u8> {
    match primitives::montgomery_of(ed_pub) {
        Some(m) => m,
        None => Seq::new(32, |i: int| 0u8),
    }
}

/// Convert an Ed25519 public key to an X25519 public key for DH
/// (used because identity keys are Ed25519 but X3DH needs X25519). It belongs
/// to the secret that [`ed25519_secret_to_x25519`] gives for the secret key.
pub fn ed25519_pub_to_x25519(ed_pub: &[u8; 32]) -> (r: [u8; 32])
    ensures
        r@ == x25519_identity(ed_pub@),
        forall|ed_secret: Seq<u8>|
            ed_secret.len() == 32 && ed_pub@ == #[trigger] primitives::ed25519_public_of(ed_secret)
                ==> r@ == primitives::x25519_public_of(x25519_secret(ed_secret)),
{
    match primitives::montgomery(ed_pub) {
        Some(m) => m,
        None => {
            let zeros = [0u8;32];
            assert(zeros@ =~= Seq::new(32, |i: int| 0u8));
            zeros
        },
    }
}

/// Convert an Ed25519 secret key to an X25519 secret for DH
pub fn ed25519_secret_to_x25519(ed_secret: &[u8; 32]) -> (r: StaticSecret)
    ensures
        r@ == x25519_secret(ed_secret@),
        r@.len() == 32,
{
    let mut hash = primitives::sha512(ed_secret.as_slice());
    let mut secret = [0u8;32];
    for i in 0..32usize
        invariant
            hash@.len() == 64,
            forall|j: int| 0 <= j < i ==> secret@[j] == hash@[j],
    {
        secret[i] = hash[i];
    }
    secret[0] = secret[0] & 248;
    secret[31] = secret[31] & 127;
    secret[31] = secret[31] | 64;
    assert(secret@ =~= x25519_secret(ed_secret@));
    let r = StaticSecret::from_bytes(secret);
    primitives::wipe_array(&mut hash);
    primitives::wipe_array(&mut secret);
    r
}

// ── Laws ────────────────────────────────────────────────────

/// Every exchange enters the initiator's secret. It is derived from 32 bytes
/// 0xff and then, in a row, what the identity shares with the signed prekey,
/// what the ephemeral key shares with the identity and with the signed prekey,
/// and, where there is one, what it shares with the one-time prekey.
pub proof fn law_secret_comes_from_all_exchanges(
    identity: Seq<u8>,
    ephemeral: Seq<u8>,
    their_identity: Seq<u8>,
    their_signed_prekey: Seq<u8>,
    their_one_time_prekey: Option<Seq<u8>>,
)
    ensures
        initiator_secret(
            identity,
            ephemeral,
            their_identity,
            their_signed_prekey,
            their_one_time_prekey,
        ) == primitives::hkdf_key(
            Seq::new(32, |i: int| 0xffu8) + primitives::x25519_shared_with(
                identity,
                their_signed_prekey,
            ) + primitives::x25519_shared_with(ephemeral, their_identity)
                + primitives::x25519_shared_with(ephemeral, their_signed_prekey) + (
            match their_one_time_prekey {
                Some(k) => primitives::x25519_shared_with(ephemeral, k),
                None => Seq::<u8>::empty(),
            }),
            encode_utf8("ZeroSum_X3DH_SharedSecret"@),
        ),
{
    let three = Seq::new(32, |i: int| 0xffu8) + primitives::x25519_shared_with(
        identity,
        their_signed_prekey,
    ) + primitives::x25519_shared_with(ephemeral, their_identity) + primitives::x25519_shared_with(
        ephemeral,
        their_signed_prekey,
    );
    assert(prefix() =~= Seq::new(32, |i: int| 0xffu8));
    assert(three + Seq::<u8>::empty() =~= three);
}

/// Every exchange enters the responder's secret, in the same order.
pub proof fn law_answer_comes_from_all_exchanges(
    identity: Seq<u8>,
    signed_prekey: Seq<u8>,
    one_time_prekey: Option<Seq<u8>>,
    their_identity: Seq<u8>,
    their_ephemeral: Seq<u8>,
)
    ensures
        responder_secret(
            identity,
            signed_prekey,
            one_time_prekey,
            their_identity,
            their_ephemeral,
        ) == primitives::hkdf_key(
            Seq::new(32, |i: int| 0xffu8) + primitives::x25519_shared_with(
                signed_prekey,
                their_identity,
            ) + primitives::x25519_shared_with(identity, their_ephemeral)
                + primitives::x25519_shared_with(signed_prekey, their_ephemeral) + (
            match one_time_prekey {
                Some(k) => primitives::x25519_shared_with(k, their_ephemeral),
                None => Seq::<u8>::empty(),
            }),
            encode_utf8("ZeroSum_X3DH_SharedSecret"@),
        ),
{
    let three = Seq::new(32, |i: int| 0xffu8) + primitives::x25519_shared_with(
        signed_prekey,
        their_identity,
    ) + primitives::x25519_shared_with(identity, their_ephemeral) + primitives::x25519_shared_with(
        signed_prekey,
        their_ephemeral,
    );
    assert(prefix() =~= Seq::new(32, |i: int| 0xffu8));
    assert(three + Seq::<u8>::empty() =~= three);
}

/// The key material tells its exchanges apart: two agreements have the same
/// only if each exchange of one is that of the other. So whoever has another
/// identity, another prekey or another ephemeral key arrives somewhere else.
pub proof fn law_key_material_holds_every_exchange(
    a1: Seq<u8>,
    a2: Seq<u8>,
    a3: Seq<u8>,
    a4: Option<Seq<u8>>,
    b1: Seq<u8>,
    b2: Seq<u8>,
    b3: Seq<u8>,
    b4: Option<Seq<u8>>,
)
    requires
        a1.len() == 32 && a2.len() == 32 && a3.len() == 32,
        b1.len() == 32 && b2.len() == 32 && b3.len() == 32,
        a4 matches Some(d) ==> d.len() == 32,
        b4 matches Some(d) ==> d.len() == 32,
    ensures
        key_material(a1, a2, a3, a4) == key_material(b1, b2, b3, b4) <==> (a1 == b1 && a2 == b2
            && a3 == b3 && a4 == b4),
        key_material(a1, a2, a3, a4).take(32) == Seq::new(32, |i: int| 0xffu8),
        derived(a1, a2, a3, a4) == primitives::hkdf_key(
            key_material(a1, a2, a3, a4),
            encode_utf8("ZeroSum_X3DH_SharedSecret"@),
        ),
{
    let a = key_material(a1, a2, a3, a4);
    let b = key_material(b1, b2, b3, b4);
    assert(a.take(32) =~= Seq::new(32, |i: int| 0xffu8));
    if a == b {
        assert(a.subrange(32, 64) =~= a1 && b.subrange(32, 64) =~= b1);
        assert(a.subrange(64, 96) =~= a2 && b.subrange(64, 96) =~= b2);
        assert(a.subrange(96, 128) =~= a3 && b.subrange(96, 128) =~= b3);
        assert(a4 is Some <==> b4 is Some);
        if a4 is Some {
            assert(a.subrange(128, 160) =~= a4->Some_0 && b.subrange(128, 160) =~= b4->Some_0);
        }
    }
}

/// The identity key that a responder is given decides on the secret: where two
/// keys give another exchange with its signed prekey, the key material is
/// another one.
pub proof fn law_answer_depends_on_the_identity(
    identity: Seq<u8>,
    signed_prekey: Seq<u8>,
    one_time_prekey: Option<Seq<u8>>,
    their_identity: Seq<u8>,
    other_identity: Seq<u8>,
    their_ephemeral: Seq<u8>,
)
    requires
        primitives::x25519_shared_with(signed_prekey, their_identity)
            != primitives::x25519_shared_with(signed_prekey, other_identity),
        primitives::x25519_shared_with(signed_prekey, their_identity).len() == 32,
        primitives::x25519_shared_with(signed_prekey, other_identity).len() == 32,
    ensures
        exists|a: Seq<u8>, b: Seq<u8>|
            a != b && responder_secret(
                identity,
                signed_prekey,
                one_time_prekey,
                their_identity,
                their_ephemeral,
            ) == #[trigger] primitives::hkdf_key(
                a,
                encode_utf8("ZeroSum_X3DH_SharedSecret"@),
            ) && responder_secret(
                identity,
                signed_prekey,
                one_time_prekey,
                other_identity,
                their_ephemeral,
            ) == #[trigger] primitives::hkdf_key(
                b,
                encode_utf8("ZeroSum_X3DH_SharedSecret"@),
            ),
{
    let dh2 = primitives::x25519_shared_with(identity, their_ephemeral);
    let dh3 = primitives::x25519_shared_with(signed_prekey, their_ephemeral);
    let dh4 = match one_time_prekey {
        Some(k) => Some(primitives::x25519_shared_with(k, their_ephemeral)),
        None => None,
    };
    let first = primitives::x25519_shared_with(signed_prekey, their_identity);
    let second = primitives::x25519_shared_with(signed_prekey, other_identity);
    let a = key_material(first, dh2, dh3, dh4);
    let b = key_material(second, dh2, dh3, dh4);
    assert(a.subrange(32, 64) =~= first);
    assert(b.subrange(32, 64) =~= second);
    let purpose = encode_utf8("ZeroSum_X3DH_SharedSecret"@);
    assert(primitives::hkdf_key(a, purpose) == derived(first, dh2, dh3, dh4));
    assert(primitives::hkdf_key(b, purpose) == derived(second, dh2, dh3, dh4));
}

/// An identity key is used for exchanges in its other form: the secret is the
/// first half of its digest, with the lowest three bits and the highest bit
/// cleared and the second highest set, and everything else kept.
pub proof fn law_identity_secret_is_its_digest(ed_secret: Seq<u8>, i: int)
    requires
        0 <= i < 32,
    ensures
        x25519_secret(ed_secret).len() == 32,
        0 < i < 31 ==> x25519_secret(ed_secret)[i] == primitives::sha512_of(ed_secret)[i],
        x25519_secret(ed_secret)[0] % 8 == 0,
        x25519_secret(ed_secret)[0] / 8 == primitives::sha512_of(ed_secret)[0] / 8,
        64 <= x25519_secret(ed_secret)[31] < 128,
        x25519_secret(ed_secret)[31] % 64 == primitives::sha512_of(ed_secret)[31] % 64,
{
    let low = primitives::sha512_of(ed_secret)[0];
    let high = primitives::sha512_of(ed_secret)[31];
    assert((low & 248) % 8 == 0 && (low & 248) / 8 == low / 8) by (bit_vector);
    assert(64 <= ((high & 127) | 64) < 128 && ((high & 127) | 64) % 64 == high % 64)
        by (bit_vector);
}

/// What an identity shows as its key for exchanges is the Montgomery form of
/// its public key.
pub proof fn law_identity_key_is_its_montgomery_form(ed_pub: Seq<u8>)
    ensures
        primitives::montgomery_of(ed_pub) matches Some(m) ==> x25519_identity(ed_pub) == m,
        primitives::montgomery_of(ed_pub) is None ==> x25519_identity(ed_pub) == Seq::new(
            32,
            |i: int| 0u8,
        ),
{
}

/// A prekey counts as signed exactly if the identity key accepts the signature
/// of this very prekey; keys and signatures of other lengths never do.
pub proof fn law_prekey_needs_its_signature(
    identity: Seq<u8>,
    prekey: Seq<u8>,
    signature: Seq<u8>,
)
    ensures
        identity.len() == 32 && signature.len() == 64 ==> prekey_signed(identity, prekey, signature)
            == primitives::ed25519_accepts(identity, prekey, signature),
        identity.len() != 32 || signature.len() != 64 ==> !prekey_signed(
            identity,
            prekey,
            signature,
        ),
{
}

} // verus!
