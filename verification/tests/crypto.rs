use zerosum::crypto::encrypt::{decrypt_with_key, encrypt_with_key, hash_password, open, seal};
use zerosum::crypto::fingerprint::{hex_fingerprint, safety_number};
use zerosum::crypto::identity::{decrypt_blob, encrypt_blob, encrypt_blob_with, Identity};
use zerosum::crypto::keys::{SigningKey, StaticSecret};
use zerosum::crypto::ratchet::{RatchetState, SessionRatchet};
use zerosum::crypto::store::SessionStore;
use zerosum::crypto::x3dh::{
    ed25519_pub_to_x25519, ed25519_secret_to_x25519, x3dh_initiate, x3dh_initiate_with,
    x3dh_respond,
};
use zerosum::crypto::CryptoError;

fn unhex(s: &str) -> Vec<u8> {
    (0..s.len() / 2).map(|i| u8::from_str_radix(&s[2 * i..2 * i + 2], 16).unwrap()).collect()
}

fn key(s: &str) -> [u8; 32] {
    unhex(s).try_into().unwrap()
}

// ── Safety numbers ──────────────────────────────────────────

#[test]
fn test_safety_number_symmetric() {
    let key_a = [1u8; 32];
    let key_b = [2u8; 32];

    let sn1 = safety_number(&key_a, &key_b);
    let sn2 = safety_number(&key_b, &key_a);

    // Must be identical regardless of order
    assert_eq!(sn1, sn2);

    // Must be 12 groups of 5 digits
    let groups: Vec<&str> = sn1.split(' ').collect();
    assert_eq!(groups.len(), 12);
    for g in groups {
        assert_eq!(g.len(), 5);
        assert!(g.chars().all(|c| c.is_ascii_digit()));
    }
}

#[test]
fn safety_number_has_its_exact_digits() {
    assert_eq!(
        safety_number(&[1u8; 32], &[2u8; 32]),
        "13708 45966 28948 37175 41953 60047 56466 02621 05239 00303 07332 63352"
    );
}

#[test]
fn safety_number_differs_for_other_keys() {
    assert_ne!(safety_number(&[1u8; 32], &[2u8; 32]), safety_number(&[1u8; 32], &[3u8; 32]));
}

#[test]
fn fingerprint_is_in_groups_of_four_bytes() {
    assert_eq!(hex_fingerprint(&[]), "");
    assert_eq!(hex_fingerprint(&[0x0a]), "0A");
    assert_eq!(hex_fingerprint(&[1, 2, 3, 0xff]), "010203FF");
    assert_eq!(hex_fingerprint(&[1, 2, 3, 4, 0xab, 0xcd]), "01020304 ABCD");
    assert_eq!(hex_fingerprint(&[0; 9]), "00000000 00000000 00");
}

// ── Identities and blobs ────────────────────────────────────

#[test]
fn test_identity_roundtrip() {
    let id = Identity::generate(10);
    let enc = id.encrypt_to_bytes("testpass").unwrap();
    let dec = Identity::decrypt_from_bytes("testpass", &enc).unwrap();
    assert_eq!(id.identity_public_key(), dec.identity_public_key());
}

#[test]
fn test_wrong_password() {
    let id = Identity::generate(5);
    let enc = id.encrypt_to_bytes("correct").unwrap();
    assert!(Identity::decrypt_from_bytes("wrong", &enc).is_err());
}

#[test]
fn test_blob_encrypt_decrypt() {
    let data = b"sensitive data here";
    let enc = encrypt_blob("password123", data).unwrap();
    let dec = decrypt_blob("password123", &enc).unwrap();
    assert_eq!(dec, data);
}

#[test]
fn blob_has_salt_nonce_and_tag() {
    let enc = encrypt_blob_with("pw", &[1; 16], &[2; 24], b"abc").unwrap();
    assert_eq!(enc.len(), 16 + 24 + 3 + 16);
    assert_eq!(&enc[..16], &[1; 16]);
    assert_eq!(&enc[16..40], &[2; 24]);
    assert_ne!(&enc[40..43], b"abc");
    // the same salt, nonce and password give the same blob
    assert_eq!(enc, encrypt_blob_with("pw", &[1; 16], &[2; 24], b"abc").unwrap());
    // another salt gives another key
    let other = encrypt_blob_with("pw", &[3; 16], &[2; 24], b"abc").unwrap();
    assert_ne!(&enc[40..], &other[40..]);
}

#[test]
fn blob_is_fresh_every_time() {
    let a = encrypt_blob("pw", b"abc").unwrap();
    let b = encrypt_blob("pw", b"abc").unwrap();
    assert_ne!(a, b);
}

#[test]
fn blob_errors() {
    let e = decrypt_blob("pw", &[0; 39]).unwrap_err();
    assert_eq!(e.message(), "Encrypted data too short");
    let e = decrypt_blob("pw", &[0; 60]).unwrap_err();
    assert_eq!(e.message(), "Decryption failed — wrong password or corrupt data");
    let mut enc = encrypt_blob("pw", b"abc").unwrap();
    let last = enc.len() - 1;
    enc[last] ^= 1;
    assert!(matches!(decrypt_blob("pw", &enc), Err(CryptoError::BlobRejected)));
}

#[test]
fn blob_without_an_identity_is_refused() {
    let enc = encrypt_blob("pw", b"no identity").unwrap();
    let e = Identity::decrypt_from_bytes("pw", &enc).err().unwrap();
    assert_eq!(e.message(), "deserialize identity");
}

#[test]
fn error_texts() {
    assert_eq!(CryptoError::BlobTooLong.message(), "Encryption failed: aead::Error");
    assert_eq!(CryptoError::PasswordTooLong.message(), "Argon2 error: password is too long");
    assert_eq!(CryptoError::RatchetEncryptionFailed.message(), "Ratchet encryption failed");
    assert_eq!(CryptoError::EncryptionFailed.message(), "Encryption failed");
    assert_eq!(CryptoError::NoStore("x".to_string()).message(), "x");
}

#[test]
fn identity_keeps_all_its_keys() {
    let id = Identity::generate(3);
    assert_eq!(id.signing_key_bytes.len(), 32);
    assert_eq!(id.one_time_prekey_secrets.len(), 3);
    assert_eq!(id.next_otpk_index, 3);
    assert!(id.has_valid_keys());
    let enc = id.encrypt_to_bytes("pw").unwrap();
    let dec = Identity::decrypt_from_bytes("pw", &enc).unwrap();
    assert_eq!(id.signing_key_bytes, dec.signing_key_bytes);
    assert_eq!(id.signed_prekey_secret, dec.signed_prekey_secret);
    assert_eq!(id.one_time_prekey_secrets, dec.one_time_prekey_secrets);
    assert_eq!(id.next_otpk_index, dec.next_otpk_index);
}

#[test]
fn identity_with_a_short_key_is_not_valid() {
    let mut id = Identity::generate(1);
    id.one_time_prekey_secrets[0].pop();
    assert!(!id.has_valid_keys());
}

#[test]
fn more_prekeys_are_added_at_the_end() {
    let mut id = Identity::generate(2);
    let before = id.otpk_publics();
    let new = id.generate_more_otpks(3);
    assert_eq!(new.len(), 3);
    assert_eq!(id.next_otpk_index, 5);
    let all = id.otpk_publics();
    assert_eq!(&all[..2], &before[..]);
    assert_eq!(&all[2..], &new[..]);
    let last = id.otpk_secret_at(4).unwrap();
    assert_eq!(last.public_key().as_bytes().to_vec(), new[2]);
    assert!(id.otpk_secret_at(5).is_none());
}

#[test]
fn identity_consists_of_its_secrets() {
    let otpks = vec![StaticSecret::from_bytes([3; 32]), StaticSecret::from_bytes([4; 32])];
    let mut id = Identity::from_secrets(
        &SigningKey::from_bytes([1; 32]),
        &StaticSecret::from_bytes([2; 32]),
        &otpks,
    );
    assert_eq!(id.signing_key_bytes, vec![1; 32]);
    assert_eq!(id.signed_prekey_secret, vec![2; 32]);
    assert_eq!(id.one_time_prekey_secrets, vec![vec![3; 32], vec![4; 32]]);
    assert_eq!(id.next_otpk_index, 2);
    let more = StaticSecret::from_bytes([5; 32]);
    let public = more.public_key().as_bytes().to_vec();
    assert_eq!(id.add_otpks(&vec![more]), vec![public]);
    assert_eq!(id.one_time_prekey_secrets[2], vec![5; 32]);
    assert_eq!(id.next_otpk_index, 3);
}

#[test]
fn drawn_keys_differ() {
    let mut id = Identity::generate(2);
    id.generate_more_otpks(2);
    let mut keys = id.one_time_prekey_secrets.clone();
    keys.push(id.signing_key_bytes.clone());
    keys.push(id.signed_prekey_secret.clone());
    keys.sort();
    keys.dedup();
    assert_eq!(keys.len(), 6);
}

#[test]
fn prekey_is_signed_by_the_identity() {
    let id = Identity {
        signing_key_bytes: unhex("9d61b19deffd5a60ba844af492ec2cc44449c5697b326919703bac031cae7f60"),
        signed_prekey_secret: vec![7; 32],
        one_time_prekey_secrets: vec![],
        next_otpk_index: 0,
    };
    assert_eq!(
        id.identity_public_key(),
        unhex("d75a980182b10ab7d54bfed3c964073a0ee172f3daa62325af021a68f707511a")
    );
    let direct = id.signing_key().sign(id.spk_public().as_bytes());
    assert_eq!(id.sign_spk(), direct.to_vec());
    assert_eq!(id.sign_spk().len(), 64);
}

// ── Keys ────────────────────────────────────────────────────

#[test]
fn ed25519_known_signature() {
    let k = SigningKey::from_bytes(key(
        "9d61b19deffd5a60ba844af492ec2cc44449c5697b326919703bac031cae7f60",
    ));
    assert_eq!(
        k.verifying_key().to_bytes().to_vec(),
        unhex("d75a980182b10ab7d54bfed3c964073a0ee172f3daa62325af021a68f707511a")
    );
    assert_eq!(
        k.sign(b"").to_vec(),
        unhex(
            "e5564300c360ac729086e2cc806e828a84877f1eb8e5d974d873e065224901555fb8821590a33bacc61e39701cf9b46bd25bf5f0595bbe24655141438e7a100b"
        )
    );
}

#[test]
fn x25519_known_exchange() {
    let a = StaticSecret::from_bytes([1; 32]);
    let b = StaticSecret::from_bytes([9; 32]);
    assert_eq!(a.public_key().as_bytes(), &key("a4e09292b651c278b9772c569f5fa9bb13d906b46ab68c9df9dc2b4409f8a209"));
    assert_eq!(b.public_key().as_bytes(), &key("57db4b359f23ae5e146e4e2512056704722506348c150c14753d0c933d04d421"));
    let shared = key("634375b91f57de547bb24e6475f7f89fb24cbaead41002ee0183622090ed5931");
    assert_eq!(a.diffie_hellman(b.public_key().as_bytes()), shared);
    assert_eq!(b.diffie_hellman(a.public_key().as_bytes()), shared);
}

#[test]
fn random_secrets_differ() {
    assert_ne!(StaticSecret::random().to_bytes(), StaticSecret::random().to_bytes());
    assert_ne!(SigningKey::random().to_bytes(), SigningKey::random().to_bytes());
}

// ── Encryption ──────────────────────────────────────────────

#[test]
fn encrypt_with_key_roundtrip() {
    let k = [3u8; 32];
    let (ct, nonce) = encrypt_with_key(&k, b"hello").unwrap();
    assert_eq!(ct.len(), 5 + 16);
    assert_ne!(&ct[..5], b"hello");
    assert_eq!(decrypt_with_key(&k, &ct, &nonce).unwrap(), b"hello");
    assert_eq!(
        decrypt_with_key(&[4u8; 32], &ct, &nonce).unwrap_err().message(),
        "Decryption failed"
    );
    assert!(decrypt_with_key(&k, &ct[..10], &nonce).is_err());
}

#[test]
fn seal_depends_on_key_nonce_and_text() {
    let c = seal(&[1; 32], &[2; 24], b"text").unwrap();
    assert_eq!(c, seal(&[1; 32], &[2; 24], b"text").unwrap());
    assert_ne!(c, seal(&[9; 32], &[2; 24], b"text").unwrap());
    assert_ne!(c, seal(&[1; 32], &[9; 24], b"text").unwrap());
    assert_ne!(c, seal(&[1; 32], &[2; 24], b"texT").unwrap());
    assert_eq!(open(&[1; 32], &[2; 24], &c), Some(b"text".to_vec()));
    assert_eq!(open(&[1; 32], &[3; 24], &c), None);
}

#[test]
fn password_hash_has_its_exact_bytes() {
    assert_eq!(
        hash_password("hunter2"),
        unhex("32a954fcec8a3175cf51bc721a8e436f05036d0955a8b6f37822ea425dcdf4ba")
    );
    assert_ne!(hash_password("hunter2"), hash_password("hunter3"));
}

// ── Ratchet ─────────────────────────────────────────────────

#[test]
fn test_ratchet_encrypt_decrypt() {
    let shared_secret = [42u8; 32];

    let mut alice = SessionRatchet::new(&shared_secret, true);
    let mut bob = SessionRatchet::new(&shared_secret, false);

    let message = b"hello from alice";
    let (ct, nonce) = alice.encrypt(message).unwrap();
    let pt = bob.decrypt(&ct, &nonce).unwrap();
    assert_eq!(pt, message);

    let message2 = b"hello from bob";
    let (ct2, nonce2) = bob.encrypt(message2).unwrap();
    let pt2 = alice.decrypt(&ct2, &nonce2).unwrap();
    assert_eq!(pt2, message2);
}

#[test]
fn test_ratchet_forward_secrecy() {
    let shared_secret = [42u8; 32];
    let mut alice = SessionRatchet::new(&shared_secret, true);
    let mut bob = SessionRatchet::new(&shared_secret, false);

    // Send multiple messages, each with unique key
    let (ct1, n1) = alice.encrypt(b"msg1").unwrap();
    let (ct2, n2) = alice.encrypt(b"msg2").unwrap();

    let p1 = bob.decrypt(&ct1, &n1).unwrap();
    let p2 = bob.decrypt(&ct2, &n2).unwrap();

    assert_eq!(p1, b"msg1");
    assert_eq!(p2, b"msg2");
}

#[test]
fn message_keys_have_their_exact_bytes() {
    let mut chain = RatchetState::from_shared_secret(&[42u8; 32], true);
    assert_eq!(chain.counter, 0);
    assert_eq!(
        chain.next_message_key().unwrap(),
        key("516de682b13c8c739814a75b0b7d946c94a41251d5b1a31c0178cb12dce9b712")
    );
    assert_eq!(
        chain.next_message_key().unwrap(),
        key("2da110c21cc63b534434ccc28c21763ae421451544bfa64d343a2d939ff66ba8")
    );
    assert_eq!(chain.counter, 2);
}

#[test]
fn chains_of_the_two_roles_cross() {
    let mut a = RatchetState::from_shared_secret(&[1u8; 32], true);
    let mut b = RatchetState::from_shared_secret(&[1u8; 32], false);
    assert_ne!(a.next_message_key().unwrap(), b.next_message_key().unwrap());
}

#[test]
fn unreadable_message_still_moves_the_chain() {
    let mut alice = SessionRatchet::new(&[5u8; 32], true);
    let mut bob = SessionRatchet::new(&[5u8; 32], false);
    let (ct, nonce) = alice.encrypt(b"one").unwrap();
    let e = bob.decrypt(&ct, &nonce[..23]).unwrap_err();
    assert_eq!(e.message(), "Invalid nonce length");
    assert_eq!(bob.recv_chain.counter, 1);
    let e = bob.decrypt(&ct, &nonce).unwrap_err();
    assert_eq!(e.message(), "Ratchet decryption failed — session may be out of sync");
    assert_eq!(bob.recv_chain.counter, 2);
    assert_eq!(alice.send_chain.counter, 1);
}

#[test]
fn cloned_session_goes_on_by_itself() {
    let mut alice = SessionRatchet::new(&[5u8; 32], true);
    let mut copy = alice.clone();
    let a = alice.encrypt_with(b"x", [0; 24]).unwrap();
    let b = copy.encrypt_with(b"x", [0; 24]).unwrap();
    assert_eq!(a, b);
}

// ── Key agreement ───────────────────────────────────────────

#[test]
fn test_x3dh_roundtrip() {
    let alice = Identity::generate(5);
    let bob = Identity::generate(5);

    // Convert Ed25519 identity keys to X25519 for X3DH
    let alice_x_secret =
        ed25519_secret_to_x25519(&alice.signing_key_bytes.as_slice().try_into().unwrap());
    let bob_ik_pub_bytes: [u8; 32] = bob.identity_public_key().try_into().unwrap();
    let bob_x_pub = ed25519_pub_to_x25519(&bob_ik_pub_bytes);
    let bob_spk_pub: [u8; 32] = bob.spk_public().as_bytes().clone();
    let bob_otpk_pub: [u8; 32] = bob.otpk_publics()[0].clone().try_into().unwrap();

    let init_result =
        x3dh_initiate(&alice_x_secret, &bob_x_pub, &bob_spk_pub, Some(&bob_otpk_pub)).unwrap();

    // Bob responds
    let alice_ik_pub_bytes: [u8; 32] = alice.identity_public_key().try_into().unwrap();
    let alice_x_pub = ed25519_pub_to_x25519(&alice_ik_pub_bytes);
    let bob_x_secret =
        ed25519_secret_to_x25519(&bob.signing_key_bytes.as_slice().try_into().unwrap());
    let bob_otpk_secret = bob.otpk_secret_at(0).unwrap();

    let shared_secret = x3dh_respond(
        &bob_x_secret,
        &bob.spk_secret(),
        Some(&bob_otpk_secret),
        &alice_x_pub,
        &init_result.ephemeral_public,
    )
    .unwrap();

    assert_eq!(init_result.shared_secret, shared_secret);
}

#[test]
fn agreement_without_a_one_time_prekey() {
    let (a, b, s, e) = (
        StaticSecret::from_bytes([1; 32]),
        StaticSecret::from_bytes([2; 32]),
        StaticSecret::from_bytes([3; 32]),
        StaticSecret::from_bytes([4; 32]),
    );
    let init =
        x3dh_initiate_with(&a, &e, b.public_key().as_bytes(), s.public_key().as_bytes(), None)
            .unwrap();
    assert_eq!(&init.ephemeral_public, e.public_key().as_bytes());
    let resp =
        x3dh_respond(&b, &s, None, a.public_key().as_bytes(), &init.ephemeral_public).unwrap();
    assert_eq!(init.shared_secret, resp);
    let with = x3dh_respond(&b, &s, Some(&b), a.public_key().as_bytes(), &init.ephemeral_public)
        .unwrap();
    assert_ne!(with, resp);
}

#[test]
fn ed25519_secret_is_hashed_and_clamped() {
    let s = ed25519_secret_to_x25519(&key(
        "9d61b19deffd5a60ba844af492ec2cc44449c5697b326919703bac031cae7f60",
    ));
    assert_eq!(
        s.to_bytes(),
        key("307c83864f2833cb427a2ef1c00a013cfdff2768d980c0a3a520f006904de94f")
    );
}

#[test]
fn ed25519_public_key_belongs_to_the_secret() {
    let sk = SigningKey::from_bytes([6; 32]);
    let public = ed25519_pub_to_x25519(&sk.verifying_key().to_bytes());
    let secret = ed25519_secret_to_x25519(&[6; 32]);
    assert_eq!(&public, secret.public_key().as_bytes());
}

#[test]
fn no_point_gives_zeros() {
    let mut bad = [0u8; 32];
    bad[0] = 2;
    assert_eq!(ed25519_pub_to_x25519(&bad), [0u8; 32]);
}

// ── Session store ───────────────────────────────────────────

#[test]
fn store_holds_sessions_by_peer() {
    let mut store = SessionStore::new();
    assert!(!store.has_session("bob"));
    assert_eq!(store.count(), 0);
    store.put_session("bob".to_string(), SessionRatchet::new(&[1; 32], true));
    store.put_session("eve".to_string(), SessionRatchet::new(&[2; 32], true));
    assert!(store.has_session("bob"));
    assert!(store.get_session("eve").is_some());
    assert_eq!(store.peers().len(), 2);
    store.get_session_mut("bob").unwrap().encrypt(b"x").unwrap();
    assert_eq!(store.get_session("bob").unwrap().send_chain.counter, 1);
    assert_eq!(store.get_session("eve").unwrap().send_chain.counter, 0);
    store.put_session("bob".to_string(), SessionRatchet::new(&[3; 32], true));
    assert_eq!(store.get_session("bob").unwrap().send_chain.counter, 0);
    assert_eq!(store.count(), 2);
    assert!(store.remove_session("bob").is_some());
    assert!(store.remove_session("bob").is_none());
    assert!(store.get_session_mut("bob").is_none());
    store.purge();
    assert!(store.peers().is_empty());
}

#[test]
fn store_is_loaded_as_it_was_saved() {
    let mut store = SessionStore::new();
    let mut alice = SessionRatchet::new(&[1; 32], true);
    let mut bob = SessionRatchet::new(&[1; 32], false);
    alice.encrypt(b"first").unwrap();
    bob.recv_chain.next_message_key().unwrap();
    store.put_session("bob".to_string(), alice);
    store.put_session("eve".to_string(), SessionRatchet::new(&[2; 32], false));
    let data = store.save("pw").unwrap();
    let mut loaded = SessionStore::load(&data, "pw").unwrap();
    assert_eq!(loaded.count(), 2);
    let session = loaded.get_session_mut("bob").unwrap();
    assert_eq!(session.send_chain.counter, 1);
    assert!(session.established);
    let (ct, nonce) = session.encrypt(b"second").unwrap();
    assert_eq!(bob.decrypt(&ct, &nonce).unwrap(), b"second");
}

#[test]
fn store_with_another_password_starts_fresh() {
    let mut store = SessionStore::new();
    store.put_session("bob".to_string(), SessionRatchet::new(&[1; 32], true));
    let data = store.save("pw").unwrap();
    assert!(matches!(SessionStore::load(&data, "other"), Err(CryptoError::BlobRejected)));
    let (fresh, corrupt) = SessionStore::load_or_new(Some(data.clone()), "other");
    assert!(corrupt && fresh.count() == 0);
    let (same, corrupt) = SessionStore::load_or_new(Some(data), "pw");
    assert!(!corrupt && same.has_session("bob"));
    let (none, corrupt) = SessionStore::load_or_new(None, "pw");
    assert!(!corrupt && none.count() == 0);
}

#[test]
fn store_that_is_no_store_is_refused() {
    let data = encrypt_blob("pw", b"xyz").unwrap();
    assert!(matches!(SessionStore::load(&data, "pw"), Err(CryptoError::NoStore(_))));
}

#[test]
fn store_has_its_path() {
    assert_eq!(SessionStore::default_path("/data"), "/data/sessions.enc");
    assert_eq!(SessionStore::default_path("/data/"), "/data/sessions.enc");
    assert_eq!(SessionStore::default_path(""), "sessions.enc");
}
