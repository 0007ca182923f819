//! Double Ratchet — simplified Signal-style message ratchet.
//!
//! Provides forward secrecy per message: each message has a key of its own,
//! and the chain that it came from moves on. Keys are wiped once they have been
//! used.

use vstd::prelude::*;
use vstd::utf8::*;

use crate::bytes;
use crate::crypto::encrypt;
use crate::crypto::primitives;
use crate::crypto::CryptoError;
use crate::text;

verus! {

/// A symmetric ratchet state for one direction of communication
#[derive(Debug)]
pub struct RatchetState {
    /// Current chain key (32 bytes)
    chain_key: Vec<u8>,
    /// Message counter
    pub counter: u32,
}

/// The view of a [`RatchetState`].
#[verifier::ext_equal]
pub ghost struct ChainView {
    pub chain_key: Seq<u8>,
    pub counter: u32,
}

impl View for RatchetState {
    type V = ChainView;

    closed spec fn view(&self) -> ChainView {
        ChainView { chain_key: self.chain_key@, counter: self.counter }
    }
}

impl Drop for RatchetState {
    fn drop(&mut self)
        ensures
            final(self)@.chain_key.len() == 0,
        opens_invariants none
        no_unwind
    {
        primitives::wipe(&mut self.chain_key);
    }
}

impl Clone for RatchetState {
    fn clone(&self) -> (r: RatchetState)
        ensures
            r@ == self@,
    {
        RatchetState {
            chain_key: bytes::copy_bytes(self.chain_key.as_slice()),
            counter: self.counter,
        }
    }
}

/// The first chain key of a direction. The chain that the initiator sends on
/// is the one that the responder receives on.
pub open spec fn first_chain(secret: Seq<u8>, is_initiator: bool) -> ChainView {
    ChainView {
        chain_key: primitives::hkdf_key(
            secret,
            encode_utf8(
                if is_initiator {
                    "ZeroSum_SendChain"@
                } else {
                    "ZeroSum_RecvChain"@
                },
            ),
        ),
        counter: 0,
    }
}

/// The key of the next message of a chain.
pub open spec fn message_key(chain: ChainView) -> Seq<u8> {
    primitives::hkdf_key(chain.chain_key, encode_utf8("ZeroSum_MsgKey"@))
}

/// The chain after its next message.
pub open spec fn advanced(chain: ChainView) -> ChainView {
    ChainView {
        chain_key: primitives::hkdf_key(chain.chain_key, encode_utf8("ZeroSum_ChainKey"@)),
        counter: (chain.counter + 1) as u32,
    }
}

impl RatchetState {
    /// The chain with a given key and counter.
    pub(crate) fn from_parts(chain_key: Vec<u8>, counter: u32) -> (r: RatchetState)
        ensures
            r@ == (ChainView { chain_key: chain_key@, counter }),
    {
        RatchetState { chain_key, counter }
    }

    /// The chain key.
    pub(crate) fn chain_key(&self) -> (r: &Vec<u8>)
        ensures
            r@ == self@.chain_key,
    {
        &self.chain_key
    }

    /// The message counter.
    pub(crate) fn counter(&self) -> (r: u32)
        ensures
            r == self@.counter,
    {
        self.counter
    }

    /// Initialize from a shared secret
    pub fn from_shared_secret(secret: &[u8; 32], is_initiator: bool) -> (r: RatchetState)
        ensures
            r@ == first_chain(secret@, is_initiator),
    {
        let purpose = if is_initiator {
            "ZeroSum_SendChain"
        } else {
            "ZeroSum_RecvChain"
        };
        let mut key = primitives::hkdf(secret.as_slice(), purpose.as_bytes());
        let chain_key = bytes::copy_bytes(key.as_slice());
        primitives::wipe_array(&mut key);
        RatchetState { chain_key, counter: 0 }
    }

    /// Derive the next message key and advance the chain
    pub fn next_message_key(&mut self) -> (r: Result<[u8; 32], CryptoError>)
        requires
            old(self)@.counter < u32::MAX,
        ensures
            final(self)@ == advanced(old(self)@),
            r matches Ok(key) && key@ == message_key(old(self)@),
    {
        let key = primitives::hkdf(self.chain_key.as_slice(), "ZeroSum_MsgKey".as_bytes());
        let mut next = primitives::hkdf(self.chain_key.as_slice(), "ZeroSum_ChainKey".as_bytes());
        primitives::wipe(&mut self.chain_key);
        self.chain_key = bytes::copy_bytes(next.as_slice());
        primitives::wipe_array(&mut next);
        self.counter = self.counter + 1;
        Ok(key)
    }
}

/// Session ratchet combining send and receive chains
#[derive(Debug)]
pub struct SessionRatchet {
    pub send_chain: RatchetState,
    pub recv_chain: RatchetState,
    pub established: bool,
}

/// The view of a [`SessionRatchet`].
#[verifier::ext_equal]
pub ghost struct SessionView {
    pub send: ChainView,
    pub recv: ChainView,
    pub established: bool,
}

impl View for SessionRatchet {
    type V = SessionView;

    open spec fn view(&self) -> SessionView {
        SessionView {
            send: self.send_chain@,
            recv: self.recv_chain@,
            established: self.established,
        }
    }
}

impl Clone for SessionRatchet {
    fn clone(&self) -> (r: SessionRatchet)
        ensures
            r@ == self@,
    {
        SessionRatchet {
            send_chain: self.send_chain.clone(),
            recv_chain: self.recv_chain.clone(),
            established: self.established,
        }
    }
}

/// A session that has just been agreed on.
pub open spec fn new_session(secret: Seq<u8>, is_initiator: bool) -> SessionView {
    SessionView {
        send: first_chain(secret, is_initiator),
        recv: first_chain(secret, !is_initiator),
        established: true,
    }
}

/// What a session reads from a message, before its chain moves on.
pub open spec fn received(
    session: SessionView,
    ciphertext: Seq<u8>,
    nonce: Seq<u8>,
) -> Result<Seq<u8>, CryptoError> {
    if nonce.len() != 24 {
        Err(CryptoError::InvalidNonceLength)
    } else {
        match encrypt::opened(message_key(session.recv), nonce, ciphertext) {
            Some(plaintext) => Ok(plaintext),
            None => Err(CryptoError::RatchetDecryptionFailed),
        }
    }
}

/// `receiver` is ready for the next message of `sender`.
pub open spec fn in_step(sender: SessionView, receiver: SessionView) -> bool {
    sender.send == receiver.recv
}

/// The session after it has sent a message.
pub open spec fn after_send(session: SessionView) -> SessionView {
    SessionView { send: advanced(session.send), ..session }
}

/// The session after it has received a message, readable or not.
pub open spec fn after_receive(session: SessionView) -> SessionView {
    SessionView { recv: advanced(session.recv), ..session }
}

impl SessionRatchet {
    /// Create a new session from an X3DH shared secret
    pub fn new(shared_secret: &[u8; 32], is_initiator: bool) -> (r: SessionRatchet)
        ensures
            r@ == new_session(shared_secret@, is_initiator),
    {
        SessionRatchet {
            send_chain: RatchetState::from_shared_secret(shared_secret, is_initiator),
            recv_chain: RatchetState::from_shared_secret(shared_secret, !is_initiator),
            established: true,
        }
    }

    /// Encrypt a message using the send ratchet. A receiver that is in step
    /// reads the message back.
    pub fn encrypt(&mut self, plaintext: &[u8]) -> (r: Result<(Vec<u8>, Vec<u8>), CryptoError>)
        requires
            old(self)@.send.counter < u32::MAX,
        ensures
            final(self)@ == after_send(old(self)@),
            match r {
                Ok((ciphertext, nonce)) => {
                    &&& plaintext@.len() <= primitives::MAX_PLAINTEXT
                    &&& nonce@.len() == 24
                    &&& ciphertext@ == primitives::xchacha_sealed(
                        message_key(old(self)@.send),
                        nonce@,
                        plaintext@,
                    )
                    &&& forall|receiver: SessionView| #[trigger]
                        in_step(old(self)@, receiver) ==> received(receiver, ciphertext@, nonce@)
                            == Ok::<Seq<u8>, CryptoError>(plaintext@)
                },
                Err(e) => plaintext@.len() > primitives::MAX_PLAINTEXT && e
                    == CryptoError::RatchetEncryptionFailed,
            },
    {
        let nonce = primitives::random_nonce();
        self.encrypt_with(plaintext, nonce)
    }

    /// Encrypt a message with a given nonce.
    pub fn encrypt_with(&mut self, plaintext: &[u8], nonce: [u8; 24]) -> (r: Result<
        (Vec<u8>, Vec<u8>),
        CryptoError,
    >)
        requires
            old(self)@.send.counter < u32::MAX,
        ensures
            final(self)@ == after_send(old(self)@),
            match r {
                Ok((ciphertext, n)) => {
                    &&& plaintext@.len() <= primitives::MAX_PLAINTEXT
                    &&& n@ == nonce@
                    &&& ciphertext@ == primitives::xchacha_sealed(
                        message_key(old(self)@.send),
                        nonce@,
                        plaintext@,
                    )
                    &&& forall|receiver: SessionView| #[trigger]
                        in_step(old(self)@, receiver) ==> received(receiver, ciphertext@, n@)
                            == Ok::<Seq<u8>, CryptoError>(plaintext@)
                },
                Err(e) => plaintext@.len() > primitives::MAX_PLAINTEXT && e
                    == CryptoError::RatchetEncryptionFailed,
            },
    {
        let mut key = match self.send_chain.next_message_key() {
            Ok(key) => key,
            Err(e) => return Err(e),
        };
        let sealed = encrypt::seal(&key, &nonce, plaintext);
        primitives::wipe_array(&mut key);
        match sealed {
            Some(ciphertext) => Ok((ciphertext, bytes::copy_bytes(nonce.as_slice()))),
            None => Err(CryptoError::RatchetEncryptionFailed),
        }
    }

    /// Decrypt a message using the receive ratchet. The chain moves on whether
    /// or not the message could be read.
    pub fn decrypt(&mut self, ciphertext: &[u8], nonce: &[u8]) -> (r: Result<Vec<u8>, CryptoError>)
        requires
            old(self)@.recv.counter < u32::MAX,
        ensures
            final(self)@ == after_receive(old(self)@),
            match r {
                Ok(p) => received(old(self)@, ciphertext@, nonce@) == Ok::<Seq<u8>, CryptoError>(
                    p@,
                ),
                Err(e) => received(old(self)@, ciphertext@, nonce@) == Err::<Seq<u8>, CryptoError>(
                    e,
                ),
            },
    {
        let mut key = match self.recv_chain.next_message_key() {
            Ok(key) => key,
            Err(e) => return Err(e),
        };
        if nonce.len() != 24 {
            primitives::wipe_array(&mut key);
            return Err(CryptoError::InvalidNonceLength);
        }
        let opened = encrypt::open(&key, &bytes::to_array24(nonce), ciphertext);
        primitives::wipe_array(&mut key);
        match opened {
            Some(plaintext) => Ok(plaintext),
            None => Err(CryptoError::RatchetDecryptionFailed),
        }
    }
}

/// The two sides of a fresh session are in step in both directions.
pub proof fn law_new_sessions_are_in_step(secret: Seq<u8>)
    ensures
        in_step(new_session(secret, true), new_session(secret, false)),
        in_step(new_session(secret, false), new_session(secret, true)),
{
}

/// Sessions stay in step as long as every message that is sent is also
/// received, in order. The other direction is not touched.
pub proof fn law_sessions_stay_in_step(sender: SessionView, receiver: SessionView)
    requires
        in_step(sender, receiver),
    ensures
        in_step(after_send(sender), after_receive(receiver)),
        after_send(sender).recv == sender.recv,
        after_receive(receiver).send == receiver.send,
{
}

/// A chain after `n` messages.
pub open spec fn advanced_by(chain: ChainView, n: nat) -> ChainView
    decreases n,
{
    if n == 0 {
        chain
    } else {
        advanced(advanced_by(chain, (n - 1) as nat))
    }
}

/// A session after it has sent `n` messages.
pub open spec fn after_sends(session: SessionView, n: nat) -> SessionView {
    SessionView { send: advanced_by(session.send, n), ..session }
}

/// A session after it has received `n` messages.
pub open spec fn after_receives(session: SessionView, n: nat) -> SessionView {
    SessionView { recv: advanced_by(session.recv, n), ..session }
}

/// A chain counts its messages: after `n` messages the counter is higher by
/// `n`.
pub proof fn law_counter_counts_messages(chain: ChainView, n: nat)
    requires
        chain.counter + n <= u32::MAX,
    ensures
        advanced_by(chain, n).counter == chain.counter + n,
    decreases n,
{
    if n > 0 {
        law_counter_counts_messages(chain, (n - 1) as nat);
    }
}

/// Each direction of a session has a chain of its own, derived from the shared
/// secret for that direction: what the initiator sends on is for sending, what
/// it receives on is for receiving, and the responder has them the other way
/// round. Both begin at zero.
pub proof fn law_session_has_two_chains(secret: Seq<u8>)
    ensures
        ({
            let forth = primitives::hkdf_key(secret, encode_utf8("ZeroSum_SendChain"@));
            let back = primitives::hkdf_key(secret, encode_utf8("ZeroSum_RecvChain"@));
            let initiator = new_session(secret, true);
            let responder = new_session(secret, false);
            &&& initiator.send.chain_key == forth && initiator.recv.chain_key == back
            &&& responder.send.chain_key == back && responder.recv.chain_key == forth
            &&& initiator.send.counter == 0 && initiator.recv.counter == 0
            &&& responder.send.counter == 0 && responder.recv.counter == 0
            &&& initiator.established && responder.established
            &&& encode_utf8("ZeroSum_SendChain"@) != encode_utf8("ZeroSum_RecvChain"@)
        }),
{
    reveal_strlit("ZeroSum_SendChain");
    reveal_strlit("ZeroSum_RecvChain");
    assert("ZeroSum_SendChain"@[8] == 'S');
    assert("ZeroSum_RecvChain"@[8] == 'R');
    if encode_utf8("ZeroSum_SendChain"@) == encode_utf8("ZeroSum_RecvChain"@) {
        text::lemma_utf8_injective("ZeroSum_SendChain"@, "ZeroSum_RecvChain"@);
    }
}

/// Every message has a key of its own, and a chain never uses the key that it
/// goes on with: both come from the chain key, each for its own purpose.
pub proof fn law_message_keys_leave_the_chain(chain: ChainView)
    requires
        chain.counter < u32::MAX,
    ensures
        message_key(chain) == primitives::hkdf_key(
            chain.chain_key,
            encode_utf8("ZeroSum_MsgKey"@),
        ),
        advanced(chain).chain_key == primitives::hkdf_key(
            chain.chain_key,
            encode_utf8("ZeroSum_ChainKey"@),
        ),
        advanced(chain).counter == chain.counter + 1,
        encode_utf8("ZeroSum_MsgKey"@) != encode_utf8("ZeroSum_ChainKey"@),
{
    reveal_strlit("ZeroSum_MsgKey");
    reveal_strlit("ZeroSum_ChainKey");
    assert("ZeroSum_MsgKey"@.len() == 14);
    assert("ZeroSum_ChainKey"@.len() == 16);
    if encode_utf8("ZeroSum_MsgKey"@) == encode_utf8("ZeroSum_ChainKey"@) {
        text::lemma_utf8_injective("ZeroSum_MsgKey"@, "ZeroSum_ChainKey"@);
    }
}

/// Sending moves the sending chain on by one message, and receiving the other
/// one. Nothing else of a session changes, whether or not the message could be
/// read.
pub proof fn law_session_moves_on_by_one(session: SessionView)
    requires
        session.send.counter < u32::MAX,
        session.recv.counter < u32::MAX,
    ensures
        after_send(session).send.counter == session.send.counter + 1,
        after_send(session).send.chain_key == primitives::hkdf_key(
            session.send.chain_key,
            encode_utf8("ZeroSum_ChainKey"@),
        ),
        after_send(session).recv == session.recv,
        after_receive(session).recv.counter == session.recv.counter + 1,
        after_receive(session).recv.chain_key == primitives::hkdf_key(
            session.recv.chain_key,
            encode_utf8("ZeroSum_ChainKey"@),
        ),
        after_receive(session).send == session.send,
        after_send(session).established == session.established,
        after_receive(session).established == session.established,
{
}

/// A session reads a message with the key of its receiving chain: what the
/// cipher opens with that key and the nonce is what is read, and what it does
/// not open is refused. A nonce of another length is refused at once.
pub proof fn law_messages_are_opened_with_the_receiving_chain(
    session: SessionView,
    ciphertext: Seq<u8>,
    nonce: Seq<u8>,
)
    requires
        ciphertext.len() <= primitives::MAX_PLAINTEXT + primitives::TAG_LEN,
    ensures
        nonce.len() != 24 ==> received(session, ciphertext, nonce) == Err::<Seq<u8>, CryptoError>(
            CryptoError::InvalidNonceLength,
        ),
        nonce.len() == 24 ==> {
            let key = primitives::hkdf_key(session.recv.chain_key, encode_utf8("ZeroSum_MsgKey"@));
            match primitives::xchacha_opened(key, nonce, ciphertext) {
                Some(plaintext) => received(session, ciphertext, nonce) == Ok::<
                    Seq<u8>,
                    CryptoError,
                >(plaintext),
                None => received(session, ciphertext, nonce) == Err::<Seq<u8>, CryptoError>(
                    CryptoError::RatchetDecryptionFailed,
                ),
            }
        },
{
}

/// Being in step is about the chain itself: the receiver waits for the next
/// message of the sender with the key and the count that the sender has.
pub proof fn law_in_step_shares_the_chain(sender: SessionView, receiver: SessionView)
    ensures
        in_step(sender, receiver) <==> sender.send.chain_key == receiver.recv.chain_key
            && sender.send.counter == receiver.recv.counter,
        in_step(sender, receiver) ==> message_key(sender.send) == message_key(receiver.recv),
{
}

/// After `n` messages the chain is the one that `n` single steps lead to.
pub proof fn law_chain_goes_step_by_step(session: SessionView, n: nat)
    ensures
        after_sends(session, 0) == session,
        after_receives(session, 0) == session,
        after_sends(session, n + 1) == after_send(after_sends(session, n)),
        after_receives(session, n + 1) == after_receive(after_receives(session, n)),
{
}

} // verus!
