//! The secure channel: key agreement, sealing and opening of frames, and the
//! replay defence of a session.
//!
//! Bytes travel over a stream that someone else reads and writes; a
//! `SecureChannel` holds what a session knows (its key, the message ids it
//! has accepted and its timestamp window) and turns payloads into frames and
//! frame bodies back into payloads.

use vstd::prelude::*;

use std::collections::HashSet;

use crate::primitives::{
    aead_open, aead_seal, hkdf_sha256, opt_bytes, os_random_bytes, unix_time_ms, x25519,
    hkdf_sha256_32, x25519_of, xchacha_open, xchacha_seal,
};
use crate::wire::{
    be_bytes, be_decode, be_nat, encode_frame, encode_plaintext, frame_bytes,
    lemma_be_nat_bound, lemma_pow256_16, plaintext_bytes, pow256, HEADER_LEN, NONCE_LEN,
};

verus! {

broadcast use vstd::std_specs::hash::group_hash_axioms;

/// Length of private keys, public keys and session keys.
pub const KEY_LEN: usize = 32;

/// How far, in milliseconds, a message's timestamp may lie from the
/// receiver's clock.
pub const DEFAULT_TIMESTAMP_WINDOW_MS: u128 = 500;

/// The label that key derivation mixes in; it names the protocol, its
/// version and the timestamp window, and reads
/// "verge-self-service-ipc/v1 xchacha20poly1305 window=500ms" in ASCII.
pub const KEY_INFO: [u8; 56] = [
    118, 101, 114, 103, 101, 45, 115, 101, 108, 102, 45, 115, 101, 114, 118, 105, 99, 101, 45,
    105, 112, 99, 47, 118, 49, 32, 120, 99, 104, 97, 99, 104, 97, 50, 48, 112, 111, 108, 121,
    49, 51, 48, 53, 32, 119, 105, 110, 100, 111, 119, 61, 53, 48, 48, 109, 115,
];

/// The curve's base point, as the X25519 function takes it.
pub const X25519_BASEPOINT: [u8; 32] = [
    9, 0, 0, 0, 0, 0, 0, 0, 0, 0, 0, 0, 0, 0, 0, 0, 0, 0, 0, 0, 0, 0, 0, 0, 0, 0, 0, 0, 0, 0, 0, 0,
];

/// Why a frame was not accepted. Every one of these ends the session.
#[derive(Debug, Clone, Copy, PartialEq, Eq, Structural)]
pub enum ChannelError {
    /// The frame body is shorter than a nonce.
    ShortFrame,
    /// The tag did not authenticate the ciphertext under the session key.
    Decrypt,
    /// The plaintext is shorter than its timestamp and message id.
    ShortPlaintext,
    /// The timestamp is older than the window allows.
    Stale,
    /// The timestamp lies further ahead than the window allows.
    Future,
    /// The message id was already accepted in this session.
    Replayed,
    /// The local clock could not be read.
    Clock,
}

/// What a serving session does with a frame body it has read.
#[derive(Debug)]
pub enum SessionStep {
    /// The frame is refused: close the session and send no answer.
    Close(ChannelError),
    /// The frame is accepted and carries this request payload.
    Request(Vec<u8>),
}

/// The public key that belongs to a private key.
pub open spec fn public_key_of(secret: Seq<u8>) -> Seq<u8> {
    x25519_of(secret, X25519_BASEPOINT@)
}

/// The session key both ends derive: HKDF-SHA256 over the Diffie-Hellman
/// secret, salted with the pre-shared key when there is one.
pub open spec fn session_key(secret: Seq<u8>, peer_public: Seq<u8>, psk: Option<Seq<u8>>) -> Seq<u8> {
    hkdf_sha256_32(psk, x25519_of(secret, peer_public), KEY_INFO@)
}

/// What the tag check yields for a frame body: the plaintext, or `None` when
/// the body is not a valid AEAD ciphertext under `key`.
pub open spec fn frame_plaintext(key: Seq<u8>, body: Seq<u8>) -> Option<Seq<u8>> {
    if body.len() < NONCE_LEN {
        None
    } else {
        xchacha_open(key, body.take(NONCE_LEN as int), body.skip(NONCE_LEN as int))
    }
}

/// The timestamp that a plaintext carries.
pub open spec fn plaintext_timestamp(pt: Seq<u8>) -> nat {
    be_nat(pt.take(16))
}

/// The message id that a plaintext carries.
pub open spec fn plaintext_message_id(pt: Seq<u8>) -> u64 {
    be_nat(pt.subrange(16, 24)) as u64
}

/// Whether a timestamp lies within `window` of `now`, in either direction.
pub open spec fn within_window(timestamp: nat, now: nat, window: nat) -> bool {
    &&& now - timestamp <= window
    &&& timestamp - now <= window
}

/// What a session makes of a plaintext that arrived at `now`: its message id
/// and payload, or why it is refused.
pub open spec fn accept(seen: Set<u64>, window: nat, pt: Seq<u8>, now: nat) -> Result<(u64, Seq<u8>), ChannelError> {
    if pt.len() < HEADER_LEN {
        Err(ChannelError::ShortPlaintext)
    } else if now - plaintext_timestamp(pt) > window {
        Err(ChannelError::Stale)
    } else if plaintext_timestamp(pt) - now > window {
        Err(ChannelError::Future)
    } else if seen.contains(plaintext_message_id(pt)) {
        Err(ChannelError::Replayed)
    } else {
        Ok((plaintext_message_id(pt), pt.skip(HEADER_LEN as int)))
    }
}

/// What receiving one frame body yields: the accepted message id and
/// payload, or why the frame is refused.
pub open spec fn receive(key: Seq<u8>, seen: Set<u64>, window: nat, body: Seq<u8>, now: nat) -> Result<
    (u64, Seq<u8>),
    ChannelError,
> {
    if body.len() < NONCE_LEN {
        Err(ChannelError::ShortFrame)
    } else {
        match frame_plaintext(key, body) {
            None => Err(ChannelError::Decrypt),
            Some(pt) => accept(seen, window, pt, now),
        }
    }
}

/// The ids a session has seen after one frame, given those before it.
pub open spec fn seen_after(key: Seq<u8>, seen: Set<u64>, window: nat, body: Seq<u8>, now: nat) -> Set<u64> {
    match receive(key, seen, window, body, now) {
        Ok((id, _)) => seen.insert(id),
        Err(_) => seen,
    }
}

/// The frame that carries `payload` with the given timestamp, id and nonce.
pub open spec fn sealed_frame(key: Seq<u8>, timestamp: nat, id: nat, nonce: Seq<u8>, payload: Seq<u8>) -> Seq<u8> {
    frame_bytes(nonce, xchacha_seal(key, nonce, plaintext_bytes(timestamp, id, payload)))
}

/// A fresh private key from the operating system's generator; `None` when
/// the generator fails.
pub fn generate_secret() -> (r: Option<Vec<u8>>)
    ensures
        r matches Some(k) ==> k@.len() == KEY_LEN,
{
    os_random_bytes(KEY_LEN)
}

/// The public key that belongs to a private key; it is what each end sends
/// in the handshake.
pub fn public_key(secret: &[u8]) -> (r: Vec<u8>)
    requires
        secret@.len() == KEY_LEN,
    ensures
        r@ == public_key_of(secret@),
        r@.len() == KEY_LEN,
{
    let base = X25519_BASEPOINT;
    x25519(secret, base.as_slice())
}

/// The state of one side of an established session.
pub struct SecureChannel {
    key: Vec<u8>,
    seen_ids: HashSet<u64>,
    timestamp_window: u128,
}

impl SecureChannel {
    /// The session key.
    pub closed spec fn key(&self) -> Seq<u8> {
        self.key@
    }

    /// The message ids accepted so far.
    pub closed spec fn seen(&self) -> Set<u64> {
        self.seen_ids@
    }

    /// The timestamp window in milliseconds.
    pub closed spec fn window(&self) -> nat {
        self.timestamp_window as nat
    }

    pub closed spec fn wf(&self) -> bool {
        self.key@.len() == KEY_LEN
    }

    /// A session keyed by `key`, with nothing seen yet and the default window.
    pub fn new(key: Vec<u8>) -> (r: SecureChannel)
        requires
            key@.len() == KEY_LEN,
        ensures
            r.wf(),
            r.key() == key@,
            r.seen() == Set::<u64>::empty(),
            r.window() == DEFAULT_TIMESTAMP_WINDOW_MS,
    {
        SecureChannel { key, seen_ids: HashSet::new(), timestamp_window: DEFAULT_TIMESTAMP_WINDOW_MS }
    }

    /// Completes a handshake: given this side's private key and the public
    /// key the peer sent, derives the session key. Both roles derive the same
    /// key from the same pair of key pairs and the same pre-shared key.
    pub fn handshake(secret: &[u8], peer_public: &[u8], psk: Option<&[u8]>) -> (r: SecureChannel)
        requires
            secret@.len() == KEY_LEN,
            peer_public@.len() == KEY_LEN,
        ensures
            r.wf(),
            r.key() == session_key(secret@, peer_public@, opt_bytes(psk)),
            r.seen() == Set::<u64>::empty(),
            r.window() == DEFAULT_TIMESTAMP_WINDOW_MS,
    {
        let shared = x25519(secret, peer_public);
        let info = KEY_INFO;
        let key = hkdf_sha256(psk, shared.as_slice(), info.as_slice());
        match key {
            Some(k) => SecureChannel::new(k),
            None => {
                proof {
                    assert(false);
                }
                SecureChannel::new(vec![0u8; KEY_LEN])
            },
        }
    }

    /// Seals `payload` into a whole frame with the given timestamp, message
    /// id and nonce. `None` only when the frame would be too long to frame.
    pub fn seal_with(&self, timestamp_ms: u128, message_id: u64, nonce: &[u8], payload: &[u8]) -> (r:
        Option<Vec<u8>>)
        requires
            self.wf(),
            nonce@.len() == NONCE_LEN,
        ensures
            r matches Some(f) ==> f@ == sealed_frame(
                self.key(),
                timestamp_ms as nat,
                message_id as nat,
                nonce@,
                payload@,
            ),
            r matches Some(f) ==> f@.len() == 68 + payload@.len(),
            payload@.len() + HEADER_LEN + 16 + NONCE_LEN < pow256(4) ==> r is Some,
            payload@.len() + HEADER_LEN + 16 + NONCE_LEN >= pow256(4) ==> r is None,
    {
        let plaintext = encode_plaintext(timestamp_ms, message_id, payload);
        let cipher = aead_seal(self.key.as_slice(), nonce, plaintext.as_slice());
        proof {
            crate::wire::lemma_be_bytes_len(timestamp_ms as nat, 16);
            crate::wire::lemma_be_bytes_len(message_id as nat, 8);
            crate::wire::lemma_pow256_4();
            crate::wire::lemma_be_bytes_len((NONCE_LEN + payload@.len() + HEADER_LEN + 16) as nat, 4);
        }
        match cipher {
            Some(c) => encode_frame(nonce, c.as_slice()),
            None => None,
        }
    }

    /// Seals `payload` into a whole frame stamped with the current time, a
    /// random message id and a random nonce.
    pub fn seal(&self, payload: &[u8]) -> (r: Option<Vec<u8>>)
        requires
            self.wf(),
        ensures
            r matches Some(f) ==> exists|ts: nat, id: nat, nonce: Seq<u8>|
                nonce.len() == NONCE_LEN && f@ == #[trigger] sealed_frame(
                    self.key(),
                    ts,
                    id,
                    nonce,
                    payload@,
                ),
            r matches Some(f) ==> f@.len() == 68 + payload@.len(),
            payload@.len() + HEADER_LEN + 16 + NONCE_LEN >= pow256(4) ==> r is None,
    {
        let now = match unix_time_ms() {
            Some(t) => t,
            None => return None,
        };
        let id_bytes = match os_random_bytes(8) {
            Some(b) => b,
            None => return None,
        };
        let id = be_decode(id_bytes.as_slice(), 0, 8);
        proof {
            lemma_be_nat_bound(id_bytes@.subrange(0, 8));
            reveal_with_fuel(pow256, 9);
        }
        let nonce = match os_random_bytes(NONCE_LEN) {
            Some(n) => n,
            None => return None,
        };
        self.seal_with(now, id as u64, nonce.as_slice(), payload)
    }

    /// Opens a frame body received at time `now_ms`: checks the tag, the
    /// layout of the plaintext, the timestamp window and the message id, and
    /// records the id when the frame is accepted.
    pub fn open_at(&mut self, body: &[u8], now_ms: u128) -> (r: Result<Vec<u8>, ChannelError>)
        requires
            old(self).wf(),
        ensures
            final(self).wf(),
            final(self).key() == old(self).key(),
            final(self).window() == old(self).window(),
            final(self).seen() == seen_after(
                old(self).key(),
                old(self).seen(),
                old(self).window(),
                body@,
                now_ms as nat,
            ),
            match receive(old(self).key(), old(self).seen(), old(self).window(), body@, now_ms as nat) {
                Ok((_, p)) => r matches Ok(v) && v@ == p,
                Err(e) => r == Err::<Vec<u8>, ChannelError>(e),
            },
    {
        if body.len() < NONCE_LEN {
            return Err(ChannelError::ShortFrame);
        }
        let nonce = &body[0..NONCE_LEN];
        let cipher = &body[NONCE_LEN..body.len()];
        proof {
            assert(nonce@ =~= body@.take(NONCE_LEN as int));
            assert(cipher@ =~= body@.skip(NONCE_LEN as int));
        }
        let plaintext = match aead_open(self.key.as_slice(), nonce, cipher) {
            Some(p) => p,
            None => return Err(ChannelError::Decrypt),
        };
        self.accept_plaintext(plaintext.as_slice(), now_ms)
    }

    /// Checks a decrypted plaintext that arrived at `now_ms`: its layout, the
    /// timestamp window and the message id, and records the id when the
    /// plaintext is accepted. Returns the payload.
    pub fn accept_plaintext(&mut self, plaintext: &[u8], now_ms: u128) -> (r: Result<Vec<u8>, ChannelError>)
        requires
            old(self).wf(),
        ensures
            final(self).wf(),
            final(self).key() == old(self).key(),
            final(self).window() == old(self).window(),
            final(self).seen() == match accept(old(self).seen(), old(self).window(), plaintext@, now_ms as nat) {
                Ok((id, _)) => old(self).seen().insert(id),
                Err(_) => old(self).seen(),
            },
            match accept(old(self).seen(), old(self).window(), plaintext@, now_ms as nat) {
                Ok((_, p)) => r matches Ok(v) && v@ == p,
                Err(e) => r == Err::<Vec<u8>, ChannelError>(e),
            },
    {
        if plaintext.len() < HEADER_LEN {
            return Err(ChannelError::ShortPlaintext);
        }
        let ts = be_decode(plaintext, 0, 16);
        let id128 = be_decode(plaintext, 16, 24);
        proof {
            assert(plaintext@.subrange(0, 16) =~= plaintext@.take(16));
            lemma_be_nat_bound(plaintext@.subrange(16, 24));
            reveal_with_fuel(pow256, 9);
        }
        let id = id128 as u64;
        if now_ms >= ts {
            if now_ms - ts > self.timestamp_window {
                return Err(ChannelError::Stale);
            }
        } else if ts - now_ms > self.timestamp_window {
            return Err(ChannelError::Future);
        }
        if !self.seen_ids.insert(id) {
            return Err(ChannelError::Replayed);
        }
        let mut payload: Vec<u8> = Vec::new();
        payload.extend_from_slice(&plaintext[HEADER_LEN..plaintext.len()]);
        proof {
            assert(payload@ =~= plaintext@.skip(HEADER_LEN as int));
        }
        Ok(payload)
    }

    /// Opens a frame body against the current time; see `open_at`.
    pub fn open(&mut self, body: &[u8]) -> (r: Result<Vec<u8>, ChannelError>)
        requires
            old(self).wf(),
        ensures
            final(self).wf(),
            final(self).key() == old(self).key(),
            final(self).window() == old(self).window(),
            frame_plaintext(old(self).key(), body@) is None ==> r is Err && final(self).seen()
                == old(self).seen(),
            r is Err ==> final(self).seen() == old(self).seen(),
            r matches Ok(v) ==> exists|now: nat| #[trigger]
                receive(old(self).key(), old(self).seen(), old(self).window(), body@, now) matches Ok(
                    (id, p),
                ) && p == v@ && final(self).seen() == old(self).seen().insert(id),
    {
        match unix_time_ms() {
            Some(now) => self.open_at(body, now),
            None => Err(ChannelError::Clock),
        }
    }

    /// The serving side's step on a frame body: a frame that is refused for
    /// any reason (not a valid ciphertext under the session key, malformed,
    /// stale, from the future, replayed) closes the session without an
    /// answer; an accepted one hands its payload on.
    pub fn next_request(&mut self, body: &[u8]) -> (r: SessionStep)
        requires
            old(self).wf(),
        ensures
            final(self).wf(),
            final(self).key() == old(self).key(),
            final(self).window() == old(self).window(),
            frame_plaintext(old(self).key(), body@) is None ==> r is Close,
            r is Close ==> final(self).seen() == old(self).seen(),
            r matches SessionStep::Request(v) ==> exists|now: nat| #[trigger]
                receive(old(self).key(), old(self).seen(), old(self).window(), body@, now) matches Ok(
                    (id, p),
                ) && p == v@ && final(self).seen() == old(self).seen().insert(id),
    {
        match self.open(body) {
            Ok(p) => SessionStep::Request(p),
            Err(e) => SessionStep::Close(e),
        }
    }
}

/// The ids a session has seen, and the ids it accepted in order, after a
/// sequence of frame bodies, each with the time it arrived.
pub open spec fn run_session(key: Seq<u8>, seen: Set<u64>, window: nat, frames: Seq<(Seq<u8>, nat)>) -> (
    Set<u64>,
    Seq<u64>,
)
    decreases frames.len(),
{
    if frames.len() == 0 {
        (seen, Seq::empty())
    } else {
        let (before, ids) = run_session(key, seen, window, frames.drop_last());
        let (body, now) = frames.last();
        match receive(key, before, window, body, now) {
            Ok((id, _)) => (before.insert(id), ids.push(id)),
            Err(_) => (before, ids),
        }
    }
}

/// A frame body that is not a valid AEAD ciphertext under the session key is
/// refused, whatever its content and arrival time, and leaves the session's
/// seen ids as they were; the refusal ends the session.
pub proof fn lemma_invalid_frame_refused(key: Seq<u8>, seen: Set<u64>, window: nat, body: Seq<u8>, now: nat)
    requires
        frame_plaintext(key, body) is None,
    ensures
        receive(key, seen, window, body, now) is Err,
        seen_after(key, seen, window, body, now) == seen,
{
}

/// A message whose timestamp is older than the window allows is refused as
/// stale, whatever its id.
pub proof fn lemma_stale_message_refused(key: Seq<u8>, seen: Set<u64>, window: nat, body: Seq<u8>, now: nat)
    requires
        frame_plaintext(key, body) matches Some(pt) && pt.len() >= HEADER_LEN && now
            - plaintext_timestamp(pt) > window,
    ensures
        receive(key, seen, window, body, now) == Err::<(u64, Seq<u8>), ChannelError>(
            ChannelError::Stale,
        ),
{
}

/// Within one session no message id is accepted twice: over any sequence of
/// frames, the accepted ids are distinct, none was seen before, and the seen
/// set grows by exactly them.
pub proof fn lemma_no_id_accepted_twice(key: Seq<u8>, seen: Set<u64>, window: nat, frames: Seq<(Seq<u8>, nat)>)
    ensures
        run_session(key, seen, window, frames).1.no_duplicates(),
        forall|i: int|
            0 <= i < run_session(key, seen, window, frames).1.len() ==> !seen.contains(
                #[trigger] run_session(key, seen, window, frames).1[i],
            ),
        run_session(key, seen, window, frames).0 == seen + run_session(key, seen, window, frames).1.to_set(),
    decreases frames.len(),
{
    let (after, ids) = run_session(key, seen, window, frames);
    if frames.len() == 0 {
        assert(ids.to_set() =~= Set::<u64>::empty());
        assert(after =~= seen + ids.to_set());
    } else {
        let prefix = frames.drop_last();
        lemma_no_id_accepted_twice(key, seen, window, prefix);
        let (before, ids0) = run_session(key, seen, window, prefix);
        let (body, now) = frames.last();
        match receive(key, before, window, body, now) {
            Ok((id, _)) => {
                assert(!before.contains(id));
                assert(ids == ids0.push(id));
                assert forall|i: int| 0 <= i < ids0.len() implies ids0[i] != id by {
                    assert(ids0.to_set().contains(ids0[i]));
                }
                assert(ids.to_set() =~= ids0.to_set().insert(id)) by {
                    assert forall|x: u64| ids.to_set().contains(x) <==> ids0.to_set().insert(id).contains(x) by {
                        if ids.to_set().contains(x) {
                            let k = choose|k: int| 0 <= k < ids.len() && ids[k] == x;
                            if k < ids0.len() {
                                assert(ids0[k] == x);
                            }
                        }
                        if ids0.to_set().contains(x) {
                            let k = choose|k: int| 0 <= k < ids0.len() && ids0[k] == x;
                            assert(ids[k] == x);
                        }
                        if x == id {
                            assert(ids[ids0.len() as int] == x);
                        }
                    }
                }
                assert(after =~= seen + ids.to_set());
                assert forall|i: int, j: int| 0 <= i < ids.len() && 0 <= j < ids.len() && i != j implies ids[i]
                    != ids[j] by {
                    if i < ids0.len() && j < ids0.len() {
                        assert(ids0[i] != ids0[j]);
                    }
                }
                assert forall|i: int| 0 <= i < ids.len() implies !seen.contains(#[trigger] ids[i]) by {
                    if i < ids0.len() {
                        assert(ids[i] == ids0[i]);
                    }
                }
            },
            Err(_) => {},
        }
    }
}

/// A plaintext laid out as `encode_plaintext` lays it out is accepted by a
/// session that has not seen its id, when it arrives within the window: the
/// session gets back exactly the id and payload that were sent.
pub proof fn lemma_plaintext_round_trip(
    seen: Set<u64>,
    window: nat,
    timestamp: u128,
    id: u64,
    payload: Seq<u8>,
    now: nat,
)
    requires
        !seen.contains(id),
        within_window(timestamp as nat, now, window),
    ensures
        accept(seen, window, plaintext_bytes(timestamp as nat, id as nat, payload), now) == Ok::<
            (u64, Seq<u8>),
            ChannelError,
        >((id, payload)),
{
    let a = be_bytes(timestamp as nat, 16);
    let b = be_bytes(id as nat, 8);
    let pt = plaintext_bytes(timestamp as nat, id as nat, payload);
    lemma_pow256_16();
    reveal_with_fuel(pow256, 9);
    crate::wire::lemma_be_round_trip(timestamp as nat, 16);
    crate::wire::lemma_be_round_trip(id as nat, 8);
    assert(pt.take(16) =~= a);
    assert(pt.subrange(16, 24) =~= b);
    assert(pt.skip(HEADER_LEN as int) =~= payload);
}

} // verus!
