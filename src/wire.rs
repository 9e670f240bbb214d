//! Big-endian integers and the two byte layouts of the secure channel: the
//! length-prefixed frame and the timestamped plaintext inside it.

use vstd::prelude::*;

verus! {

/// Length of the random nonce that opens every frame body.
pub const NONCE_LEN: usize = 24;

/// Length of the timestamp and message id that open every plaintext.
pub const HEADER_LEN: usize = 24;

/// `256` to the power `n`.
pub open spec fn pow256(n: nat) -> nat
    decreases n,
{
    if n == 0 {
        1
    } else {
        256 * pow256((n - 1) as nat)
    }
}

/// The number that a byte string denotes, most significant byte first.
pub open spec fn be_nat(s: Seq<u8>) -> nat
    decreases s.len(),
{
    if s.len() == 0 {
        0
    } else {
        be_nat(s.drop_last()) * 256 + s.last() as nat
    }
}

/// The `n` low-order bytes of `x`, most significant first.
pub open spec fn be_bytes(x: nat, n: nat) -> Seq<u8>
    decreases n,
{
    if n == 0 {
        Seq::empty()
    } else {
        be_bytes(x / 256, (n - 1) as nat).push((x % 256) as u8)
    }
}

/// A whole frame on the wire: the body length as four big-endian bytes, the
/// nonce, then the ciphertext with its tag.
pub open spec fn frame_bytes(nonce: Seq<u8>, ciphertext: Seq<u8>) -> Seq<u8> {
    be_bytes((NONCE_LEN + ciphertext.len()) as nat, 4) + nonce + ciphertext
}

/// The plaintext of a message: the timestamp as sixteen big-endian bytes, the
/// message id as eight, then the payload.
pub open spec fn plaintext_bytes(timestamp_ms: nat, message_id: nat, payload: Seq<u8>) -> Seq<u8> {
    be_bytes(timestamp_ms, 16) + be_bytes(message_id, 8) + payload
}

pub proof fn lemma_pow256_grows(m: nat, n: nat)
    requires
        m <= n,
    ensures
        pow256(m) <= pow256(n),
        pow256(n) >= 1,
    decreases n,
{
    if n > 0 {
        if m < n {
            lemma_pow256_grows(m, (n - 1) as nat);
        } else {
            lemma_pow256_grows((n - 1) as nat, (n - 1) as nat);
        }
    }
}

pub proof fn lemma_be_nat_bound(s: Seq<u8>)
    ensures
        be_nat(s) < pow256(s.len()),
    decreases s.len(),
{
    if s.len() > 0 {
        let t = s.drop_last();
        lemma_be_nat_bound(t);
        let a = be_nat(t);
        let p = pow256(t.len());
        let b = s.last() as nat;
        assert(a * 256 + b < 256 * p) by (nonlinear_arith)
            requires
                a < p,
                b < 256,
        ;
    }
}

pub proof fn lemma_be_bytes_len(x: nat, n: nat)
    ensures
        be_bytes(x, n).len() == n,
    decreases n,
{
    if n > 0 {
        lemma_be_bytes_len(x / 256, (n - 1) as nat);
    }
}

/// Writing a number that fits in `n` bytes and reading it back gives it again.
pub proof fn lemma_be_round_trip(x: nat, n: nat)
    requires
        x < pow256(n),
    ensures
        be_nat(be_bytes(x, n)) == x,
        be_bytes(x, n).len() == n,
    decreases n,
{
    lemma_be_bytes_len(x, n);
    if n > 0 {
        let p = pow256((n - 1) as nat);
        assert(x / 256 < p) by (nonlinear_arith)
            requires
                x < 256 * p,
        ;
        lemma_be_round_trip(x / 256, (n - 1) as nat);
        let s = be_bytes(x, n);
        assert(s.drop_last() =~= be_bytes(x / 256, (n - 1) as nat));
        assert((x / 256) * 256 + x % 256 == x);
    }
}

pub proof fn lemma_pow256_4()
    ensures
        pow256(4) == 0x1_0000_0000,
{
    reveal_with_fuel(pow256, 5);
}

pub proof fn lemma_pow256_16()
    ensures
        pow256(15) == 0x100_0000_0000_0000_0000_0000_0000_0000,
        pow256(16) == 0x1_0000_0000_0000_0000_0000_0000_0000_0000,
{
    reveal_with_fuel(pow256, 17);
}

/// The bytes `s[lo..hi]` read as a big-endian number.
pub fn be_decode(s: &[u8], lo: usize, hi: usize) -> (r: u128)
    requires
        lo <= hi <= s@.len(),
        hi - lo <= 16,
    ensures
        r == be_nat(s@.subrange(lo as int, hi as int)),
{
    let mut acc: u128 = 0;
    let mut i: usize = lo;
    while i < hi
        invariant
            lo <= i <= hi <= s@.len(),
            hi - lo <= 16,
            acc == be_nat(s@.subrange(lo as int, i as int)),
        decreases hi - i,
    {
        proof {
            let t = s@.subrange(lo as int, i as int);
            let u = s@.subrange(lo as int, i + 1);
            assert(u.drop_last() =~= t);
            lemma_be_nat_bound(t);
            lemma_pow256_grows((i - lo) as nat, 15);
            lemma_pow256_16();
            let a = acc as nat;
            assert(a * 256 + 255 < pow256(16)) by (nonlinear_arith)
                requires
                    a < pow256(15),
                    pow256(16) == 256 * pow256(15),
            ;
        }
        acc = acc * 256 + s[i] as u128;
        i = i + 1;
    }
    acc
}

/// The `n` low-order bytes of `x`, most significant first.
pub fn be_encode(x: u128, n: usize) -> (r: Vec<u8>)
    ensures
        r@ == be_bytes(x as nat, n as nat),
        r@.len() == n,
    decreases n,
{
    proof {
        lemma_be_bytes_len(x as nat, n as nat);
    }
    if n == 0 {
        Vec::new()
    } else {
        let mut v = be_encode(x / 256, n - 1);
        v.push((x % 256) as u8);
        v
    }
}

/// The length that a four-byte frame header announces.
pub fn frame_body_len(header: &[u8]) -> (r: usize)
    requires
        header@.len() == 4,
    ensures
        r as nat == be_nat(header@),
{
    proof {
        assert(header@.subrange(0, 4) =~= header@);
        lemma_be_nat_bound(header@);
        lemma_pow256_4();
    }
    be_decode(header, 0, 4) as usize
}

/// Lays out a frame: the body length, the nonce and the ciphertext. `None`
/// when the body is too long for a four-byte length.
pub fn encode_frame(nonce: &[u8], ciphertext: &[u8]) -> (r: Option<Vec<u8>>)
    requires
        nonce@.len() == NONCE_LEN,
    ensures
        match r {
            Some(f) => NONCE_LEN + ciphertext@.len() < pow256(4) && f@ == frame_bytes(
                nonce@,
                ciphertext@,
            ),
            None => NONCE_LEN + ciphertext@.len() >= pow256(4),
        },
{
    proof {
        lemma_pow256_4();
    }
    if ciphertext.len() > 0xffff_ffff - NONCE_LEN {
        return None;
    }
    let mut out = be_encode((NONCE_LEN + ciphertext.len()) as u128, 4);
    out.extend_from_slice(nonce);
    out.extend_from_slice(ciphertext);
    Some(out)
}

/// Builds a plaintext: timestamp, message id, payload.
pub fn encode_plaintext(timestamp_ms: u128, message_id: u64, payload: &[u8]) -> (r: Vec<u8>)
    ensures
        r@ == plaintext_bytes(timestamp_ms as nat, message_id as nat, payload@),
{
    let mut out = be_encode(timestamp_ms, 16);
    let id = be_encode(message_id as u128, 8);
    out.extend_from_slice(id.as_slice());
    out.extend_from_slice(payload);
    out
}

/// A frame laid out by `encode_frame` reads back: its header announces the
/// length of the rest, which is the nonce followed by the ciphertext.
pub proof fn lemma_frame_round_trip(nonce: Seq<u8>, ciphertext: Seq<u8>)
    requires
        nonce.len() == NONCE_LEN,
        NONCE_LEN + ciphertext.len() < pow256(4),
    ensures
        frame_bytes(nonce, ciphertext).len() == 4 + NONCE_LEN + ciphertext.len(),
        be_nat(frame_bytes(nonce, ciphertext).take(4)) == NONCE_LEN + ciphertext.len(),
        frame_bytes(nonce, ciphertext).skip(4).take(NONCE_LEN as int) == nonce,
        frame_bytes(nonce, ciphertext).skip(4).skip(NONCE_LEN as int) == ciphertext,
{
    let len = (NONCE_LEN + ciphertext.len()) as nat;
    let f = frame_bytes(nonce, ciphertext);
    lemma_be_round_trip(len, 4);
    assert(f.take(4) =~= be_bytes(len, 4));
    assert(f.skip(4).take(NONCE_LEN as int) =~= nonce);
    assert(f.skip(4).skip(NONCE_LEN as int) =~= ciphertext);
}

} // verus!
