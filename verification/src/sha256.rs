//! SHA-256 as FIPS 180-4 defines it: the message is padded to whole blocks
//! of 64 bytes, and each block is folded into a state of eight words.

use crate::digest::Sha256Hash;
use vstd::prelude::*;

verus! {

/// `x` rotated right by `n` bits.
pub open spec fn rotr(x: u32, n: u32) -> u32
    recommends
        0 < n < 32,
{
    (x >> n) | (x << ((32 - n) as u32))
}

/// Bit by bit, `y` where `x` is set and `z` where it is not.
pub open spec fn ch(x: u32, y: u32, z: u32) -> u32 {
    (x & y) ^ (!x & z)
}

/// Bit by bit, what two at least of `x`, `y` and `z` agree on.
pub open spec fn maj(x: u32, y: u32, z: u32) -> u32 {
    (x & y) ^ (x & z) ^ (y & z)
}

/// The first mixing function of a round.
pub open spec fn big_sigma0(x: u32) -> u32 {
    rotr(x, 2) ^ rotr(x, 13) ^ rotr(x, 22)
}

/// The second mixing function of a round.
pub open spec fn big_sigma1(x: u32) -> u32 {
    rotr(x, 6) ^ rotr(x, 11) ^ rotr(x, 25)
}

/// The first mixing function of the message schedule.
pub open spec fn small_sigma0(x: u32) -> u32 {
    rotr(x, 7) ^ rotr(x, 18) ^ (x >> 3)
}

/// The second mixing function of the message schedule.
pub open spec fn small_sigma1(x: u32) -> u32 {
    rotr(x, 17) ^ rotr(x, 19) ^ (x >> 10)
}

/// The 64 round constants.
pub open spec fn round_constants() -> Seq<u32> {
    seq![
        0x428a2f98u32, 0x71374491u32, 0xb5c0fbcfu32, 0xe9b5dba5u32,
        0x3956c25bu32, 0x59f111f1u32, 0x923f82a4u32, 0xab1c5ed5u32,
        0xd807aa98u32, 0x12835b01u32, 0x243185beu32, 0x550c7dc3u32,
        0x72be5d74u32, 0x80deb1feu32, 0x9bdc06a7u32, 0xc19bf174u32,
        0xe49b69c1u32, 0xefbe4786u32, 0x0fc19dc6u32, 0x240ca1ccu32,
        0x2de92c6fu32, 0x4a7484aau32, 0x5cb0a9dcu32, 0x76f988dau32,
        0x983e5152u32, 0xa831c66du32, 0xb00327c8u32, 0xbf597fc7u32,
        0xc6e00bf3u32, 0xd5a79147u32, 0x06ca6351u32, 0x14292967u32,
        0x27b70a85u32, 0x2e1b2138u32, 0x4d2c6dfcu32, 0x53380d13u32,
        0x650a7354u32, 0x766a0abbu32, 0x81c2c92eu32, 0x92722c85u32,
        0xa2bfe8a1u32, 0xa81a664bu32, 0xc24b8b70u32, 0xc76c51a3u32,
        0xd192e819u32, 0xd6990624u32, 0xf40e3585u32, 0x106aa070u32,
        0x19a4c116u32, 0x1e376c08u32, 0x2748774cu32, 0x34b0bcb5u32,
        0x391c0cb3u32, 0x4ed8aa4au32, 0x5b9cca4fu32, 0x682e6ff3u32,
        0x748f82eeu32, 0x78a5636fu32, 0x84c87814u32, 0x8cc70208u32,
        0x90befffau32, 0xa4506cebu32, 0xbef9a3f7u32, 0xc67178f2u32,
    ]
}

/// The state before the first block.
pub open spec fn initial_state() -> Seq<u32> {
    seq![
        0x6a09e667u32, 0xbb67ae85u32, 0x3c6ef372u32, 0xa54ff53au32,
        0x510e527fu32, 0x9b05688cu32, 0x1f83d9abu32, 0x5be0cd19u32,
    ]
}

/// The big-endian word that starts at byte `at`.
pub open spec fn word_at(bytes: Seq<u8>, at: int) -> u32 {
    ((bytes[at] as u32) << 24) | ((bytes[at + 1] as u32) << 16) | ((bytes[at + 2] as u32) << 8) | (
    bytes[at + 3] as u32)
}

/// Word `t` of the message schedule of a 64-byte block.
pub open spec fn schedule(block: Seq<u8>, t: nat) -> u32
    decreases t,
{
    if t < 16 {
        word_at(block, 4 * (t as int))
    } else {
        small_sigma1(schedule(block, (t - 2) as nat)).wrapping_add(
            schedule(block, (t - 7) as nat),
        ).wrapping_add(small_sigma0(schedule(block, (t - 15) as nat))).wrapping_add(
            schedule(block, (t - 16) as nat),
        )
    }
}

/// One round: the state after mixing in the constant `k` and the schedule
/// word `w`.
pub open spec fn round(s: Seq<u32>, k: u32, w: u32) -> Seq<u32> {
    let t1 = s[7].wrapping_add(big_sigma1(s[4])).wrapping_add(ch(s[4], s[5], s[6])).wrapping_add(
        k,
    ).wrapping_add(w);
    let t2 = big_sigma0(s[0]).wrapping_add(maj(s[0], s[1], s[2]));
    seq![t1.wrapping_add(t2), s[0], s[1], s[2], s[3].wrapping_add(t1), s[4], s[5], s[6]]
}

/// The working state after the first `t` rounds on `block`.
pub open spec fn rounds(s: Seq<u32>, block: Seq<u8>, t: nat) -> Seq<u32>
    decreases t,
{
    if t == 0 {
        s
    } else {
        round(
            rounds(s, block, (t - 1) as nat),
            round_constants()[t - 1],
            schedule(block, (t - 1) as nat),
        )
    }
}

/// The state after folding one 64-byte block into `s`.
pub open spec fn compress(s: Seq<u32>, block: Seq<u8>) -> Seq<u32> {
    let r = rounds(s, block, 64);
    Seq::new(8, |i: int| s[i].wrapping_add(r[i]))
}

/// The state after the first `n` blocks of `bytes`.
pub open spec fn absorb(bytes: Seq<u8>, n: nat) -> Seq<u32>
    decreases n,
{
    if n == 0 {
        initial_state()
    } else {
        compress(absorb(bytes, (n - 1) as nat), bytes.subrange(64 * (n - 1), 64 * (n as int)))
    }
}

/// The eight bytes of `bits`, the highest first.
pub open spec fn length_bytes(bits: u64) -> Seq<u8> {
    seq![
        ((bits >> 56) & 0xff) as u8,
        ((bits >> 48) & 0xff) as u8,
        ((bits >> 40) & 0xff) as u8,
        ((bits >> 32) & 0xff) as u8,
        ((bits >> 24) & 0xff) as u8,
        ((bits >> 16) & 0xff) as u8,
        ((bits >> 8) & 0xff) as u8,
        (bits & 0xff) as u8,
    ]
}

/// Number of zero bytes in the padding of a message of `len` bytes.
pub open spec fn zero_count(len: nat) -> nat {
    if len % 64 < 56 {
        (55 - len % 64) as nat
    } else {
        (119 - len % 64) as nat
    }
}

/// The length in bits of a message of `len` bytes, as the padding records
/// it: modulo 2^64.
pub open spec fn bit_length(len: nat) -> u64 {
    ((len % 0x2000_0000_0000_0000) * 8) as u64
}

/// What is appended to a message of `len` bytes: the byte 0x80, zeros up to
/// eight bytes short of a whole block, and the length in bits.
pub open spec fn padding(len: nat) -> Seq<u8> {
    seq![0x80u8] + Seq::new(zero_count(len), |i: int| 0u8) + length_bytes(bit_length(len))
}

/// The four bytes of each state word, the highest first.
pub open spec fn state_bytes(s: Seq<u32>) -> Seq<u8> {
    Seq::new(
        32,
        |i: int|
            if i % 4 == 0 {
                ((s[i / 4] >> 24) & 0xff) as u8
            } else if i % 4 == 1 {
                ((s[i / 4] >> 16) & 0xff) as u8
            } else if i % 4 == 2 {
                ((s[i / 4] >> 8) & 0xff) as u8
            } else {
                (s[i / 4] & 0xff) as u8
            },
    )
}

/// The SHA-256 digest of `msg`.
pub open spec fn sha256(msg: Seq<u8>) -> Seq<u8> {
    let padded = msg + padding(msg.len());
    state_bytes(absorb(padded, padded.len() / 64))
}

/// `x` rotated right by `n` bits.
fn rotate_right(x: u32, n: u32) -> (r: u32)
    requires
        0 < n < 32,
    ensures
        r == rotr(x, n),
{
    (x >> n) | (x << (32 - n))
}

/// The big-endian word that starts at byte `at` of `data`.
fn load_word(data: &[u8], at: usize) -> (r: u32)
    requires
        at + 4 <= data@.len(),
    ensures
        r == word_at(data@, at as int),
{
    ((data[at] as u32) << 24) | ((data[at + 1] as u32) << 16) | ((data[at + 2] as u32) << 8) | (
    data[at + 3] as u32)
}

/// The 64 round constants.
fn constants() -> (k: [u32; 64])
    ensures
        k@ == round_constants(),
{
    let k: [u32; 64] = [
        0x428a2f98u32, 0x71374491u32, 0xb5c0fbcfu32, 0xe9b5dba5u32,
        0x3956c25bu32, 0x59f111f1u32, 0x923f82a4u32, 0xab1c5ed5u32,
        0xd807aa98u32, 0x12835b01u32, 0x243185beu32, 0x550c7dc3u32,
        0x72be5d74u32, 0x80deb1feu32, 0x9bdc06a7u32, 0xc19bf174u32,
        0xe49b69c1u32, 0xefbe4786u32, 0x0fc19dc6u32, 0x240ca1ccu32,
        0x2de92c6fu32, 0x4a7484aau32, 0x5cb0a9dcu32, 0x76f988dau32,
        0x983e5152u32, 0xa831c66du32, 0xb00327c8u32, 0xbf597fc7u32,
        0xc6e00bf3u32, 0xd5a79147u32, 0x06ca6351u32, 0x14292967u32,
        0x27b70a85u32, 0x2e1b2138u32, 0x4d2c6dfcu32, 0x53380d13u32,
        0x650a7354u32, 0x766a0abbu32, 0x81c2c92eu32, 0x92722c85u32,
        0xa2bfe8a1u32, 0xa81a664bu32, 0xc24b8b70u32, 0xc76c51a3u32,
        0xd192e819u32, 0xd6990624u32, 0xf40e3585u32, 0x106aa070u32,
        0x19a4c116u32, 0x1e376c08u32, 0x2748774cu32, 0x34b0bcb5u32,
        0x391c0cb3u32, 0x4ed8aa4au32, 0x5b9cca4fu32, 0x682e6ff3u32,
        0x748f82eeu32, 0x78a5636fu32, 0x84c87814u32, 0x8cc70208u32,
        0x90befffau32, 0xa4506cebu32, 0xbef9a3f7u32, 0xc67178f2u32,
    ];
    assert(k@ =~= round_constants());
    k
}

/// The message schedule of the block that starts at `offset`.
fn expand(data: &[u8], offset: usize) -> (w: [u32; 64])
    requires
        offset + 64 <= data@.len(),
    ensures
        forall|t: int|
            0 <= t < 64 ==> w@[t] == schedule(
                data@.subrange(offset as int, offset + 64),
                t as nat,
            ),
{
    let ghost block = data@.subrange(offset as int, offset + 64);
    let len = data.len();
    let mut w: [u32; 64] = [0u32;64];
    let mut t: usize = 0;
    while t < 64
        invariant
            t <= 64,
            offset + 64 <= len == data@.len(),
            block == data@.subrange(offset as int, offset + 64),
            forall|j: int| 0 <= j < t ==> w@[j] == schedule(block, j as nat),
        decreases 64 - t,
    {
        if t < 16 {
            let word = load_word(data, offset + 4 * t);
            assert(word_at(data@, offset + 4 * t) == word_at(block, 4 * t)) by {
                assert(block[4 * t] == data@[offset + 4 * t]);
                assert(block[4 * t + 1] == data@[offset + 4 * t + 1]);
                assert(block[4 * t + 2] == data@[offset + 4 * t + 2]);
                assert(block[4 * t + 3] == data@[offset + 4 * t + 3]);
            }
            w[t] = word;
        } else {
            let s1 = rotate_right(w[t - 2], 17) ^ rotate_right(w[t - 2], 19) ^ (w[t - 2] >> 10);
            let s0 = rotate_right(w[t - 15], 7) ^ rotate_right(w[t - 15], 18) ^ (w[t - 15] >> 3);
            let word = s1.wrapping_add(w[t - 7]).wrapping_add(s0).wrapping_add(w[t - 16]);
            w[t] = word;
        }
        t += 1;
    }
    w
}

/// Folds the block that starts at `offset` into `state`.
fn compress_block(state: &[u32; 8], data: &[u8], offset: usize) -> (r: [u32; 8])
    requires
        offset + 64 <= data@.len(),
    ensures
        r@ == compress(state@, data@.subrange(offset as int, offset + 64)),
{
    let ghost block = data@.subrange(offset as int, offset + 64);
    let k = constants();
    let w = expand(data, offset);
    let mut s: [u32; 8] = *state;
    let mut t: usize = 0;
    while t < 64
        invariant
            t <= 64,
            k@ == round_constants(),
            forall|j: int| 0 <= j < 64 ==> w@[j] == schedule(block, j as nat),
            s@ == rounds(state@, block, t as nat),
        decreases 64 - t,
    {
        let t1 = s[7].wrapping_add(
            rotate_right(s[4], 6) ^ rotate_right(s[4], 11) ^ rotate_right(s[4], 25),
        ).wrapping_add((s[4] & s[5]) ^ (!s[4] & s[6])).wrapping_add(k[t]).wrapping_add(w[t]);
        let t2 = (rotate_right(s[0], 2) ^ rotate_right(s[0], 13) ^ rotate_right(
            s[0],
            22,
        )).wrapping_add((s[0] & s[1]) ^ (s[0] & s[2]) ^ (s[1] & s[2]));
        let next: [u32; 8] = [
            t1.wrapping_add(t2),
            s[0],
            s[1],
            s[2],
            s[3].wrapping_add(t1),
            s[4],
            s[5],
            s[6],
        ];
        assert(next@ =~= round(s@, k@[t as int], w@[t as int]));
        s = next;
        t += 1;
    }
    let r: [u32; 8] = [
        state[0].wrapping_add(s[0]),
        state[1].wrapping_add(s[1]),
        state[2].wrapping_add(s[2]),
        state[3].wrapping_add(s[3]),
        state[4].wrapping_add(s[4]),
        state[5].wrapping_add(s[5]),
        state[6].wrapping_add(s[6]),
        state[7].wrapping_add(s[7]),
    ];
    assert(r@ =~= compress(state@, block));
    r
}

/// The last blocks of the padded message: what is left of `data` after its
/// whole blocks, followed by the padding.
fn final_blocks(data: &[u8]) -> (tail: Vec<u8>)
    ensures
        tail@ == data@.subrange((data@.len() / 64) * 64 as int, data@.len() as int) + padding(
            data@.len(),
        ),
        tail@.len() == 64 || tail@.len() == 128,
{
    let len = data.len();
    let start = (len / 64) * 64;
    let ghost rest = data@.subrange(start as int, len as int);
    let mut tail: Vec<u8> = Vec::new();
    let mut i: usize = start;
    while i < len
        invariant
            start <= i <= len,
            len == data@.len(),
            tail@ == data@.subrange(start as int, i as int),
        decreases len - i,
    {
        tail.push(data[i]);
        i += 1;
        assert(tail@ =~= data@.subrange(start as int, i as int));
    }
    tail.push(0x80u8);
    let zeros: usize = if len % 64 < 56 {
        55 - len % 64
    } else {
        119 - len % 64
    };
    let mut z: usize = 0;
    while z < zeros
        invariant
            z <= zeros,
            zeros == zero_count(len as nat),
            tail@ == rest + seq![0x80u8] + Seq::new(z as nat, |i: int| 0u8),
        decreases zeros - z,
    {
        tail.push(0u8);
        z += 1;
        assert(tail@ =~= rest + seq![0x80u8] + Seq::new(z as nat, |i: int| 0u8));
    }
    let bits: u64 = ((len as u64) % 0x2000_0000_0000_0000) * 8;
    assert(bits == bit_length(len as nat));
    tail.push(((bits >> 56) & 0xff) as u8);
    tail.push(((bits >> 48) & 0xff) as u8);
    tail.push(((bits >> 40) & 0xff) as u8);
    tail.push(((bits >> 32) & 0xff) as u8);
    tail.push(((bits >> 24) & 0xff) as u8);
    tail.push(((bits >> 16) & 0xff) as u8);
    tail.push(((bits >> 8) & 0xff) as u8);
    tail.push((bits & 0xff) as u8);
    assert(tail@ =~= rest + padding(len as nat));
    tail
}

/// The digest that a final state stands for.
fn digest_of_state(s: &[u32; 8]) -> (r: Sha256Hash)
    ensures
        r@ == state_bytes(s@),
{
    let mut digest: [u8; 32] = [0u8;32];
    let mut i: usize = 0;
    while i < 8
        invariant
            i <= 8,
            forall|j: int| 0 <= j < 4 * i ==> digest@[j] == state_bytes(s@)[j],
        decreases 8 - i,
    {
        let word = s[i];
        digest[4 * i] = ((word >> 24) & 0xff) as u8;
        digest[4 * i + 1] = ((word >> 16) & 0xff) as u8;
        digest[4 * i + 2] = ((word >> 8) & 0xff) as u8;
        digest[4 * i + 3] = (word & 0xff) as u8;
        i += 1;
    }
    assert(digest@ =~= state_bytes(s@));
    Sha256Hash { digest }
}

/// Computes the SHA-256 digest of `data`.
pub fn compute_sha256(data: &[u8]) -> (r: Sha256Hash)
    ensures
        r@ == sha256(data@),
{
    let len = data.len();
    let whole = len / 64;
    let ghost padded = data@ + padding(len as nat);
    let mut state: [u32; 8] = [
        0x6a09e667u32, 0xbb67ae85u32, 0x3c6ef372u32, 0xa54ff53au32,
        0x510e527fu32, 0x9b05688cu32, 0x1f83d9abu32, 0x5be0cd19u32,
    ];
    assert(state@ =~= initial_state());
    let mut n: usize = 0;
    while n < whole
        invariant
            n <= whole,
            len == data@.len(),
            whole == len / 64,
            padded == data@ + padding(len as nat),
            state@ == absorb(padded, n as nat),
        decreases whole - n,
    {
        assert(padded.subrange(64 * n, 64 * (n + 1)) =~= data@.subrange(64 * n, 64 * n + 64));
        state = compress_block(&state, data, 64 * n);
        n += 1;
    }
    let tail = final_blocks(data);
    let blocks = tail.len() / 64;
    let mut j: usize = 0;
    while j < blocks
        invariant
            j <= blocks,
            blocks == tail@.len() / 64,
            tail@.len() == 64 || tail@.len() == 128,
            len == data@.len(),
            whole == len / 64,
            padded == data@ + padding(len as nat),
            tail@ == data@.subrange(whole * 64, len as int) + padding(len as nat),
            state@ == absorb(padded, (whole + j) as nat),
        decreases blocks - j,
    {
        assert(padded.subrange(64 * (whole + j), 64 * (whole + j + 1)) =~= tail@.subrange(
            64 * j,
            64 * j + 64,
        ));
        state = compress_block(&state, tail.as_slice(), 64 * j);
        j += 1;
    }
    assert(padded.len() / 64 == whole + blocks);
    digest_of_state(&state)
}

} // verus!
