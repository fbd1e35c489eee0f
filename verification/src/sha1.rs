use vstd::prelude::*;

verus! {

/// `x` rotated left by `n` bits.
pub open spec fn rotl(x: u32, n: u32) -> u32
    recommends
        0 < n < 32,
{
    (x << n) | (x >> ((32 - n) as u32))
}

fn rotate_left(x: u32, n: u32) -> (r: u32)
    requires
        0 < n < 32,
    ensures
        r == rotl(x, n),
{
    (x << n) | (x >> (32 - n))
}

/// Addition modulo 2^32.
pub open spec fn add32(a: u32, b: u32) -> u32 {
    ((a as int + b as int) % 0x1_0000_0000) as u32
}

fn wrapping_add32(a: u32, b: u32) -> (r: u32)
    ensures
        r == add32(a, b),
{
    a.wrapping_add(b)
}

/// The big-endian word of four bytes.
pub open spec fn be32(b0: u8, b1: u8, b2: u8, b3: u8) -> u32 {
    ((b0 as u32) << 24u32) | ((b1 as u32) << 16u32) | ((b2 as u32) << 8u32) | (b3 as u32)
}

/// The big-endian bytes of a 64-bit number.
pub open spec fn be64_bytes(x: u64) -> Seq<u8> {
    seq![
        (x / 0x100_0000_0000_0000) as u8,
        ((x / 0x1_0000_0000_0000) % 256) as u8,
        ((x / 0x100_0000_0000) % 256) as u8,
        ((x / 0x1_0000_0000) % 256) as u8,
        ((x / 0x100_0000) % 256) as u8,
        ((x / 0x1_0000) % 256) as u8,
        ((x / 0x100) % 256) as u8,
        (x % 256) as u8,
    ]
}

/// The big-endian bytes of a 32-bit word.
pub open spec fn be32_bytes(x: u32) -> Seq<u8> {
    seq![(x / 0x100_0000) as u8, ((x / 0x1_0000) % 256) as u8, ((x / 0x100) % 256) as u8, (x % 256) as u8]
}

/// The number of zero bytes that pad a message of `len` bytes, after the
/// `0x80` marker, to 56 modulo 64.
pub open spec fn zero_pad_len(len: nat) -> nat {
    ((119 - (len % 64)) % 64) as nat
}

/// The SHA-1 padding of a message: the marker byte, zeros, and the bit length.
pub open spec fn sha1_pad(msg: Seq<u8>) -> Seq<u8> {
    msg + seq![0x80u8] + Seq::new(zero_pad_len(msg.len()), |i: int| 0u8) + be64_bytes(
        (msg.len() * 8) as u64,
    )
}

/// Word `t` of the message schedule of a 64-byte block.
pub open spec fn schedule_word(block: Seq<u8>, t: int) -> u32
    decreases t,
{
    if t < 0 {
        0
    } else if t < 16 {
        be32(block[4 * t], block[4 * t + 1], block[4 * t + 2], block[4 * t + 3])
    } else {
        rotl(
            schedule_word(block, t - 3) ^ schedule_word(block, t - 8) ^ schedule_word(block, t - 14)
                ^ schedule_word(block, t - 16),
            1,
        )
    }
}

/// The round function and constant of round `t`.
pub open spec fn round_fk(t: int, b: u32, c: u32, d: u32) -> (u32, u32) {
    if t <= 19 {
        ((b & c) | ((!b) & d), 0x5a82_7999u32)
    } else if t <= 39 {
        (b ^ c ^ d, 0x6ed9_eba1u32)
    } else if t <= 59 {
        ((b & c) | (b & d) | (c & d), 0x8f1b_bcdcu32)
    } else {
        (b ^ c ^ d, 0xca62_c1d6u32)
    }
}

/// The five working words.
pub type Sha1State = (u32, u32, u32, u32, u32);

/// One round of the compression function.
pub open spec fn sha1_round(s: Sha1State, t: int, w: u32) -> Sha1State {
    let (f, k) = round_fk(t, s.1, s.2, s.3);
    let next = add32(add32(add32(add32(rotl(s.0, 5), f), s.4), k), w);
    (next, s.0, rotl(s.1, 30), s.2, s.3)
}

/// The working words after the first `t` rounds on a block.
pub open spec fn sha1_rounds(block: Seq<u8>, s: Sha1State, t: int) -> Sha1State
    decreases t,
{
    if t <= 0 {
        s
    } else {
        sha1_round(sha1_rounds(block, s, t - 1), t - 1, schedule_word(block, t - 1))
    }
}

/// The chaining value after one block.
pub open spec fn sha1_compress(h: Sha1State, block: Seq<u8>) -> Sha1State {
    let r = sha1_rounds(block, h, 80);
    (add32(h.0, r.0), add32(h.1, r.1), add32(h.2, r.2), add32(h.3, r.3), add32(h.4, r.4))
}

/// The initial chaining value.
pub open spec fn sha1_init() -> Sha1State {
    (0x6745_2301u32, 0xefcd_ab89u32, 0x98ba_dcfeu32, 0x1032_5476u32, 0xc3d2_e1f0u32)
}

/// The chaining value after the first `n` blocks of a padded message.
pub open spec fn sha1_blocks(padded: Seq<u8>, n: int) -> Sha1State
    decreases n,
{
    if n <= 0 {
        sha1_init()
    } else {
        sha1_compress(sha1_blocks(padded, n - 1), padded.subrange(64 * (n - 1), 64 * n))
    }
}

/// The SHA-1 digest of a message (FIPS 180-4).
pub open spec fn sha1_spec(msg: Seq<u8>) -> Seq<u8> {
    let padded = sha1_pad(msg);
    let h = sha1_blocks(padded, (padded.len() / 64) as int);
    be32_bytes(h.0) + be32_bytes(h.1) + be32_bytes(h.2) + be32_bytes(h.3) + be32_bytes(h.4)
}

fn push_be32(out: &mut Vec<u8>, x: u32)
    ensures
        final(out)@ == old(out)@ + be32_bytes(x),
{
    out.push((x / 0x100_0000) as u8);
    out.push(((x / 0x1_0000) % 256) as u8);
    out.push(((x / 0x100) % 256) as u8);
    out.push((x % 256) as u8);
}

fn push_be64(out: &mut Vec<u8>, x: u64)
    ensures
        final(out)@ == old(out)@ + be64_bytes(x),
{
    out.push((x / 0x100_0000_0000_0000) as u8);
    out.push(((x / 0x1_0000_0000_0000) % 256) as u8);
    out.push(((x / 0x100_0000_0000) % 256) as u8);
    out.push(((x / 0x1_0000_0000) % 256) as u8);
    out.push(((x / 0x100_0000) % 256) as u8);
    out.push(((x / 0x1_0000) % 256) as u8);
    out.push(((x / 0x100) % 256) as u8);
    out.push((x % 256) as u8);
}

fn word_at(message: &Vec<u8>, start: usize, t: usize) -> (r: u32)
    requires
        t < 16,
        start + 64 <= message@.len(),
    ensures
        r == be32(
            message@[start + 4 * t],
            message@[start + 4 * t + 1],
            message@[start + 4 * t + 2],
            message@[start + 4 * t + 3],
        ),
{
    let n = message.len();
    let i = start + 4 * t;
    ((message[i] as u32) << 24u32) | ((message[i + 1] as u32) << 16u32) | ((message[i + 2] as u32)
        << 8u32) | (message[i + 3] as u32)
}

fn compress_block(message: &Vec<u8>, start: usize, h: Sha1State) -> (r: Sha1State)
    requires
        start + 64 <= message@.len(),
    ensures
        r == sha1_compress(h, message@.subrange(start as int, start + 64)),
{
    let ghost block = message@.subrange(start as int, start + 64);
    let mut words: Vec<u32> = Vec::new();
    let mut t: usize = 0;
    while t < 80
        invariant
            t <= 80,
            start + 64 <= message@.len(),
            block == message@.subrange(start as int, start + 64),
            words@.len() == t,
            forall|j: int| 0 <= j < t ==> #[trigger] words@[j] == schedule_word(block, j),
        decreases 80 - t,
    {
        let w = if t < 16 {
            let w = word_at(message, start, t);
            assert(block[4 * t as int] == message@[start + 4 * t]);
            assert(block[4 * t + 1] == message@[start + 4 * t + 1]);
            assert(block[4 * t + 2] == message@[start + 4 * t + 2]);
            assert(block[4 * t + 3] == message@[start + 4 * t + 3]);
            w
        } else {
            rotate_left(words[t - 3] ^ words[t - 8] ^ words[t - 14] ^ words[t - 16], 1)
        };
        words.push(w);
        t = t + 1;
    }
    let (mut a, mut b, mut c, mut d, mut e) = h;
    let mut t: usize = 0;
    while t < 80
        invariant
            t <= 80,
            words@.len() == 80,
            forall|j: int| 0 <= j < 80 ==> #[trigger] words@[j] == schedule_word(block, j),
            (a, b, c, d, e) == sha1_rounds(block, h, t as int),
        decreases 80 - t,
    {
        let (f, k) = if t <= 19 {
            ((b & c) | ((!b) & d), 0x5a82_7999u32)
        } else if t <= 39 {
            (b ^ c ^ d, 0x6ed9_eba1u32)
        } else if t <= 59 {
            ((b & c) | (b & d) | (c & d), 0x8f1b_bcdcu32)
        } else {
            (b ^ c ^ d, 0xca62_c1d6u32)
        };
        let next = wrapping_add32(
            wrapping_add32(wrapping_add32(wrapping_add32(rotate_left(a, 5), f), e), k),
            words[t],
        );
        e = d;
        d = c;
        c = rotate_left(b, 30);
        b = a;
        a = next;
        t = t + 1;
    }
    (
        wrapping_add32(h.0, a),
        wrapping_add32(h.1, b),
        wrapping_add32(h.2, c),
        wrapping_add32(h.3, d),
        wrapping_add32(h.4, e),
    )
}

/// The SHA-1 digest of `input`, used by the WebSocket handshake.
pub fn sha1_digest(input: &[u8]) -> (r: Vec<u8>)
    requires
        input@.len() * 8 <= u64::MAX,
    ensures
        r@ == sha1_spec(input@),
{
    let mut message: Vec<u8> = Vec::new();
    let mut i: usize = 0;
    while i < input.len()
        invariant
            i <= input@.len(),
            message@ == input@.take(i as int),
        decreases input@.len() - i,
    {
        message.push(input[i]);
        i = i + 1;
    }
    assert(input@.take(input@.len() as int) == input@);
    let bit_len = (message.len() as u64) * 8;
    message.push(0x80);
    let ghost marked = message@;
    while message.len() % 64 != 56
        invariant
            message@.len() >= marked.len(),
            marked == input@ + seq![0x80u8],
            message@ == marked + Seq::new((message@.len() - marked.len()) as nat, |i: int| 0u8),
            message@.len() - marked.len() <= zero_pad_len(input@.len()),
            (message@.len() - marked.len() == zero_pad_len(input@.len())) <== (message@.len() % 64 == 56),
        decreases zero_pad_len(input@.len()) - (message@.len() - marked.len()),
    {
        let ghost before = message@;
        message.push(0);
        assert(message@ == marked + Seq::new((message@.len() - marked.len()) as nat, |i: int| 0u8));
    }
    push_be64(&mut message, bit_len);
    assert(message@ == sha1_pad(input@));
    let ghost padded = message@;
    let total = message.len();
    let blocks = total / 64;
    let mut h: Sha1State = (0x6745_2301u32, 0xefcd_ab89u32, 0x98ba_dcfeu32, 0x1032_5476u32, 0xc3d2_e1f0u32);
    let mut j: usize = 0;
    while j < blocks
        invariant
            j <= blocks,
            blocks == padded.len() / 64,
            total == message@.len(),
            padded == message@,
            h == sha1_blocks(padded, j as int),
        decreases blocks - j,
    {
        assert(64 * j + 64 <= message@.len()) by (nonlinear_arith)
            requires
                j < blocks,
                blocks == message@.len() / 64,
        ;
        h = compress_block(&message, 64 * j, h);
        j = j + 1;
    }
    let mut out: Vec<u8> = Vec::new();
    push_be32(&mut out, h.0);
    push_be32(&mut out, h.1);
    push_be32(&mut out, h.2);
    push_be32(&mut out, h.3);
    push_be32(&mut out, h.4);
    out
}

} // verus!
