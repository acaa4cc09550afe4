//! The decryption engine: a seeded keystream, an XOR pass over the record
//! body, and the block permutation that restores the body's natural order.

use vstd::prelude::*;

verus! {

/// Total size of a stored record, in bytes.
pub const RECORD_SIZE: usize = 232;

/// Size of the unencrypted header (seed and checksum), in bytes.
pub const HEADER_SIZE: usize = 8;

/// Size of one of the four interchangeable body blocks, in bytes.
pub const BLOCK_SIZE: usize = 56;

/// Number of 16-bit words in the encrypted body.
pub const BODY_WORDS: usize = 112;

/// Multiplier of the linear congruential recurrence that drives the keystream.
pub const KEYSTREAM_MULTIPLIER: u32 = 0x41C64E6D;

/// Increment of the linear congruential recurrence that drives the keystream.
pub const KEYSTREAM_INCREMENT: u32 = 0x6073;

/// The keystream state that follows `state`: `state * A + C`, modulo 2^32.
pub open spec fn next_state(state: u32) -> u32 {
    (((state as int) * (KEYSTREAM_MULTIPLIER as int) + (KEYSTREAM_INCREMENT as int))
        % 0x1_0000_0000) as u32
}

/// The keystream state after `n` advances from `seed`.
pub open spec fn state_at(seed: u32, n: nat) -> u32
    decreases n,
{
    if n == 0 {
        seed
    } else {
        next_state(state_at(seed, (n - 1) as nat))
    }
}

/// The `i`-th 16-bit output word of the keystream: the high half of the
/// state after `i + 1` advances.
pub open spec fn key_word(seed: u32, i: nat) -> u16 {
    (state_at(seed, i + 1) >> 16) as u16
}

/// Advances the keystream state once.
pub fn advance_state(state: u32) -> (r: u32)
    ensures
        r == next_state(state),
{
    proof {
        assert((state as int) * (KEYSTREAM_MULTIPLIER as int)
            <= 0xFFFF_FFFF * (KEYSTREAM_MULTIPLIER as int)) by (nonlinear_arith)
            requires
                state <= 0xFFFF_FFFFu32,
        ;
    }
    let wide: u64 = (state as u64) * (KEYSTREAM_MULTIPLIER as u64) + (KEYSTREAM_INCREMENT as u64);
    let r: u32 = (wide % 0x1_0000_0000) as u32;
    r
}

/// The key byte XOR-ed over body byte `j` (counted from the start of the
/// body): the low byte of a key word for even `j`, the high byte for odd `j`,
/// matching a little-endian XOR of each 16-bit body word.
pub open spec fn key_byte(seed: u32, j: nat) -> u8 {
    if j % 2 == 0 {
        (key_word(seed, j / 2) & 0xFF) as u8
    } else {
        (key_word(seed, j / 2) >> 8) as u8
    }
}

/// The XOR-cipher pass over a record: the header is untouched, and every
/// body byte is XOR-ed with its key byte. Applying it twice with the same
/// seed restores the input.
pub open spec fn crypt_seq(data: Seq<u8>, seed: u32) -> Seq<u8> {
    Seq::new(
        data.len(),
        |i: int|
            if i < HEADER_SIZE {
                data[i]
            } else {
                data[i] ^ key_byte(seed, (i - HEADER_SIZE) as nat)
            },
    )
}

/// Applies the XOR-cipher pass to a whole record.
#[verifier::rlimit(50)]
#[verifier::loop_isolation(false)]
pub fn crypt(data: &Vec<u8>, seed: u32) -> (out: Vec<u8>)
    requires
        data@.len() == RECORD_SIZE,
    ensures
        out@ == crypt_seq(data@, seed),
{
    let ghost goal = crypt_seq(data@, seed);
    proof {
        assert(goal.len() == RECORD_SIZE);
    }
    let mut out: Vec<u8> = Vec::new();
    let mut i: usize = 0;
    while i < HEADER_SIZE
        invariant
            i <= HEADER_SIZE,
            data@.len() == RECORD_SIZE,
            out@.len() == i,
            forall|k: int| 0 <= k < i ==> out@[k] == goal[k],
        decreases HEADER_SIZE - i,
    {
        out.push(data[i]);
        proof {
            assert(goal[i as int] == data@[i as int]);
        }
        i = i + 1;
    }
    let mut state: u32 = seed;
    let mut w: usize = 0;
    while w < BODY_WORDS
        invariant
            w <= BODY_WORDS,
            data@.len() == RECORD_SIZE,
            out@.len() == HEADER_SIZE + 2 * w,
            state == state_at(seed, w as nat),
            forall|k: int| 0 <= k < out@.len() ==> out@[k] == goal[k],
        decreases BODY_WORDS - w,
    {
        state = advance_state(state);
        proof {
            assert(state_at(seed, (w + 1) as nat) == next_state(state_at(seed, w as nat)));
            assert(state >> 16 <= 0xFFFF) by (bit_vector);
        }
        let kw: u16 = (state >> 16) as u16;
        proof {
            assert(kw & 0xFF <= 0xFF && kw >> 8 <= 0xFF) by (bit_vector);
        }
        let lo: u8 = (kw & 0xFF) as u8;
        let hi: u8 = (kw >> 8) as u8;
        proof {
            assert(kw == key_word(seed, w as nat));
            assert(lo == key_byte(seed, (2 * w) as nat));
            assert(hi == key_byte(seed, (2 * w + 1) as nat));
        }
        proof {
            assert(goal[(HEADER_SIZE + 2 * w) as int] == data@[(HEADER_SIZE + 2 * w) as int]
                ^ key_byte(seed, (2 * w) as nat));
            assert(goal[(HEADER_SIZE + 2 * w + 1) as int] == data@[(HEADER_SIZE + 2 * w
                + 1) as int] ^ key_byte(seed, (2 * w + 1) as nat));
        }
        out.push(data[HEADER_SIZE + 2 * w] ^ lo);
        out.push(data[HEADER_SIZE + 2 * w + 1] ^ hi);
        w = w + 1;
    }
    proof {
        assert(out@ =~= goal);
    }
    out
}

/// The order in which the four body blocks of a stored record must be read
/// to restore their natural order, for each of the 24 shift values: output
/// block `b` is taken from stored block `block_order(sv)[b]`.
pub open spec fn block_order(sv: int) -> Seq<int> {
    if sv == 0 {
        seq![0, 1, 2, 3]
    } else if sv == 1 {
        seq![0, 1, 3, 2]
    } else if sv == 2 {
        seq![0, 2, 1, 3]
    } else if sv == 3 {
        seq![0, 3, 1, 2]
    } else if sv == 4 {
        seq![0, 2, 3, 1]
    } else if sv == 5 {
        seq![0, 3, 2, 1]
    } else if sv == 6 {
        seq![1, 0, 2, 3]
    } else if sv == 7 {
        seq![1, 0, 3, 2]
    } else if sv == 8 {
        seq![2, 0, 1, 3]
    } else if sv == 9 {
        seq![3, 0, 1, 2]
    } else if sv == 10 {
        seq![2, 0, 3, 1]
    } else if sv == 11 {
        seq![3, 0, 2, 1]
    } else if sv == 12 {
        seq![1, 2, 0, 3]
    } else if sv == 13 {
        seq![1, 3, 0, 2]
    } else if sv == 14 {
        seq![2, 1, 0, 3]
    } else if sv == 15 {
        seq![3, 1, 0, 2]
    } else if sv == 16 {
        seq![2, 3, 0, 1]
    } else if sv == 17 {
        seq![3, 2, 0, 1]
    } else if sv == 18 {
        seq![1, 2, 3, 0]
    } else if sv == 19 {
        seq![1, 3, 2, 0]
    } else if sv == 20 {
        seq![2, 1, 3, 0]
    } else if sv == 21 {
        seq![3, 1, 2, 0]
    } else if sv == 22 {
        seq![2, 3, 1, 0]
    } else {
        seq![3, 2, 1, 0]
    }
}

/// The shift value whose block order undoes the block order of `sv`.
pub open spec fn inverse_shift(sv: int) -> int {
    if sv == 0 {
        0
    } else if sv == 1 {
        1
    } else if sv == 2 {
        2
    } else if sv == 3 {
        4
    } else if sv == 4 {
        3
    } else if sv == 5 {
        5
    } else if sv == 6 {
        6
    } else if sv == 7 {
        7
    } else if sv == 8 {
        12
    } else if sv == 9 {
        18
    } else if sv == 10 {
        13
    } else if sv == 11 {
        19
    } else if sv == 12 {
        8
    } else if sv == 13 {
        10
    } else if sv == 14 {
        14
    } else if sv == 15 {
        20
    } else if sv == 16 {
        16
    } else if sv == 17 {
        22
    } else if sv == 18 {
        9
    } else if sv == 19 {
        11
    } else if sv == 20 {
        15
    } else if sv == 21 {
        21
    } else if sv == 22 {
        17
    } else {
        23
    }
}

/// The shift value a seed selects: bits 13 and above, masked to five bits
/// and reduced modulo the 24 valid block orders.
pub open spec fn shift_value(seed: u32) -> int {
    (((seed >> 13) & 0x1F) as int) % 24
}

/// The record with its body blocks rearranged: the header stays, and output
/// block `b` (blocks of 56 bytes, starting at byte 8) is stored block
/// `block_order(sv)[b]`.
pub open spec fn shuffled(data: Seq<u8>, sv: int) -> Seq<u8>
    recommends
        data.len() == RECORD_SIZE,
        0 <= sv < 24,
{
    let order = block_order(sv);
    Seq::new(
        data.len(),
        |i: int|
            if i < 8 {
                data[i]
            } else if i < 64 {
                data[8 + 56 * order[0] + (i - 8)]
            } else if i < 120 {
                data[8 + 56 * order[1] + (i - 64)]
            } else if i < 176 {
                data[8 + 56 * order[2] + (i - 120)]
            } else {
                data[8 + 56 * order[3] + (i - 176)]
            },
    )
}

/// Selects one of four values by position.
fn pick4(b: usize, a0: usize, a1: usize, a2: usize, a3: usize) -> (r: usize)
    requires
        b < 4,
    ensures
        r == seq![a0 as int, a1 as int, a2 as int, a3 as int][b as int],
{
    if b == 0 {
        a0
    } else if b == 1 {
        a1
    } else if b == 2 {
        a2
    } else {
        a3
    }
}

/// The stored block that ends up at output position `b` under shift value `sv`.
pub fn block_source(sv: usize, b: usize) -> (r: usize)
    requires
        sv < 24,
        b < 4,
    ensures
        r as int == block_order(sv as int)[b as int],
        r < 4,
{
    match sv {
        0 => pick4(b, 0, 1, 2, 3),
        1 => pick4(b, 0, 1, 3, 2),
        2 => pick4(b, 0, 2, 1, 3),
        3 => pick4(b, 0, 3, 1, 2),
        4 => pick4(b, 0, 2, 3, 1),
        5 => pick4(b, 0, 3, 2, 1),
        6 => pick4(b, 1, 0, 2, 3),
        7 => pick4(b, 1, 0, 3, 2),
        8 => pick4(b, 2, 0, 1, 3),
        9 => pick4(b, 3, 0, 1, 2),
        10 => pick4(b, 2, 0, 3, 1),
        11 => pick4(b, 3, 0, 2, 1),
        12 => pick4(b, 1, 2, 0, 3),
        13 => pick4(b, 1, 3, 0, 2),
        14 => pick4(b, 2, 1, 0, 3),
        15 => pick4(b, 3, 1, 0, 2),
        16 => pick4(b, 2, 3, 0, 1),
        17 => pick4(b, 3, 2, 0, 1),
        18 => pick4(b, 1, 2, 3, 0),
        19 => pick4(b, 1, 3, 2, 0),
        20 => pick4(b, 2, 1, 3, 0),
        21 => pick4(b, 3, 1, 2, 0),
        22 => pick4(b, 2, 3, 1, 0),
        _ => pick4(b, 3, 2, 1, 0),
    }
}

/// The shift value of a seed.
pub fn shift_of(seed: u32) -> (r: usize)
    ensures
        r as int == shift_value(seed),
        r < 24,
{
    let masked: u32 = (seed >> 13) & 0x1F;
    (masked % 24) as usize
}

/// The shift value whose block order undoes that of `sv`.
pub fn inverse_shift_of(sv: usize) -> (r: usize)
    requires
        sv < 24,
    ensures
        r as int == inverse_shift(sv as int),
        r < 24,
{
    match sv {
        0 => 0,
        1 => 1,
        2 => 2,
        3 => 4,
        4 => 3,
        5 => 5,
        6 => 6,
        7 => 7,
        8 => 12,
        9 => 18,
        10 => 13,
        11 => 19,
        12 => 8,
        13 => 10,
        14 => 14,
        15 => 20,
        16 => 16,
        17 => 22,
        18 => 9,
        19 => 11,
        20 => 15,
        21 => 21,
        22 => 17,
        _ => 23,
    }
}

/// Rearranges the body blocks of a record according to `block_order(sv)`.
#[verifier::rlimit(60)]
#[verifier::loop_isolation(false)]
pub fn shuffle(data: &Vec<u8>, sv: usize) -> (out: Vec<u8>)
    requires
        data@.len() == RECORD_SIZE,
        sv < 24,
    ensures
        out@ == shuffled(data@, sv as int),
{
    let ghost goal = shuffled(data@, sv as int);
    proof {
        assert(goal.len() == RECORD_SIZE);
    }
    let mut out: Vec<u8> = Vec::new();
    let mut i: usize = 0;
    while i < HEADER_SIZE
        invariant
            i <= HEADER_SIZE,
            out@.len() == i,
            forall|k: int| 0 <= k < i ==> out@[k] == goal[k],
        decreases HEADER_SIZE - i,
    {
        out.push(data[i]);
        proof {
            assert(goal[i as int] == data@[i as int]);
        }
        i = i + 1;
    }
    let mut b: usize = 0;
    while b < 4
        invariant
            b <= 4,
            out@.len() == HEADER_SIZE + BLOCK_SIZE * b,
            forall|k: int| 0 <= k < out@.len() ==> out@[k] == goal[k],
        decreases 4 - b,
    {
        let src: usize = block_source(sv, b);
        let mut k: usize = 0;
        while k < BLOCK_SIZE
            invariant
                b < 4,
                k <= BLOCK_SIZE,
                src < 4,
                src as int == block_order(sv as int)[b as int],
                out@.len() == HEADER_SIZE + BLOCK_SIZE * b + k,
                forall|j: int| 0 <= j < out@.len() ==> out@[j] == goal[j],
            decreases BLOCK_SIZE - k,
        {
            out.push(data[HEADER_SIZE + BLOCK_SIZE * src + k]);
            proof {
                assert(goal[(HEADER_SIZE + BLOCK_SIZE * b + k) as int] == data@[(HEADER_SIZE
                    + BLOCK_SIZE * src + k) as int]);
            }
            k = k + 1;
        }
        b = b + 1;
    }
    proof {
        assert(out@ =~= goal);
    }
    out
}

/// The canonical plaintext of a raw record: the XOR pass undone, then the
/// body blocks restored to natural order.
pub open spec fn decrypt_seq(raw: Seq<u8>, seed: u32) -> Seq<u8>
    recommends
        raw.len() == RECORD_SIZE,
{
    shuffled(crypt_seq(raw, seed), shift_value(seed))
}

/// The stored form of a plaintext record: the body blocks scattered by the
/// inverse block order, then the XOR pass applied.
pub open spec fn encrypt_seq(plain: Seq<u8>, seed: u32) -> Seq<u8>
    recommends
        plain.len() == RECORD_SIZE,
{
    crypt_seq(shuffled(plain, inverse_shift(shift_value(seed))), seed)
}

/// Decrypts a raw record into its canonical plaintext form.
pub fn decrypt(raw: &Vec<u8>, seed: u32) -> (out: Vec<u8>)
    requires
        raw@.len() == RECORD_SIZE,
    ensures
        out@ == decrypt_seq(raw@, seed),
        out@.len() == RECORD_SIZE,
{
    let mixed = crypt(raw, seed);
    proof {
        assert(mixed@.len() == RECORD_SIZE);
        assert(shuffled(mixed@, shift_value(seed)).len() == RECORD_SIZE);
    }
    shuffle(&mixed, shift_of(seed))
}

/// Encrypts a plaintext record into its stored form.
pub fn encrypt(plain: &Vec<u8>, seed: u32) -> (out: Vec<u8>)
    requires
        plain@.len() == RECORD_SIZE,
    ensures
        out@ == encrypt_seq(plain@, seed),
        out@.len() == RECORD_SIZE,
{
    let sv = inverse_shift_of(shift_of(seed));
    let mid = shuffle(plain, sv);
    proof {
        assert(mid@.len() == RECORD_SIZE);
        assert(crypt_seq(mid@, seed).len() == RECORD_SIZE);
    }
    crypt(&mid, seed)
}

/// The XOR pass is its own inverse: applying it twice with one seed gives
/// the input back.
pub proof fn lemma_crypt_self_inverse(data: Seq<u8>, seed: u32)
    ensures
        crypt_seq(crypt_seq(data, seed), seed) == data,
{
    let once = crypt_seq(data, seed);
    assert forall|i: int| 0 <= i < data.len() implies crypt_seq(once, seed)[i] == data[i] by {
        if i >= 8 {
            let k = key_byte(seed, (i - 8) as nat);
            let v = data[i];
            assert((v ^ k) ^ k == v) by (bit_vector);
        }
    };
    assert(crypt_seq(once, seed) =~= data);
}

/// Reading blocks in the inverse order undoes reading them in the given
/// order: position `b` comes back to itself.
pub proof fn lemma_block_order_inverts(sv: int, b: int)
    requires
        0 <= sv < 24,
        0 <= b < 4,
    ensures
        0 <= inverse_shift(sv) < 24,
        0 <= block_order(sv)[b] < 4,
        block_order(inverse_shift(sv))[block_order(sv)[b]] == b,
{
}

/// Shuffling with the inverse shift value and then with the shift value
/// itself restores the record.
#[verifier::rlimit(100)]
pub proof fn lemma_shuffle_inverts(data: Seq<u8>, sv: int)
    requires
        data.len() == RECORD_SIZE,
        0 <= sv < 24,
    ensures
        shuffled(shuffled(data, inverse_shift(sv)), sv) == data,
{
    lemma_block_order_inverts(sv, 0);
    lemma_block_order_inverts(sv, 1);
    lemma_block_order_inverts(sv, 2);
    lemma_block_order_inverts(sv, 3);
    let isv = inverse_shift(sv);
    let mid = shuffled(data, isv);
    assert forall|i: int| 0 <= i < RECORD_SIZE implies shuffled(mid, sv)[i] == data[i] by {
        assert(mid.len() == RECORD_SIZE);
    };
    assert(shuffled(mid, sv) =~= data);
}

/// Round trip: decrypting an encrypted record with the same seed restores
/// the plaintext exactly.
pub proof fn lemma_decrypt_inverts_encrypt(plain: Seq<u8>, seed: u32)
    requires
        plain.len() == RECORD_SIZE,
    ensures
        decrypt_seq(encrypt_seq(plain, seed), seed) == plain,
{
    let sv = shift_value(seed);
    assert(0 <= sv < 24);
    let mid = shuffled(plain, inverse_shift(sv));
    lemma_crypt_self_inverse(mid, seed);
    lemma_shuffle_inverts(plain, sv);
}

/// Decoding is deterministic: the canonical plaintext is a function of the
/// raw bytes and the seed alone, so equal inputs give equal outputs.
pub proof fn lemma_decrypt_deterministic(raw_a: Seq<u8>, seed_a: u32, raw_b: Seq<u8>, seed_b: u32)
    requires
        raw_a == raw_b,
        seed_a == seed_b,
    ensures
        decrypt_seq(raw_a, seed_a) == decrypt_seq(raw_b, seed_b),
{
}

} // verus!
