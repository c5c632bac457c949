//! Weak and semi-weak DES keys.
//!
//! DES takes its key as eight bytes and ignores the low bit of each of them,
//! which is meant to hold a parity bit: a key is therefore compared with the
//! known weak keys once every byte has been given odd parity.
use crate::algorithm::{DES_LEN_3DES, DES_LEN_DES};
use crate::wipe::wipe_array;
use vstd::prelude::*;

verus! {

/// Number of keys in [`WEAK_DES_KEYS`].
pub const WEAK_DES_KEYS_LEN: usize = 16;

/// Weak and semi weak DES keys as taken from:
/// %A D.W. Davies
/// %A W.L. Price
/// %T Security for Computer Networks
/// %I John Wiley & Sons
/// %D 1984
pub const WEAK_DES_KEYS: [[u8; DES_LEN_DES]; WEAK_DES_KEYS_LEN] = [
    // weak keys
    [0x01, 0x01, 0x01, 0x01, 0x01, 0x01, 0x01, 0x01],
    [0xFE, 0xFE, 0xFE, 0xFE, 0xFE, 0xFE, 0xFE, 0xFE],
    [0x1F, 0x1F, 0x1F, 0x1F, 0x0E, 0x0E, 0x0E, 0x0E],
    [0xE0, 0xE0, 0xE0, 0xE0, 0xF1, 0xF1, 0xF1, 0xF1],
    // semi-weak keys
    [0x01, 0xFE, 0x01, 0xFE, 0x01, 0xFE, 0x01, 0xFE],
    [0xFE, 0x01, 0xFE, 0x01, 0xFE, 0x01, 0xFE, 0x01],
    [0x1F, 0xE0, 0x1F, 0xE0, 0x0E, 0xF1, 0x0E, 0xF1],
    [0xE0, 0x1F, 0xE0, 0x1F, 0xF1, 0x0E, 0xF1, 0x0E],
    [0x01, 0xE0, 0x01, 0xE0, 0x01, 0xF1, 0x01, 0xF1],
    [0xE0, 0x01, 0xE0, 0x01, 0xF1, 0x01, 0xF1, 0x01],
    [0x1F, 0xFE, 0x1F, 0xFE, 0x0E, 0xFE, 0x0E, 0xFE],
    [0xFE, 0x1F, 0xFE, 0x1F, 0xFE, 0x0E, 0xFE, 0x0E],
    [0x01, 0x1F, 0x01, 0x1F, 0x01, 0x0E, 0x01, 0x0E],
    [0x1F, 0x01, 0x1F, 0x01, 0x0E, 0x01, 0x0E, 0x01],
    [0xE0, 0xFE, 0xE0, 0xFE, 0xF1, 0xFE, 0xF1, 0xFE],
    [0xFE, 0xE0, 0xFE, 0xE0, 0xFE, 0xF1, 0xFE, 0xF1],
];

/// The number of bits that are set in a byte.
pub open spec fn ones(byte: u8) -> int {
    (byte & 1) + ((byte >> 1) & 1) + ((byte >> 2) & 1) + ((byte >> 3) & 1) + ((byte >> 4) & 1) + ((
    byte >> 5) & 1) + ((byte >> 6) & 1) + ((byte >> 7) & 1)
}

/// The byte with its low bit chosen so that an odd number of bits is set.
pub open spec fn odd_parity(byte: u8) -> u8 {
    if ones(byte & 0xFE) % 2 == 0 {
        (byte & 0xFE) | 1
    } else {
        byte & 0xFE
    }
}

/// Block number `block` of a key, with odd parity.
pub open spec fn parity_block(key: Seq<u8>, block: int) -> Seq<u8> {
    Seq::new(DES_LEN_DES as nat, |j: int| odd_parity(key[block * DES_LEN_DES + j]))
}

/// One of the three DES keys that make up a 3DES key is weak or semi-weak.
pub open spec fn is_weak(key: Seq<u8>) -> bool {
    exists|block: int, w: int| #![trigger parity_block(key, block), WEAK_DES_KEYS@[w]]
        0 <= block < 3 && 0 <= w < WEAK_DES_KEYS_LEN && parity_block(key, block)
            == WEAK_DES_KEYS@[w]@
}

/// Gives a byte odd parity in its low bit, and keeps its other bits.
fn set_odd_parity(byte: u8) -> (r: u8)
    ensures
        r == odd_parity(byte),
{
    // count number of set bits in byte, excluding the low-order bit - SWAR method
    let high: u8 = byte & 0xFE;
    assert((high & 0x55) + ((high >> 1) & 0x55) < 256) by (bit_vector);
    let pairs: u8 = (high & 0x55) + ((high >> 1) & 0x55);
    assert((pairs & 0x33) + ((pairs >> 2) & 0x33) < 256) by (bit_vector);
    let nibbles: u8 = (pairs & 0x33) + ((pairs >> 2) & 0x33);
    assert((nibbles & 0x0F) + ((nibbles >> 4) & 0x0F) < 256) by (bit_vector);
    let count: u8 = (nibbles & 0x0F) + ((nibbles >> 4) & 0x0F);
    assert(count == ones(high) && (count & 1 == 1 <==> ones(high) % 2 != 0)) by (bit_vector)
        requires
            pairs == (high & 0x55) + ((high >> 1) & 0x55),
            nibbles == (pairs & 0x33) + ((pairs >> 2) & 0x33),
            count == (nibbles & 0x0F) + ((nibbles >> 4) & 0x0F),
    ;
    assert(high | 0 == high) by (bit_vector);
    // if count is even, set low key bit to 1, otherwise 0
    let low: u8 = if count & 0x01 != 0x01 { 1 } else { 0 };
    high | low
}

/// Whether block number `block` of a key is the given DES key.
fn block_is(key: &[u8; DES_LEN_3DES], block: usize, des_key: &[u8; DES_LEN_DES]) -> (r: bool)
    requires
        block < 3,
    ensures
        r == (key@.subrange(block * DES_LEN_DES, (block + 1) * DES_LEN_DES) == des_key@),
{
    let mut j: usize = 0;
    while j < DES_LEN_DES
        invariant
            block < 3,
            j <= DES_LEN_DES,
            forall|k: int| 0 <= k < j ==> key@[block * DES_LEN_DES + k] == des_key@[k],
        decreases DES_LEN_DES - j,
    {
        if key[block * DES_LEN_DES + j] != des_key[j] {
            assert(key@.subrange(block * DES_LEN_DES, (block + 1) * DES_LEN_DES)[j as int]
                != des_key@[j as int]);
            return false;
        }
        j += 1;
    }
    assert(key@.subrange(block * DES_LEN_DES, (block + 1) * DES_LEN_DES) =~= des_key@);
    true
}

/// Is this 3DES key weak?
///
/// This check is performed by [`MgmKey::new`](crate::key::MgmKey::new) and
/// [`MgmKey::from_bytes`](crate::key::MgmKey::from_bytes), to ensure that no such
/// keys are used.
pub fn is_weak_key(key: &[u8; DES_LEN_3DES]) -> (weak: bool)
    ensures
        weak == is_weak(key@),
        weak == (exists|block: int, w: int|
            0 <= block < 3 && 0 <= w < 16 && #[trigger] agrees_up_to_parity(key@, block, w)),
{
    proof {
        lemma_weak_up_to_parity(key@);
    }
    // set odd parity of key
    let mut tmp: [u8; 24] = [0u8; 24];
    let mut i: usize = 0;
    while i < DES_LEN_3DES
        invariant
            i <= DES_LEN_3DES,
            forall|k: int| 0 <= k < i ==> tmp@[k] == odd_parity(key@[k]),
        decreases DES_LEN_3DES - i,
    {
        tmp[i] = set_odd_parity(key[i]);
        i += 1;
    }
    assert forall|block: int| 0 <= block < 3 implies tmp@.subrange(
        block * DES_LEN_DES,
        (block + 1) * DES_LEN_DES,
    ) == #[trigger] parity_block(key@, block) by {
        assert(tmp@.subrange(block * DES_LEN_DES, (block + 1) * DES_LEN_DES) =~= parity_block(
            key@,
            block,
        ));
    }

    // check odd parity key against table by DES key block
    let mut weak: bool = false;
    let mut w: usize = 0;
    while w < WEAK_DES_KEYS_LEN
        invariant_except_break
            !weak,
        invariant
            w <= WEAK_DES_KEYS_LEN,
            forall|block: int|
                0 <= block < 3 ==> tmp@.subrange(block * DES_LEN_DES, (block + 1) * DES_LEN_DES)
                    == #[trigger] parity_block(key@, block),
            forall|block: int, v: int|
                #![trigger parity_block(key@, block), WEAK_DES_KEYS@[v]]
                0 <= block < 3 && 0 <= v < w ==> parity_block(key@, block) != WEAK_DES_KEYS@[v]@,
        ensures
            weak == is_weak(key@),
        decreases WEAK_DES_KEYS_LEN - w,
    {
        let first: bool = block_is(&tmp, 0, &WEAK_DES_KEYS[w]);
        let second: bool = block_is(&tmp, 1, &WEAK_DES_KEYS[w]);
        let third: bool = block_is(&tmp, 2, &WEAK_DES_KEYS[w]);
        assert(first == (parity_block(key@, 0) == WEAK_DES_KEYS@[w as int]@));
        assert(second == (parity_block(key@, 1) == WEAK_DES_KEYS@[w as int]@));
        assert(third == (parity_block(key@, 2) == WEAK_DES_KEYS@[w as int]@));
        if first || second || third {
            weak = true;
            break;
        }
        w += 1;
    }
    wipe_array(&mut tmp);
    weak
}

/// Setting the parity leaves an odd number of bits set and changes the low bit alone.
pub proof fn lemma_odd_parity(byte: u8)
    ensures
        ones(odd_parity(byte)) % 2 == 1,
        odd_parity(byte) & 0xFE == byte & 0xFE,
{
    assert(ones(odd_parity(byte)) % 2 == 1 && odd_parity(byte) & 0xFE == byte & 0xFE)
        by (bit_vector);
}

/// Bytes get the same parity byte exactly when they differ in their low bit at most.
pub proof fn lemma_parity_byte_equal(a: u8, b: u8)
    ensures
        odd_parity(a) == odd_parity(b) <==> a & 0xFE == b & 0xFE,
{
    assert(odd_parity(a) == odd_parity(b) <==> a & 0xFE == b & 0xFE) by (bit_vector);
}

/// Every byte of every listed key has odd parity already.
pub proof fn lemma_table_has_odd_parity(w: int, j: int)
    requires
        0 <= w < WEAK_DES_KEYS_LEN,
        0 <= j < DES_LEN_DES,
    ensures
        odd_parity(WEAK_DES_KEYS@[w]@[j]) == WEAK_DES_KEYS@[w]@[j],
{
    let byte = WEAK_DES_KEYS@[w]@[j];
    assert(byte == 0x01 || byte == 0xFE || byte == 0x1F || byte == 0xE0 || byte == 0x0E || byte
        == 0xF1);
    assert(odd_parity(0x01) == 0x01 && odd_parity(0xFE) == 0xFE && odd_parity(0x1F) == 0x1F
        && odd_parity(0xE0) == 0xE0 && odd_parity(0x0E) == 0x0E && odd_parity(0xF1) == 0xF1)
        by (bit_vector);
}

/// Block number `block` of a key agrees with the listed key number `w`, but perhaps in
/// the low bit of each byte.
pub open spec fn agrees_up_to_parity(key: Seq<u8>, block: int, w: int) -> bool {
    forall|j: int|
        #![trigger WEAK_DES_KEYS@[w]@[j]]
        0 <= j < DES_LEN_DES ==> key[block * DES_LEN_DES + j] & 0xFE == WEAK_DES_KEYS@[w]@[j] & 0xFE
}

/// Weakness is a matter of the 56 bits that DES uses: a key is weak exactly when one
/// of its blocks is a listed key up to the low bit of each byte.
pub proof fn lemma_weak_up_to_parity(key: Seq<u8>)
    requires
        key.len() == DES_LEN_3DES,
    ensures
        is_weak(key) <==> exists|block: int, w: int|
            0 <= block < 3 && 0 <= w < WEAK_DES_KEYS_LEN && #[trigger] agrees_up_to_parity(
                key,
                block,
                w,
            ),
{
    assert forall|block: int, w: int|
        0 <= block < 3 && 0 <= w < WEAK_DES_KEYS_LEN implies #[trigger] agrees_up_to_parity(
        key,
        block,
        w,
    ) == (parity_block(key, block) == WEAK_DES_KEYS@[w]@) by {
        lemma_agrees_up_to_parity(key, block, w);
    }
    if is_weak(key) {
        let (block, w) = choose|block: int, w: int|
            #![trigger parity_block(key, block), WEAK_DES_KEYS@[w]]
            0 <= block < 3 && 0 <= w < WEAK_DES_KEYS_LEN && parity_block(key, block)
                == WEAK_DES_KEYS@[w]@;
        assert(agrees_up_to_parity(key, block, w));
    }
}

/// A block of a key agrees with a listed key up to parity exactly when it is that key
/// once it has odd parity.
proof fn lemma_agrees_up_to_parity(key: Seq<u8>, block: int, w: int)
    requires
        key.len() == DES_LEN_3DES,
        0 <= block < 3,
        0 <= w < WEAK_DES_KEYS_LEN,
    ensures
        agrees_up_to_parity(key, block, w) == (parity_block(key, block) == WEAK_DES_KEYS@[w]@),
{
    assert forall|j: int| 0 <= j < DES_LEN_DES implies (parity_block(key, block)[j]
        == #[trigger] WEAK_DES_KEYS@[w]@[j]) == (key[block * DES_LEN_DES + j] & 0xFE
        == WEAK_DES_KEYS@[w]@[j] & 0xFE) by {
        lemma_table_has_odd_parity(w, j);
        lemma_parity_byte_equal(key[block * DES_LEN_DES + j], WEAK_DES_KEYS@[w]@[j]);
    }
    if agrees_up_to_parity(key, block, w) {
        assert forall|j: int| 0 <= j < DES_LEN_DES implies parity_block(key, block)[j]
            == WEAK_DES_KEYS@[w]@[j] by {
            assert(key[block * DES_LEN_DES + j] & 0xFE == WEAK_DES_KEYS@[w]@[j] & 0xFE);
        }
        assert(parity_block(key, block) =~= WEAK_DES_KEYS@[w]@);
    }
}

/// The parity bits of a key have no bearing on whether it is weak.
pub proof fn lemma_parity_bits_ignored(a: Seq<u8>, b: Seq<u8>)
    requires
        a.len() == DES_LEN_3DES,
        b.len() == DES_LEN_3DES,
        forall|i: int| 0 <= i < DES_LEN_3DES ==> a[i] & 0xFE == b[i] & 0xFE,
    ensures
        is_weak(a) == is_weak(b),
{
    assert forall|block: int| 0 <= block < 3 implies parity_block(a, block) == parity_block(
        b,
        block,
    ) by {
        assert forall|j: int| 0 <= j < DES_LEN_DES implies parity_block(a, block)[j]
            == parity_block(b, block)[j] by {
            lemma_parity_byte_equal(a[block * DES_LEN_DES + j], b[block * DES_LEN_DES + j]);
        }
        assert(parity_block(a, block) =~= parity_block(b, block));
    }
}

/// The weak and the semi-weak keys are those that DES splits into two halves of 28 bits of
/// which each is all zeroes, all ones, or zeroes and ones in turn. Up to the parity bits, the
/// bytes of such a key are `a b a b c d c d`, where `a` goes with `c`, and `b` with `d`, in one
/// of four pairs. A 3DES key is weak exactly when one of its three blocks is such a key.
pub proof fn law_weak_keys(key: Seq<u8>)
    requires
        key.len() == 24,
    ensures
        is_weak(key) <==> exists|o: int|
            #![trigger key[o]]
            {
                &&& o == 0 || o == 8 || o == 16
                &&& key[o] & 0xFE == key[o + 2] & 0xFE
                &&& key[o + 1] & 0xFE == key[o + 3] & 0xFE
                &&& key[o + 4] & 0xFE == key[o + 6] & 0xFE
                &&& key[o + 5] & 0xFE == key[o + 7] & 0xFE
                &&& {
                    ||| key[o] & 0xFE == 0x00 && key[o + 4] & 0xFE == 0x00
                    ||| key[o] & 0xFE == 0xFE && key[o + 4] & 0xFE == 0xFE
                    ||| key[o] & 0xFE == 0x1E && key[o + 4] & 0xFE == 0x0E
                    ||| key[o] & 0xFE == 0xE0 && key[o + 4] & 0xFE == 0xF0
                }
                &&& {
                    ||| key[o + 1] & 0xFE == 0x00 && key[o + 5] & 0xFE == 0x00
                    ||| key[o + 1] & 0xFE == 0xFE && key[o + 5] & 0xFE == 0xFE
                    ||| key[o + 1] & 0xFE == 0x1E && key[o + 5] & 0xFE == 0x0E
                    ||| key[o + 1] & 0xFE == 0xE0 && key[o + 5] & 0xFE == 0xF0
                }
            },
{
    lemma_weak_up_to_parity(key);
    lemma_halves(key, 0);
    lemma_halves(key, 1);
    lemma_halves(key, 2);
    if is_weak(key) {
        let (block, w) = choose|block: int, w: int|
            0 <= block < 3 && 0 <= w < WEAK_DES_KEYS_LEN && #[trigger] agrees_up_to_parity(
                key,
                block,
                w,
            );
        let o = 8 * block;
        assert(has_halves(key, o));
        let first = key[o];
    }
}

/// `is_weak_key` tells exactly the weak keys.
pub proof fn law_weak_keys_are_told(key: &[u8; 24], weak: bool)
    requires
        call_ensures(is_weak_key, (key,), weak),
    ensures
        weak <==> is_weak(key@),
{
}

/// The first byte of a half, and the byte that goes with it, up to the parity bits.
spec fn pair(a: u8, c: u8) -> bool {
    ||| a & 0xFE == 0x00 && c & 0xFE == 0x00
    ||| a & 0xFE == 0xFE && c & 0xFE == 0xFE
    ||| a & 0xFE == 0x1E && c & 0xFE == 0x0E
    ||| a & 0xFE == 0xE0 && c & 0xFE == 0xF0
}

/// The eight bytes from `o` on are a key with such halves.
spec fn has_halves(key: Seq<u8>, o: int) -> bool {
    &&& key[o] & 0xFE == key[o + 2] & 0xFE
    &&& key[o + 1] & 0xFE == key[o + 3] & 0xFE
    &&& key[o + 4] & 0xFE == key[o + 6] & 0xFE
    &&& key[o + 5] & 0xFE == key[o + 7] & 0xFE
    &&& pair(key[o], key[o + 4])
    &&& pair(key[o + 1], key[o + 5])
}

/// A block has such halves exactly when it is a listed key up to the parity bits.
proof fn lemma_halves(key: Seq<u8>, block: int)
    requires
        key.len() == DES_LEN_3DES,
        0 <= block < 3,
    ensures
        has_halves(key, 8 * block) == (exists|w: int|
            0 <= w < WEAK_DES_KEYS_LEN && #[trigger] agrees_up_to_parity(key, block, w)),
{
    let o = 8 * block;
    assert(0x01u8 & 0xFE == 0x00 && 0xFEu8 & 0xFE == 0xFE && 0x1Fu8 & 0xFE == 0x1E && 0x0Eu8 & 0xFE
        == 0x0E && 0xE0u8 & 0xFE == 0xE0 && 0xF1u8 & 0xFE == 0xF0) by (bit_vector);
    if has_halves(key, o) {
        let a = key[o] & 0xFE;
        let b = key[o + 1] & 0xFE;
        let w: int = if a == 0x00 {
            if b == 0x00 { 0 } else if b == 0xFE { 4 } else if b == 0xE0 { 8 } else { 12 }
        } else if a == 0xFE {
            if b == 0xFE { 1 } else if b == 0x00 { 5 } else if b == 0x1E { 11 } else { 15 }
        } else if a == 0x1E {
            if b == 0x1E { 2 } else if b == 0xE0 { 6 } else if b == 0xFE { 10 } else { 13 }
        } else {
            if b == 0xE0 { 3 } else if b == 0x1E { 7 } else if b == 0x00 { 9 } else { 14 }
        };
        assert(agrees_up_to_parity(key, block, w));
    }
    if exists|w: int|
        0 <= w < WEAK_DES_KEYS_LEN && #[trigger] agrees_up_to_parity(key, block, w) {
        let w = choose|w: int|
            0 <= w < WEAK_DES_KEYS_LEN && #[trigger] agrees_up_to_parity(key, block, w);
        assert(forall|j: int|
            0 <= j < 8 ==> key[o + j] & 0xFE == #[trigger] WEAK_DES_KEYS@[w]@[j] & 0xFE);
        assert(WEAK_DES_KEYS@[w]@[0] == WEAK_DES_KEYS@[w]@[2]);
        assert(WEAK_DES_KEYS@[w]@[1] == WEAK_DES_KEYS@[w]@[3]);
        assert(WEAK_DES_KEYS@[w]@[4] == WEAK_DES_KEYS@[w]@[6]);
        assert(WEAK_DES_KEYS@[w]@[5] == WEAK_DES_KEYS@[w]@[7]);
    }
}

} // verus!
