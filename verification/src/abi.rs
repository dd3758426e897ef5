//! Big-endian integers and 32-byte ABI words.

use vstd::prelude::*;

verus! {

/// Number of bytes in one ABI word.
pub const WORD_LEN: usize = 32;

/// Number of bytes that hold a `u64`.
pub const U64_LEN: usize = 8;

/// `256` to the power `n`.
pub open spec fn pow256(n: nat) -> nat
    decreases n,
{
    if n == 0 {
        1
    } else {
        256 * pow256((n - 1) as nat)
    }
}

/// The number that `bytes` spell in base 256, most significant byte first.
pub open spec fn be_value(bytes: Seq<u8>) -> nat
    decreases bytes.len(),
{
    if bytes.len() == 0 {
        0
    } else {
        be_value(bytes.drop_last()) * 256 + bytes.last() as nat
    }
}

/// The `len` low base-256 digits of `value`, most significant byte first.
pub open spec fn be_bytes(value: nat, len: nat) -> Seq<u8>
    decreases len,
{
    if len == 0 {
        Seq::<u8>::empty()
    } else {
        be_bytes(value / 256, (len - 1) as nat).push((value % 256) as u8)
    }
}

/// The ABI word of a `u64`: 24 zero bytes, then the value in 8 big-endian bytes.
pub open spec fn word_of(value: u64) -> Seq<u8> {
    Seq::new(24, |i: int| 0u8) + be_bytes(value as nat, 8)
}

/// The last 8 bytes of `data`, read as a big-endian integer.
pub open spec fn tail_value(data: Seq<u8>) -> nat
    recommends
        data.len() >= 8,
{
    be_value(data.subrange(data.len() - 8, data.len() as int))
}

/// `be_bytes` always yields `len` bytes.
pub proof fn lemma_be_bytes_len(value: nat, len: nat)
    ensures
        be_bytes(value, len).len() == len,
    decreases len,
{
    if len > 0 {
        lemma_be_bytes_len(value / 256, (len - 1) as nat);
    }
}

/// The byte `j` places from the end of `be_bytes(value, len)` is digit `j` of `value`.
pub proof fn lemma_be_bytes_digit(value: nat, len: nat, j: nat)
    requires
        j < len,
    ensures
        be_bytes(value, len).len() == len,
        be_bytes(value, len)[len - 1 - j] as nat == (value / pow256(j)) % 256,
    decreases len,
{
    lemma_be_bytes_len(value, len);
    lemma_be_bytes_len(value / 256, (len - 1) as nat);
    if j == 0 {
        assert(pow256(0) == 1);
    } else {
        lemma_be_bytes_digit(value / 256, (len - 1) as nat, (j - 1) as nat);
        let p = pow256((j - 1) as nat);
        lemma_pow256_positive((j - 1) as nat);
        assert(pow256(j) == 256 * p);
        assert((value / 256) / p == value / (256 * p)) by (nonlinear_arith)
            requires
                p > 0,
        ;
    }
}

/// Every power of 256 is positive.
pub proof fn lemma_pow256_positive(n: nat)
    ensures
        pow256(n) > 0,
    decreases n,
{
    if n > 0 {
        lemma_pow256_positive((n - 1) as nat);
    }
}

/// A big-endian number of `n` bytes is below `256^n`.
pub proof fn lemma_be_value_bound(bytes: Seq<u8>)
    ensures
        be_value(bytes) < pow256(bytes.len()),
    decreases bytes.len(),
{
    if bytes.len() > 0 {
        lemma_be_value_bound(bytes.drop_last());
    }
}

/// Reading back the digits of a number that fits gives the number.
pub proof fn lemma_be_round_trip(value: nat, len: nat)
    requires
        value < pow256(len),
    ensures
        be_value(be_bytes(value, len)) == value,
    decreases len,
{
    if len > 0 {
        let rest = be_bytes(value / 256, (len - 1) as nat);
        lemma_be_round_trip(value / 256, (len - 1) as nat);
        assert(be_bytes(value, len).drop_last() =~= rest);
        assert(be_bytes(value, len).last() == (value % 256) as u8);
    }
}

/// Eight bytes hold exactly the `u64` range.
pub proof fn lemma_pow256_u64()
    ensures
        pow256(8) == 0x1_0000_0000_0000_0000,
{
    reveal_with_fuel(pow256, 9);
}

/// Whether `data` begins with the bytes of `prefix`.
pub open spec fn starts_with(data: Seq<u8>, prefix: Seq<u8>) -> bool {
    data.len() >= prefix.len() && data.subrange(0, prefix.len() as int) == prefix
}

/// Tests whether call data begins with a 4-byte selector.
pub fn has_selector(data: &[u8], selector: &[u8; 4]) -> (found: bool)
    ensures
        found == starts_with(data@, selector@),
{
    if data.len() < 4 {
        return false;
    }
    let found = data[0] == selector[0] && data[1] == selector[1] && data[2] == selector[2]
        && data[3] == selector[3];
    proof {
        let head = data@.subrange(0, 4);
        if found {
            assert(head =~= selector@);
        } else {
            assert(head[0] == data@[0] && head[1] == data@[1] && head[2] == data@[2] && head[3]
                == data@[3]);
        }
    }
    found
}

/// Encodes a `u64` as one ABI word.
pub fn encode_word(value: u64) -> (word: Vec<u8>)
    ensures
        word@ == word_of(value),
        word@.len() == WORD_LEN,
{
    let mut word: Vec<u8> = Vec::new();
    let mut i: usize = 0;
    while i < WORD_LEN
        invariant
            i <= WORD_LEN,
            word@.len() == i,
            forall|k: int| 0 <= k < i ==> word@[k] == 0u8,
        decreases WORD_LEN - i,
    {
        word.push(0u8);
        i = i + 1;
    }
    let mut rest: u64 = value;
    let mut j: usize = 0;
    assert(pow256(0) == 1);
    while j < U64_LEN
        invariant
            j <= U64_LEN,
            word@.len() == WORD_LEN,
            forall|k: int| 0 <= k < 24 ==> word@[k] == 0u8,
            rest as nat == value as nat / pow256(j as nat),
            forall|d: nat| d < j ==> word@[31 - d] as nat == (value as nat / pow256(d)) % 256,
        decreases U64_LEN - j,
    {
        let digit: u8 = (rest % 256) as u8;
        word.set(WORD_LEN - 1 - j, digit);
        proof {
            let p = pow256(j as nat);
            lemma_pow256_positive(j as nat);
            assert(pow256((j + 1) as nat) == 256 * p);
            assert((value as nat / p) / 256 == value as nat / (256 * p)) by (nonlinear_arith)
                requires
                    p > 0,
            ;
        }
        rest = rest / 256;
        j = j + 1;
    }
    proof {
        let digits = be_bytes(value as nat, 8);
        lemma_be_bytes_len(value as nat, 8);
        assert forall|k: int| 0 <= k < 32 implies word@[k] == word_of(value)[k] by {
            if k >= 24 {
                let d = (31 - k) as nat;
                lemma_be_bytes_digit(value as nat, 8, d);
                assert(word_of(value)[k] == digits[k - 24]);
            }
        }
        assert(word@ =~= word_of(value));
    }
    word
}

/// Reads the last 8 bytes of `data` as a big-endian `u64`.
pub fn decode_tail(data: &[u8]) -> (value: u64)
    requires
        data@.len() >= U64_LEN,
    ensures
        value as nat == tail_value(data@),
{
    let start: usize = data.len() - U64_LEN;
    let ghost tail = data@.subrange(start as int, data@.len() as int);
    let mut value: u64 = 0;
    let mut i: usize = 0;
    while i < U64_LEN
        invariant
            i <= U64_LEN,
            start + U64_LEN == data@.len(),
            data@.len() <= usize::MAX,
            tail == data@.subrange(start as int, data@.len() as int),
            value as nat == be_value(tail.subrange(0, i as int)),
        decreases U64_LEN - i,
    {
        let byte: u8 = data[start + i];
        proof {
            let next = tail.subrange(0, i + 1);
            assert(next.drop_last() =~= tail.subrange(0, i as int));
            assert(next.last() == byte);
            lemma_be_value_bound(next);
            lemma_pow256_u64();
            lemma_pow256_monotonic((i + 1) as nat, 8);
        }
        value = value * 256 + byte as u64;
        i = i + 1;
    }
    assert(tail.subrange(0, 8) =~= tail);
    value
}

/// Powers of 256 grow with the exponent.
pub proof fn lemma_pow256_monotonic(a: nat, b: nat)
    requires
        a <= b,
    ensures
        pow256(a) <= pow256(b),
    decreases b,
{
    if a < b {
        lemma_pow256_monotonic(a, (b - 1) as nat);
    }
}

} // verus!
