use vstd::arithmetic::div_mod::lemma_add_mod_noop;
use vstd::prelude::*;

verus! {

/// One step of an M-Bus checksum: the sum of two bytes modulo 256.
pub open spec fn add_mod(a: u8, b: u8) -> u8 {
    ((a + b) % 256) as u8
}

/// Wrapping sum of a byte sequence, each addition modulo 256.
pub open spec fn sum_mod(bytes: Seq<u8>) -> u8
    decreases bytes.len(),
{
    if bytes.len() == 0 {
        0
    } else {
        add_mod(sum_mod(bytes.drop_last()), bytes.last())
    }
}

/// Mathematical sum of a byte sequence, without wrapping.
pub open spec fn byte_sum(bytes: Seq<u8>) -> int
    decreases bytes.len(),
{
    if bytes.len() == 0 {
        0
    } else {
        byte_sum(bytes.drop_last()) + bytes.last()
    }
}

/// The wrapping sum of a byte sequence is its mathematical sum modulo 256.
pub proof fn lemma_sum_mod_is_byte_sum(bytes: Seq<u8>)
    ensures
        sum_mod(bytes) == byte_sum(bytes) % 256,
    decreases bytes.len(),
{
    if bytes.len() == 0 {
    } else {
        lemma_sum_mod_is_byte_sum(bytes.drop_last());
        lemma_add_mod_noop(byte_sum(bytes.drop_last()), bytes.last() as int, 256);
    }
}

/// Folding one more byte into a wrapping sum extends the summed prefix by
/// one element.
pub proof fn lemma_sum_mod_push(bytes: Seq<u8>, b: u8)
    ensures
        sum_mod(bytes.push(b)) == add_mod(sum_mod(bytes), b),
{
    assert(bytes.push(b).drop_last() =~= bytes);
}

/// Compute the wrapping sum of a byte slice, each addition modulo 256.
pub fn sum_bytes(bytes: &[u8]) -> (sum: u8)
    ensures
        sum == sum_mod(bytes@),
{
    let mut sum: u8 = 0;
    let mut i: usize = 0;
    while i < bytes.len()
        invariant
            i <= bytes.len(),
            sum == sum_mod(bytes@.take(i as int)),
        decreases bytes.len() - i,
    {
        proof {
            assert(bytes@.take(i + 1) =~= bytes@.take(i as int).push(bytes@[i as int]));
            lemma_sum_mod_push(bytes@.take(i as int), bytes@[i as int]);
        }
        sum = sum.wrapping_add(bytes[i]);
        i = i + 1;
    }
    proof {
        assert(bytes@.take(bytes@.len() as int) =~= bytes@);
    }
    sum
}

} // verus!
