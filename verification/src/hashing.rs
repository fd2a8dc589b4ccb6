//! Hash keys of the vector, quaternion and matrix types. A value is hashed
//! through the bit patterns of its components; negative zero is first
//! replaced by positive zero, so that values that compare equal (`-0.0 ==
//! 0.0`) hash alike.

use vstd::prelude::*;

verus! {

/// Bit pattern of the double-precision negative zero.
pub const NEGATIVE_ZERO_BITS: u64 = 0x8000_0000_0000_0000;

/// The bit pattern that stands for a component in a hash key.
pub open spec fn canonical_bits_spec(bits: u64) -> u64 {
    if bits == NEGATIVE_ZERO_BITS {
        0
    } else {
        bits
    }
}

/// The bit pattern that stands for a component in a hash key.
pub fn canonical_bits(bits: u64) -> (r: u64)
    ensures
        r == canonical_bits_spec(bits),
{
    if bits == NEGATIVE_ZERO_BITS {
        0
    } else {
        bits
    }
}

/// The hash key of a value whose components have the given bit patterns.
pub fn hash_key(components: &[u64]) -> (key: Vec<u64>)
    ensures
        key@ == components@.map_values(|b: u64| canonical_bits_spec(b)),
{
    let mut key: Vec<u64> = Vec::new();
    let mut i: usize = 0;
    while i < components.len()
        invariant
            i <= components@.len(),
            key@ == components@.take(i as int).map_values(|b: u64| canonical_bits_spec(b)),
        decreases components@.len() - i,
    {
        key.push(canonical_bits(components[i]));
        i += 1;
        assert(key@ =~= components@.take(i as int).map_values(|b: u64| canonical_bits_spec(b)));
    }
    assert(components@.take(i as int) =~= components@);
    key
}

/// Two components give the same key exactly when their bit patterns are
/// equal or both are zeros of either sign.
pub proof fn lemma_canonical_bits_identify_zeros(a: u64, b: u64)
    ensures
        canonical_bits_spec(a) == canonical_bits_spec(b) <==> (a == b || ((a == 0 || a
            == NEGATIVE_ZERO_BITS) && (b == 0 || b == NEGATIVE_ZERO_BITS))),
{
}

/// Values whose components agree up to the sign of zero have the same key.
pub proof fn lemma_keys_ignore_sign_of_zero(a: Seq<u64>, b: Seq<u64>)
    requires
        a.len() == b.len(),
        forall|i: int|
            0 <= i < a.len() ==> (a[i] == b[i] || ((a[i] == 0 || a[i] == NEGATIVE_ZERO_BITS) && (
            b[i] == 0 || b[i] == NEGATIVE_ZERO_BITS))),
    ensures
        a.map_values(|x: u64| canonical_bits_spec(x)) == b.map_values(
            |x: u64| canonical_bits_spec(x),
        ),
{
    assert(a.map_values(|x: u64| canonical_bits_spec(x)) =~= b.map_values(
        |x: u64| canonical_bits_spec(x),
    ));
}

} // verus!
