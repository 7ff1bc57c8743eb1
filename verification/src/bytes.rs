//! Comparisons on the 32-byte values that identities and commitments are made of.

use vstd::prelude::*;

verus! {

/// Whether every byte of `a` is zero.
pub open spec fn all_zero(a: [u8; 32]) -> bool {
    forall|i: int| 0 <= i < 32 ==> a[i] == 0
}

/// The value of thirty-two zero bytes.
pub open spec fn zeroes() -> [u8; 32] {
    vstd::array::spec_array_fill_for_copy_type::<u8, 32>(0u8)
}

/// `zeroes()` is all zero, and it is the only value that is.
pub proof fn lemma_zeroes(a: [u8; 32])
    ensures
        all_zero(zeroes()),
        all_zero(a) <==> a == zeroes(),
{
    broadcast use vstd::array::axiom_spec_array_fill_for_copy_type;

    assert(forall|i: int| 0 <= i < 32 ==> zeroes()@[i] == 0u8);
    assert(all_zero(zeroes()));
    if all_zero(a) {
        lemma_equal_bytewise(a, zeroes());
    }
}

/// Two 32-byte values are equal exactly when they agree byte by byte.
pub proof fn lemma_equal_bytewise(a: [u8; 32], b: [u8; 32])
    ensures
        (a == b) <==> (forall|i: int| 0 <= i < 32 ==> a[i] == b[i]),
{
    assert((a =~= b) <==> (forall|i: int| 0 <= i < 32 ==> a[i] == b[i]));
}

/// Whether `a` and `b` hold the same bytes.
pub fn bytes_equal(a: &[u8; 32], b: &[u8; 32]) -> (r: bool)
    ensures
        r == (*a == *b),
{
    let mut i: usize = 0;
    while i < 32
        invariant
            i <= 32,
            forall|j: int| 0 <= j < i ==> a[j] == b[j],
        decreases 32 - i,
    {
        if a[i] != b[i] {
            proof {
                lemma_equal_bytewise(*a, *b);
            }
            return false;
        }
        i += 1;
    }
    proof {
        lemma_equal_bytewise(*a, *b);
    }
    true
}

/// Whether `a` is the all-zero value.
pub fn is_all_zero(a: &[u8; 32]) -> (r: bool)
    ensures
        r == all_zero(*a),
{
    let mut i: usize = 0;
    while i < 32
        invariant
            i <= 32,
            forall|j: int| 0 <= j < i ==> a[j] == 0,
        decreases 32 - i,
    {
        if a[i] != 0 {
            return false;
        }
        i += 1;
    }
    true
}

} // verus!
