use vstd::prelude::*;

verus! {

broadcast use vstd::array::group_array_axioms;

/// A replica commitment: a 32-byte digest of the sealed sector.
pub type Commitment = [u8; 32];

/// Compares two commitments byte by byte.
pub fn commitments_equal(a: &Commitment, b: &Commitment) -> (r: bool)
    ensures
        r == (*a == *b),
{
    let mut i: usize = 0;
    while i < 32
        invariant
            0 <= i <= 32,
            forall|j: int| 0 <= j < i ==> a@[j] == b@[j],
        decreases 32 - i,
    {
        if a[i] != b[i] {
            return false;
        }
        i = i + 1;
    }
    assert(*a =~= *b);
    true
}

} // verus!
