//! Small helpers on byte slices and byte vectors.

use vstd::prelude::*;

verus! {

/// The view of an optional byte slice as an optional sequence.
pub open spec fn opt_bytes_view(o: Option<&[u8]>) -> Option<Seq<u8>> {
    match o {
        Some(b) => Some(b@),
        None => None,
    }
}

/// The view of an optional byte vector as an optional sequence.
pub open spec fn opt_vec_view(o: Option<Vec<u8>>) -> Option<Seq<u8>> {
    match o {
        Some(b) => Some(b@),
        None => None,
    }
}

/// Appends every byte of `add` to `out`.
pub fn push_all(out: &mut Vec<u8>, add: &[u8])
    ensures
        final(out)@ == old(out)@ + add@,
{
    let mut j: usize = 0;
    while j < add.len()
        invariant
            j <= add@.len(),
            out@ == old(out)@ + add@.take(j as int),
        decreases add@.len() - j,
    {
        out.push(add[j]);
        proof {
            assert(old(out)@ + add@.take(j as int) + seq![add@[j as int]] =~= old(out)@
                + add@.take(j as int + 1));
        }
        j = j + 1;
    }
    proof {
        assert(add@.take(add@.len() as int) =~= add@);
    }
}

/// Decides byte-for-byte equality of two slices.
pub fn bytes_eq(a: &[u8], b: &[u8]) -> (r: bool)
    ensures
        r == (a@ == b@),
{
    if a.len() != b.len() {
        return false;
    }
    let mut j: usize = 0;
    while j < a.len()
        invariant
            j <= a@.len(),
            a@.len() == b@.len(),
            forall|k: int| 0 <= k < j ==> a@[k] == b@[k],
        decreases a@.len() - j,
    {
        if a[j] != b[j] {
            return false;
        }
        j = j + 1;
    }
    proof {
        assert(a@ =~= b@);
    }
    true
}

} // verus!
