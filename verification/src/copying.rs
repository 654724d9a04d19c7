//! Element-wise duplication of the vectors that cross the API, proved to
//! preserve the mathematical value of the source.

use vstd::prelude::*;

use crate::types::Withdrawal;

verus! {

/// Duplicate a vector of copyable elements.
pub fn copy_plain_vec<T: Copy>(v: &Vec<T>) -> (r: Vec<T>)
    ensures
        r@ == v@,
{
    let mut r: Vec<T> = Vec::new();
    let mut i: usize = 0;
    while i < v.len()
        invariant
            i <= v.len(),
            r@ == v@.subrange(0, i as int),
        decreases v.len() - i,
    {
        r.push(v[i]);
        proof {
            assert(v@.subrange(0, (i + 1) as int) =~= v@.subrange(0, i as int).push(v@[i as int]));
        }
        i = i + 1;
    }
    proof {
        assert(v@.subrange(0, v@.len() as int) =~= v@);
    }
    r
}

/// Duplicate a list of byte strings.
pub fn copy_byte_lists(v: &Vec<Vec<u8>>) -> (r: Vec<Vec<u8>>)
    ensures
        r.deep_view() == v.deep_view(),
{
    let mut r: Vec<Vec<u8>> = Vec::new();
    let mut i: usize = 0;
    while i < v.len()
        invariant
            i <= v.len(),
            r.deep_view() == v.deep_view().subrange(0, i as int),
        decreases v.len() - i,
    {
        let ghost prefix = r.deep_view();
        let entry = copy_plain_vec(&v[i]);
        proof {
            assert(entry.deep_view() =~= v@[i as int].deep_view());
        }
        r.push(entry);
        proof {
            assert(r.deep_view() =~= prefix.push(entry.deep_view()));
            assert(v.deep_view().subrange(0, (i + 1) as int)
                =~= v.deep_view().subrange(0, i as int).push(v@[i as int].deep_view()));
        }
        i = i + 1;
    }
    proof {
        assert(v.deep_view().subrange(0, v.deep_view().len() as int) =~= v.deep_view());
    }
    r
}

/// Duplicate an optional withdrawals list, keeping absence distinct from
/// an empty list.
pub fn copy_withdrawals(w: &Option<Vec<Withdrawal>>) -> (r: Option<Vec<Withdrawal>>)
    ensures
        match *w {
            Some(ref ws) => (r matches Some(rs) && rs@ == ws@),
            None => r is None,
        },
{
    match w {
        Some(ws) => Some(copy_plain_vec(ws)),
        None => None,
    }
}

} // verus!
