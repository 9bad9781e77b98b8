//! A minimal host runtime bridge: the verified logic of a native host that
//! allocates memory on behalf of, and exchanges control with, a separately
//! compiled guest program through a fixed, size-described calling convention.
//!
//! The host's decisions are verified here; the foreign calls into the guest,
//! the raw heap operations and the actual I/O are performed by a thin
//! unverified shell that drives this library in the order its contracts
//! demand.

use vstd::prelude::*;

pub mod crash;
pub mod effects;
pub mod protocol;

verus! {

/// Appends every byte of `src` to `dst`, in order.
pub fn append_bytes(dst: &mut Vec<u8>, src: &[u8])
    ensures
        final(dst)@ == old(dst)@ + src@,
{
    let mut i: usize = 0;
    while i < src.len()
        invariant
            i <= src@.len(),
            dst@ == old(dst)@ + src@.take(i as int),
        decreases src@.len() - i,
    {
        dst.push(src[i]);
        proof {
            assert(src@.take(i + 1 as int) =~= src@.take(i as int).push(src@[i as int]));
        }
        i = i + 1;
    }
    proof {
        assert(src@.take(src@.len() as int) =~= src@);
    }
}

} // verus!
