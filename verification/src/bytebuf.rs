//! Small helpers for growing a byte buffer, used by the encoder.

use vstd::prelude::*;

verus! {

/// Append every byte of `bs` to `out`, in order.
pub(crate) fn push_bytes(out: &mut Vec<u8>, bs: &[u8])
    ensures
        final(out)@ == old(out)@ + bs@,
{
    let ghost start = out@;
    for i in 0..bs.len()
        invariant
            out@ == start + bs@.subrange(0, i as int),
    {
        out.push(bs[i]);
        proof {
            assert(out@ =~= start + bs@.subrange(0, i + 1));
        }
    }
    proof {
        assert(bs@.subrange(0, bs@.len() as int) =~= bs@);
    }
}

} // verus!
