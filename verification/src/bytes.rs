//! Little-endian integers as byte sequences.

use vstd::prelude::*;

verus! {

/// The `width` bytes of `n`, least significant byte first; higher bytes are dropped.
pub open spec fn le_bytes(n: nat, width: nat) -> Seq<u8>
    decreases width,
{
    if width == 0 {
        Seq::empty()
    } else {
        seq![(n % 256) as u8] + le_bytes(n / 256, (width - 1) as nat)
    }
}

/// The number that `s` holds, least significant byte first.
pub open spec fn le_value(s: Seq<u8>) -> nat
    decreases s.len(),
{
    if s.len() == 0 {
        0
    } else {
        s[0] as nat + 256 * le_value(s.drop_first())
    }
}

/// How many values fit in `width` bytes.
pub open spec fn byte_range(width: nat) -> nat
    decreases width,
{
    if width == 0 {
        1
    } else {
        256 * byte_range((width - 1) as nat)
    }
}

/// Reading back what was written gives the same number, where it fits the width.
pub proof fn le_value_of_le_bytes(n: nat, width: nat)
    requires
        n < byte_range(width),
    ensures
        le_bytes(n, width).len() == width,
        le_value(le_bytes(n, width)) == n,
    decreases width,
{
    if width > 0 {
        le_value_of_le_bytes(n / 256, (width - 1) as nat);
        let s = le_bytes(n, width);
        assert(s.drop_first() =~= le_bytes(n / 256, (width - 1) as nat));
    }
}

/// A written number has exactly the width asked for.
pub proof fn le_bytes_len(n: nat, width: nat)
    ensures
        le_bytes(n, width).len() == width,
    decreases width,
{
    if width > 0 {
        le_bytes_len(n / 256, (width - 1) as nat);
    }
}

/// Appends the `width` low bytes of `n`, least significant first.
pub fn push_le(out: &mut Vec<u8>, n: u64, width: usize)
    ensures
        final(out)@ == old(out)@ + le_bytes(n as nat, width as nat),
{
    let mut rest: u64 = n;
    let mut left: usize = width;
    while left > 0
        invariant
            left <= width,
            old(out)@ + le_bytes(n as nat, width as nat) == out@ + le_bytes(
                rest as nat,
                left as nat,
            ),
        decreases left,
    {
        out.push((rest % 256) as u8);
        rest = rest / 256;
        left = left - 1;
        assert(out@ + le_bytes(rest as nat, left as nat) =~= old(out)@ + le_bytes(
            n as nat,
            width as nat,
        ));
    }
    assert(out@ + le_bytes(rest as nat, 0) =~= out@);
}

} // verus!
