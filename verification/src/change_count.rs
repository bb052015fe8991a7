//! Counting changes, for those who wait for the next one.

use vstd::prelude::*;

verus! {

/// The count after one more change. It wraps.
pub open spec fn bumped(count: u64) -> u64 {
    count.wrapping_add(1)
}

/// The count after `changes` more.
pub open spec fn bumped_times(count: u64, changes: nat) -> u64
    decreases changes,
{
    if changes == 0 {
        count
    } else {
        bumped(bumped_times(count, (changes - 1) as nat))
    }
}

/// Counts a change.
pub fn bump(count: u64) -> (r: u64)
    ensures
        r == bumped(count),
{
    count.wrapping_add(1)
}

proof fn bumped_times_value(count: u64, changes: nat)
    ensures
        bumped_times(count, changes) == (count + changes) % 0x1_0000_0000_0000_0000,
    decreases changes,
{
    if changes > 0 {
        bumped_times_value(count, (changes - 1) as nat);
    }
}

/// Whoever remembers a count sees that it has changed, unless as many changes
/// went by as there are counts.
pub proof fn changes_are_seen(count: u64, changes: nat)
    requires
        0 < changes < 0x1_0000_0000_0000_0000,
    ensures
        bumped_times(count, changes) != count,
{
    bumped_times_value(count, changes);
}

} // verus!
