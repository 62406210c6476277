//! Numbers that are handed out one after the other.
use vstd::prelude::*;

verus! {

/// The number after another; after the largest comes zero.
pub open spec fn next_number(number: u64) -> u64 {
    if number == u64::MAX {
        0
    } else {
        (number + 1) as u64
    }
}

/// The number that comes a count of numbers later.
pub open spec fn number_after(number: u64, count: nat) -> u64
    decreases count,
{
    if count == 0 {
        number
    } else {
        next_number(number_after(number, (count - 1) as nat))
    }
}

proof fn lemma_number_after(number: u64, count: nat)
    ensures
        number_after(number, count) == (number + count) % 0x1_0000_0000_0000_0000,
    decreases count,
{
    if count > 0 {
        lemma_number_after(number, (count - 1) as nat);
    }
}

/// No number is handed out twice before every other one was.
pub proof fn numbers_do_not_repeat(number: u64, earlier: nat, later: nat)
    requires
        earlier < later < earlier + 0x1_0000_0000_0000_0000,
    ensures
        number_after(number, earlier) != number_after(number, later),
{
    lemma_number_after(number, earlier);
    lemma_number_after(number, later);
}

} // verus!
