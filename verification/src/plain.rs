//! A wrapping counter that hands out small sequential numbers.

use vstd::prelude::*;
use crate::counter::{advance, successor};

verus! {

/// A sequential identifier.
pub type SID = u64;

/// The counter after `n` identifiers have been handed out, starting at `seed`.
pub open spec fn counter_after(seed: u64, n: nat) -> u64
    decreases n,
{
    if n == 0 {
        seed
    } else {
        successor(counter_after(seed, (n - 1) as nat))
    }
}

/// The counter right after a reset, whatever it held before.
pub open spec fn counter_after_reset(counter: u64) -> u64 {
    0
}

/// A sequential number generator.
///
/// Its abstract value is the number that the next call of
/// [`PlainSequence::next_id`] returns.
pub struct PlainSequence {
    counter: u64,
}

impl View for PlainSequence {
    type V = u64;

    closed spec fn view(&self) -> u64 {
        self.counter
    }
}

impl PlainSequence {
    /// Creates a generator whose first identifier is 0.
    pub fn new() -> (seq: PlainSequence)
        ensures
            seq@ == 0,
    {
        PlainSequence { counter: 0 }
    }

    /// Returns the current counter and advances it by one, wrapping to zero
    /// past the largest 64-bit value.
    pub fn next_id(&mut self) -> (id: SID)
        ensures
            id == old(self)@,
            final(self)@ == successor(old(self)@),
    {
        let id: SID = self.counter;
        self.counter = advance(id);
        id
    }

    /// Puts the counter back to 0.
    pub fn reset(&mut self)
        ensures
            final(self)@ == counter_after_reset(old(self)@),
    {
        self.counter = 0;
    }
}

impl Default for PlainSequence {
    fn default() -> (seq: PlainSequence)
        ensures
            seq@ == 0,
    {
        PlainSequence::new()
    }
}

impl vstd::std_specs::convert::FromSpecImpl<u64> for PlainSequence {
    open spec fn obeys_from_spec() -> bool {
        true
    }

    closed spec fn from_spec(value: u64) -> PlainSequence {
        PlainSequence { counter: value }
    }
}

impl From<u64> for PlainSequence {
    /// Creates a generator whose first identifier is `value`.
    fn from(value: u64) -> (seq: PlainSequence)
        ensures
            seq@ == value,
    {
        PlainSequence { counter: value }
    }
}

/// A generator made from `value` stands at `value`.
pub proof fn lemma_from_starts_at_seed(value: u64)
    ensures
        <PlainSequence as vstd::std_specs::convert::FromSpec<u64>>::from_spec(value)@ == value,
{
}

/// Starting from `seed`, the `n`-th identifier handed out (counting from 0)
/// is `seed + n` reduced modulo 2^64: the values run `seed`, `seed + 1`,
/// `seed + 2`, and so on, and wrap to zero past the largest 64-bit value.
pub proof fn lemma_ids_count_up_from_seed(seed: u64, n: nat)
    ensures
        counter_after(seed, n) as int == (seed + n) % 0x1_0000_0000_0000_0000,
    decreases n,
{
    if n > 0 {
        lemma_ids_count_up_from_seed(seed, (n - 1) as nat);
        let prev = counter_after(seed, (n - 1) as nat);
        let m = 0x1_0000_0000_0000_0000int;
        let total = seed + n - 1;
        assert(prev as int == total % m);
        if prev == u64::MAX {
            assert((total + 1) % m == 0) by (nonlinear_arith)
                requires
                    total % m == m - 1,
                    m > 0,
            ;
        } else {
            assert((total + 1) % m == total % m + 1) by (nonlinear_arith)
                requires
                    total % m < m - 1,
                    m > 0,
            ;
        }
    }
}

/// Whatever the counter held, the first identifier handed out after a reset
/// is 0, and the `n`-th after it is `n` reduced modulo 2^64.
pub proof fn lemma_reset_restarts_at_zero(counter: u64, n: nat)
    ensures
        counter_after_reset(counter) == 0,
        counter_after(counter_after_reset(counter), 0) == 0,
        counter_after(counter_after_reset(counter), n) as int == n % 0x1_0000_0000_0000_0000,
{
    lemma_ids_count_up_from_seed(0, n);
}

} // verus!
