//! Identifiers that carry the time at which they were made.
//!
//! A [`TimestampSeq`] keeps a free-running sequence counter and the clock
//! reading at which the counter last completed a cycle. Each identifier takes
//! the next sequence number; the identifier that starts a new cycle first
//! makes sure the clock has moved on since the previous cycle started, so that
//! a sequence number is not reused within one millisecond.
//!
//! Uniqueness is attempted, not guaranteed. The guard remembers only the
//! reading at which a cycle started: when identifiers of one cycle are stamped
//! at a later reading, and the next cycle starts and reaches the same sequence
//! numbers while the clock still shows that later reading, the two cycles
//! share identifiers. So do any two identifiers with equal sequence numbers
//! when the clock is set back in between.

use vstd::prelude::*;
use crate::clock::get_timestamp;
use crate::layout::{
    compose, lemma_distinct_sequences_distinct_ids, lemma_mask_idempotent,
    lemma_sequence_part_of_pack, mask_for, masked_sequence, pack, sequence_mask, sequence_part,
    NID, SEQUENCE_BITS,
};
use crate::counter::{advance, successor};

verus! {

/// The cycle guard after an identifier with masked sequence number `masked`
/// was stamped at clock reading `now`: an identifier that starts a cycle
/// moves the guard up to `now`, never back; any other leaves it alone.
pub open spec fn ratchet(last_cycle_timestamp: u64, masked: u64, now: u64) -> u64 {
    if masked == 0 && now > last_cycle_timestamp {
        now
    } else {
        last_cycle_timestamp
    }
}

/// Whether the identifier with masked sequence number `masked` has to wait
/// for the clock: it starts a cycle, and the clock still reads what it read
/// when the previous cycle started.
pub open spec fn must_wait(last_cycle_timestamp: u64, masked: u64, now: u64) -> bool {
    masked == 0 && last_cycle_timestamp == now
}

/// A timestamped sequence generator.
pub struct TimestampSeq {
    sequence: u64,
    last_cycle_timestamp: u64,
    sequence_bits: u8,
}

impl TimestampSeq {
    /// The free-running counter; its low bits are the next sequence number.
    pub closed spec fn sequence(&self) -> u64 {
        self.sequence
    }

    /// The clock reading at which the counter last started a cycle.
    pub closed spec fn last_cycle_timestamp(&self) -> u64 {
        self.last_cycle_timestamp
    }

    /// The width of the sequence field, fixed when the generator is made.
    pub closed spec fn sequence_bits(&self) -> u8 {
        self.sequence_bits
    }

    /// The sequence field leaves room in a 64-bit identifier.
    #[verifier::type_invariant]
    spec fn sequence_field_fits(&self) -> bool {
        self.sequence_bits < 64
    }

    /// Creates a generator of the default layout, with both the counter and
    /// the cycle guard at 0.
    pub fn new() -> (generator: TimestampSeq)
        ensures
            generator.sequence() == 0,
            generator.last_cycle_timestamp() == 0,
            generator.sequence_bits() == SEQUENCE_BITS,
    {
        TimestampSeq { sequence: 0, last_cycle_timestamp: 0, sequence_bits: SEQUENCE_BITS }
    }

    /// Creates a generator whose identifiers keep `bits` bits of sequence, so
    /// that a cycle is `2^bits` identifiers long. The field has to leave room
    /// in the identifier: `bits` is at most 63.
    pub fn with_sequence_bits(bits: u8) -> (generator: TimestampSeq)
        requires
            bits < 64,
        ensures
            generator.sequence() == 0,
            generator.last_cycle_timestamp() == 0,
            generator.sequence_bits() == bits,
    {
        TimestampSeq { sequence: 0, last_cycle_timestamp: 0, sequence_bits: bits }
    }

    /// Takes the next sequence number: returns the counter's low bits and
    /// advances the counter by one, wrapping.
    pub fn take_sequence(&mut self) -> (masked: u64)
        ensures
            masked == masked_sequence(old(self).sequence(), old(self).sequence_bits()),
            final(self).sequence() == successor(old(self).sequence()),
            final(self).last_cycle_timestamp() == old(self).last_cycle_timestamp(),
            final(self).sequence_bits() == old(self).sequence_bits(),
    {
        proof {
            use_type_invariant(&*self);
        }
        let current: u64 = self.sequence;
        self.sequence = advance(current);
        current & mask_for(self.sequence_bits)
    }

    /// Says whether the identifier with sequence number `sequence` must wait
    /// for the clock to move past `now` before it is stamped.
    pub fn awaits_tick(&self, sequence: u64, now: u64) -> (wait: bool)
        ensures
            wait == must_wait(
                self.last_cycle_timestamp(),
                masked_sequence(sequence, self.sequence_bits()),
                now,
            ),
    {
        proof {
            use_type_invariant(self);
        }
        sequence & mask_for(self.sequence_bits) == 0 && self.last_cycle_timestamp == now
    }

    /// Spins until the clock reads later than the cycle guard.
    ///
    /// The spin is counted so that it provably ends; the count is far beyond
    /// what a running clock leaves time for.
    fn wait_next_millis(&self) {
        let last_timestamp: u64 = self.last_cycle_timestamp;
        let mut reads_left: u64 = u64::MAX;
        while reads_left > 0 && get_timestamp() <= last_timestamp
            decreases reads_left,
        {
            reads_left = reads_left - 1;
        }
    }

    /// Stamps the identifier with sequence number `sequence` at clock reading
    /// `now`: moves the cycle guard if the identifier starts a cycle, and
    /// packs the two into the identifier.
    pub fn stamp(&mut self, sequence: u64, now: u64) -> (id: NID)
        ensures
            id == pack(now, sequence, old(self).sequence_bits()),
            final(self).last_cycle_timestamp() == ratchet(
                old(self).last_cycle_timestamp(),
                masked_sequence(sequence, old(self).sequence_bits()),
                now,
            ),
            final(self).last_cycle_timestamp() >= old(self).last_cycle_timestamp(),
            final(self).sequence() == old(self).sequence(),
            final(self).sequence_bits() == old(self).sequence_bits(),
    {
        proof {
            use_type_invariant(&*self);
        }
        if sequence & mask_for(self.sequence_bits) == 0 && now > self.last_cycle_timestamp {
            self.last_cycle_timestamp = now;
        }
        compose(now, sequence, self.sequence_bits)
    }

    /// Generates the next identifier from the sequence counter and the clock.
    ///
    /// Whatever the clock reads, the identifier carries the counter's low
    /// bits in its sequence field and the counter moves on by one. The
    /// timestamp field comes from one reading `now` of the clock, taken
    /// during the call; an identifier that starts a cycle ratchets the cycle
    /// guard up to that reading.
    ///
    /// Identifiers are not guaranteed to increase: the clock may be set back
    /// between two calls.
    pub fn next_id(&mut self) -> (id: NID)
        ensures
            final(self).sequence_bits() == old(self).sequence_bits(),
            final(self).sequence() == successor(old(self).sequence()),
            sequence_part(id, old(self).sequence_bits()) == masked_sequence(
                old(self).sequence(),
                old(self).sequence_bits(),
            ),
            final(self).last_cycle_timestamp() >= old(self).last_cycle_timestamp(),
            masked_sequence(old(self).sequence(), old(self).sequence_bits()) != 0
                ==> final(self).last_cycle_timestamp() == old(self).last_cycle_timestamp(),
            exists|now: u64|
                {
                    &&& #[trigger] pack(now, old(self).sequence(), old(self).sequence_bits()) == id
                    &&& final(self).last_cycle_timestamp() == ratchet(
                        old(self).last_cycle_timestamp(),
                        masked_sequence(old(self).sequence(), old(self).sequence_bits()),
                        now,
                    )
                },
    {
        proof {
            use_type_invariant(&*self);
        }
        let sequence: u64 = self.take_sequence();
        let mut new_timestamp: u64 = get_timestamp();
        if self.awaits_tick(sequence, new_timestamp) {
            self.wait_next_millis();
            new_timestamp = get_timestamp();
        }
        let id: NID = self.stamp(sequence, new_timestamp);
        proof {
            let bits = old(self).sequence_bits();
            lemma_mask_idempotent(old(self).sequence(), bits);
            lemma_sequence_part_of_pack(new_timestamp, old(self).sequence(), bits);
            assert(pack(new_timestamp, sequence, bits) == pack(
                new_timestamp,
                old(self).sequence(),
                bits,
            ));
        }
        id
    }
}

/// The sequence numbers of successive identifiers count up by one and start
/// again at zero after the largest value that the sequence field holds.
pub proof fn lemma_sequence_numbers_cycle(counter: u64, bits: u8)
    requires
        bits < 64,
    ensures
        masked_sequence(successor(counter), bits) == if masked_sequence(counter, bits)
            == sequence_mask(bits) {
            0
        } else {
            masked_sequence(counter, bits) + 1
        },
{
    let b = bits as u64;
    let m = sequence_mask(bits);
    let next = successor(counter);
    assert((next & m) == if (counter & m) == m {
        0
    } else {
        (counter & m) + 1
    }) by (bit_vector)
        requires
            b < 64,
            m == ((1u64 << b) - 1) as u64,
            next == if counter == 0xffff_ffff_ffff_ffffu64 {
                0u64
            } else {
                (counter + 1) as u64
            },
    ;
}

/// Three identifiers made one after the other by a generator with a sequence
/// field of at least two bits are pairwise distinct, whatever the clock read
/// for each of them.
pub proof fn lemma_three_successive_ids_distinct(
    counter: u64,
    first_now: u64,
    second_now: u64,
    third_now: u64,
    bits: u8,
)
    requires
        2 <= bits < 64,
    ensures
        pack(first_now, counter, bits) != pack(second_now, successor(counter), bits),
        pack(second_now, successor(counter), bits) != pack(
            third_now,
            successor(successor(counter)),
            bits,
        ),
        pack(first_now, counter, bits) != pack(third_now, successor(successor(counter)), bits),
{
    let b = bits as u64;
    let m = sequence_mask(bits);
    let second = successor(counter);
    let third = successor(second);
    assert((counter & m) != (second & m) && (second & m) != (third & m) && (counter & m) != (third
        & m)) by (bit_vector)
        requires
            2 <= b < 64,
            m == ((1u64 << b) - 1) as u64,
            second == if counter == 0xffff_ffff_ffff_ffffu64 {
                0u64
            } else {
                (counter + 1) as u64
            },
            third == if second == 0xffff_ffff_ffff_ffffu64 {
                0u64
            } else {
                (second + 1) as u64
            },
    ;
    lemma_distinct_sequences_distinct_ids(first_now, second_now, counter, second, bits);
    lemma_distinct_sequences_distinct_ids(second_now, third_now, second, third, bits);
    lemma_distinct_sequences_distinct_ids(first_now, third_now, counter, third, bits);
}

/// The cycle guard never moves back, and only an identifier that starts a
/// cycle moves it.
pub proof fn lemma_ratchet_is_monotonic(last_cycle_timestamp: u64, masked: u64, now: u64)
    ensures
        ratchet(last_cycle_timestamp, masked, now) >= last_cycle_timestamp,
        masked != 0 ==> ratchet(last_cycle_timestamp, masked, now) == last_cycle_timestamp,
        masked == 0 ==> ratchet(last_cycle_timestamp, masked, now) >= now,
{
}

/// Once an identifier has started a cycle at a clock reading that is not
/// behind the guard, the identifier that starts the next cycle has to wait
/// for as long as the clock still shows that reading: sequence number zero
/// is not stamped twice with one reading.
pub proof fn lemma_cycle_start_guards_its_tick(last_cycle_timestamp: u64, now: u64)
    requires
        now >= last_cycle_timestamp,
    ensures
        must_wait(ratchet(last_cycle_timestamp, 0, now), 0, now),
{
}

impl Default for TimestampSeq {
    fn default() -> (generator: TimestampSeq)
        ensures
            generator.sequence() == 0,
            generator.last_cycle_timestamp() == 0,
            generator.sequence_bits() == SEQUENCE_BITS,
    {
        TimestampSeq::new()
    }
}

} // verus!
