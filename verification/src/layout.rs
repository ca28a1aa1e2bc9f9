//! The bit layout of a time-ordered identifier.
//!
//! An identifier holds the milliseconds elapsed since [`EPOCH`] in its high
//! bits and a sequence number in its low `bits` bits:
//!
//! ```text
//! id = (elapsed << bits) | (sequence & mask)
//! ```

use vstd::prelude::*;

verus! {

/// A time-ordered identifier.
pub type NID = u64;

/// The instant from which identifiers count time, in milliseconds since the
/// Unix epoch.
pub const EPOCH: u64 = 1637806706000;

/// The width of the sequence field unless a generator is built with another.
pub const SEQUENCE_BITS: u8 = 12;

/// The low `bits` bits set, all others clear.
pub open spec fn sequence_mask(bits: u8) -> u64 {
    ((1u64 << (bits as u64)) - 1) as u64
}

/// The part of a free-running counter that an identifier keeps.
pub open spec fn masked_sequence(sequence: u64, bits: u8) -> u64 {
    sequence & sequence_mask(bits)
}

/// Milliseconds from [`EPOCH`] to `now`; zero for a clock that reads earlier.
pub open spec fn elapsed_since_epoch(now: u64) -> u64 {
    if now >= EPOCH {
        (now - EPOCH) as u64
    } else {
        0
    }
}

/// Whether `elapsed` survives the shift into the high bits unharmed.
pub open spec fn fits_timestamp_field(elapsed: u64, bits: u8) -> bool {
    elapsed <= (u64::MAX >> (bits as u64))
}

/// The identifier made of a timestamp field and a sequence number.
pub open spec fn join_parts(elapsed: u64, sequence: u64, bits: u8) -> u64 {
    (elapsed << (bits as u64)) | masked_sequence(sequence, bits)
}

/// The identifier minted at clock reading `now` with `sequence`.
pub open spec fn pack(now: u64, sequence: u64, bits: u8) -> u64 {
    join_parts(elapsed_since_epoch(now), sequence, bits)
}

/// The timestamp field of `id`.
pub open spec fn timestamp_part(id: u64, bits: u8) -> u64 {
    id >> (bits as u64)
}

/// The sequence field of `id`.
pub open spec fn sequence_part(id: u64, bits: u8) -> u64 {
    masked_sequence(id, bits)
}

/// Computes [`sequence_mask`].
pub fn mask_for(bits: u8) -> (mask: u64)
    requires
        bits < 64,
    ensures
        mask == sequence_mask(bits),
{
    let shift: u64 = bits as u64;
    assert(1u64 << shift >= 1) by (bit_vector)
        requires
            shift < 64,
    ;
    (1u64 << shift) - 1
}

/// Computes [`elapsed_since_epoch`]: a clock before the epoch saturates to 0.
pub fn elapsed_since(now: u64) -> (elapsed: u64)
    ensures
        elapsed == elapsed_since_epoch(now),
{
    if now >= EPOCH {
        now - EPOCH
    } else {
        0
    }
}

/// Packs the clock reading `now` and `sequence` into one identifier with a
/// sequence field of `bits` bits. Only the low `bits` bits of `sequence` are
/// kept; timestamp bits that the shift pushes past bit 63 are lost.
pub fn compose(now: u64, sequence: u64, bits: u8) -> (id: NID)
    requires
        bits < 64,
    ensures
        id == pack(now, sequence, bits),
{
    let shift: u64 = bits as u64;
    let mask: u64 = mask_for(bits);
    (elapsed_since(now) << shift) | (sequence & mask)
}

/// Splits an identifier with a sequence field of `bits` bits into its
/// timestamp field and its sequence field.
pub fn into_parts_with_bits(id: NID, bits: u8) -> (parts: (u64, u64))
    requires
        bits < 64,
    ensures
        parts.0 == timestamp_part(id, bits),
        parts.1 == sequence_part(id, bits),
        join_parts(parts.0, parts.1, bits) == id,
{
    let shift: u64 = bits as u64;
    let mask: u64 = mask_for(bits);
    proof {
        lemma_parts_rejoin(id, bits);
    }
    (id >> shift, id & mask)
}

/// Splits an identifier of the default layout ([`SEQUENCE_BITS`] bits of
/// sequence) into its timestamp field and its sequence field.
pub fn into_parts(id: NID) -> (parts: (u64, u64))
    ensures
        parts.0 == timestamp_part(id, SEQUENCE_BITS),
        parts.1 == sequence_part(id, SEQUENCE_BITS),
        join_parts(parts.0, parts.1, SEQUENCE_BITS) == id,
{
    into_parts_with_bits(id, SEQUENCE_BITS)
}

/// Masking twice is masking once.
pub proof fn lemma_mask_idempotent(sequence: u64, bits: u8)
    ensures
        masked_sequence(masked_sequence(sequence, bits), bits) == masked_sequence(sequence, bits),
{
    let m = sequence_mask(bits);
    assert((sequence & m) & m == sequence & m) by (bit_vector);
}

/// Splitting is the exact inverse of joining: the two fields of any
/// identifier, joined again, give the identifier back bit for bit.
pub proof fn lemma_parts_rejoin(id: u64, bits: u8)
    requires
        bits < 64,
    ensures
        join_parts(timestamp_part(id, bits), sequence_part(id, bits), bits) == id,
{
    let b = bits as u64;
    assert((((id >> b) << b) | ((id & (((1u64 << b) - 1) as u64)) & (((1u64 << b) - 1) as u64))) == id)
        by (bit_vector)
        requires
            b < 64,
    ;
}

/// The sequence field of a minted identifier is the masked sequence number,
/// whatever the clock read.
pub proof fn lemma_sequence_part_of_pack(now: u64, sequence: u64, bits: u8)
    requires
        bits < 64,
    ensures
        sequence_part(pack(now, sequence, bits), bits) == masked_sequence(sequence, bits),
{
    let b = bits as u64;
    let e = elapsed_since_epoch(now);
    assert((((e << b) | (sequence & (((1u64 << b) - 1) as u64))) & (((1u64 << b) - 1) as u64)) == (
    sequence & (((1u64 << b) - 1) as u64))) by (bit_vector)
        requires
            b < 64,
    ;
}

/// The timestamp field of a minted identifier is the time elapsed between
/// the epoch and the clock reading, for a clock that is not before the epoch
/// and not so late that the field overflows.
pub proof fn lemma_timestamp_part_of_pack(now: u64, sequence: u64, bits: u8)
    requires
        bits < 64,
        now >= EPOCH,
        fits_timestamp_field(elapsed_since_epoch(now), bits),
    ensures
        timestamp_part(pack(now, sequence, bits), bits) == now - EPOCH,
{
    let b = bits as u64;
    let e = elapsed_since_epoch(now);
    assert((((e << b) | (sequence & (((1u64 << b) - 1) as u64))) >> b) == e) by (bit_vector)
        requires
            b < 64,
            e <= (0xffff_ffff_ffff_ffffu64 >> b),
    ;
}

/// Of two identifiers minted at clock readings a tick or more apart, the
/// later one has the strictly greater timestamp field, and is the greater
/// identifier.
pub proof fn lemma_later_tick_orders_ids(
    earlier: u64,
    later: u64,
    first_sequence: u64,
    second_sequence: u64,
    bits: u8,
)
    requires
        bits < 64,
        EPOCH <= earlier < later,
        fits_timestamp_field(elapsed_since_epoch(later), bits),
    ensures
        timestamp_part(pack(earlier, first_sequence, bits), bits) < timestamp_part(
            pack(later, second_sequence, bits),
            bits,
        ),
        pack(earlier, first_sequence, bits) < pack(later, second_sequence, bits),
{
    let b = bits as u64;
    let e1 = elapsed_since_epoch(earlier);
    let e2 = elapsed_since_epoch(later);
    assert(e1 <= (0xffff_ffff_ffff_ffffu64 >> b)) by (bit_vector)
        requires
            e1 < e2,
            e2 <= (0xffff_ffff_ffff_ffffu64 >> b),
    ;
    lemma_timestamp_part_of_pack(earlier, first_sequence, bits);
    lemma_timestamp_part_of_pack(later, second_sequence, bits);
    let id1 = pack(earlier, first_sequence, bits);
    let id2 = pack(later, second_sequence, bits);
    assert(id1 < id2) by (bit_vector)
        requires
            b < 64,
            (id1 >> b) < (id2 >> b),
    ;
}

/// Of two identifiers minted at one clock reading, the one with the smaller
/// masked sequence number is the smaller identifier.
pub proof fn lemma_same_tick_orders_by_sequence(
    now: u64,
    first_sequence: u64,
    second_sequence: u64,
    bits: u8,
)
    requires
        bits < 64,
        masked_sequence(first_sequence, bits) < masked_sequence(second_sequence, bits),
    ensures
        pack(now, first_sequence, bits) < pack(now, second_sequence, bits),
{
    let b = bits as u64;
    let e = elapsed_since_epoch(now);
    let m = sequence_mask(bits);
    assert(((e << b) | (first_sequence & m)) < ((e << b) | (second_sequence & m))) by (bit_vector)
        requires
            b < 64,
            m == ((1u64 << b) - 1) as u64,
            (first_sequence & m) < (second_sequence & m),
    ;
}

/// Identifiers whose sequence numbers differ after masking differ, whatever
/// the clock read for either.
pub proof fn lemma_distinct_sequences_distinct_ids(
    first_now: u64,
    second_now: u64,
    first_sequence: u64,
    second_sequence: u64,
    bits: u8,
)
    requires
        bits < 64,
        masked_sequence(first_sequence, bits) != masked_sequence(second_sequence, bits),
    ensures
        pack(first_now, first_sequence, bits) != pack(second_now, second_sequence, bits),
{
    lemma_sequence_part_of_pack(first_now, first_sequence, bits);
    lemma_sequence_part_of_pack(second_now, second_sequence, bits);
}

} // verus!
