use idable::PlainSequence;

#[test]
fn new_counts_from_zero() {
    let mut seq = PlainSequence::new();
    assert_eq!(seq.next_id(), 0);
    assert_eq!(seq.next_id(), 1);
    assert_eq!(seq.next_id(), 2);
}

#[test]
fn default_counts_from_zero() {
    let mut seq = PlainSequence::default();
    assert_eq!(seq.next_id(), 0);
    assert_eq!(seq.next_id(), 1);
}

#[test]
fn from_counts_from_seed() {
    let mut seq = PlainSequence::from(41);
    assert_eq!(seq.next_id(), 41);
    assert_eq!(seq.next_id(), 42);
    assert_eq!(seq.next_id(), 43);
}

#[test]
fn counter_wraps_at_the_64_bit_boundary() {
    let mut seq = PlainSequence::from(u64::MAX - 1);
    assert_eq!(seq.next_id(), u64::MAX - 1);
    assert_eq!(seq.next_id(), u64::MAX);
    assert_eq!(seq.next_id(), 0);
    assert_eq!(seq.next_id(), 1);
}

#[test]
fn reset_restarts_at_zero() {
    let mut seq = PlainSequence::from(1000);
    assert_eq!(seq.next_id(), 1000);
    seq.reset();
    assert_eq!(seq.next_id(), 0);
    assert_eq!(seq.next_id(), 1);
    seq.reset();
    seq.reset();
    assert_eq!(seq.next_id(), 0);
}

#[test]
fn advance_adds_one_and_wraps() {
    assert_eq!(idable::counter::advance(0), 1);
    assert_eq!(idable::counter::advance(41), 42);
    assert_eq!(idable::counter::advance(u64::MAX - 1), u64::MAX);
    assert_eq!(idable::counter::advance(u64::MAX), 0);
}

#[test]
fn many_ids_count_up_without_gaps() {
    let seed: u64 = u64::MAX - 500;
    let mut seq = PlainSequence::from(seed);
    for n in 0..1000u64 {
        assert_eq!(seq.next_id(), seed.wrapping_add(n));
    }
}
