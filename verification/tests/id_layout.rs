use idable::layout::{compose, elapsed_since, into_parts_with_bits, mask_for};
use idable::{into_parts, EPOCH, SEQUENCE_BITS};

#[test]
fn constants_have_their_documented_values() {
    assert_eq!(EPOCH, 1637806706000);
    assert_eq!(SEQUENCE_BITS, 12);
}

#[test]
fn mask_has_the_low_bits_set() {
    assert_eq!(mask_for(0), 0);
    assert_eq!(mask_for(1), 1);
    assert_eq!(mask_for(12), 4095);
    assert_eq!(mask_for(63), 0x7fff_ffff_ffff_ffff);
}

#[test]
fn elapsed_saturates_before_the_epoch() {
    assert_eq!(elapsed_since(EPOCH), 0);
    assert_eq!(elapsed_since(EPOCH + 1), 1);
    assert_eq!(elapsed_since(EPOCH - 1), 0);
    assert_eq!(elapsed_since(0), 0);
    assert_eq!(elapsed_since(u64::MAX), u64::MAX - EPOCH);
}

#[test]
fn compose_gives_exact_identifiers() {
    assert_eq!(compose(EPOCH + 5, 3, 12), 20483);
    assert_eq!(compose(EPOCH, 0, 12), 0);
    assert_eq!(compose(EPOCH + 1, 0, 12), 4096);
    assert_eq!(compose(EPOCH + 1, 4096, 12), 4096);
    assert_eq!(compose(EPOCH + 6, 1, 1), 13);
    assert_eq!(compose(EPOCH + 6, 2, 1), 12);
    assert_eq!(compose(EPOCH + 6, 99, 0), 6);
    assert_eq!(compose(1700000000000, 77, 12), ((1700000000000 - EPOCH) << 12) | 77);
}

#[test]
fn into_parts_inverts_compose() {
    assert_eq!(into_parts(20483), (5, 3));
    assert_eq!(into_parts(0), (0, 0));
    assert_eq!(into_parts(u64::MAX), (u64::MAX >> 12, 4095));
    assert_eq!(into_parts(compose(EPOCH + 123456, 789, 12)), (123456, 789));
    assert_eq!(into_parts_with_bits(13, 1), (6, 1));
    assert_eq!(into_parts_with_bits(13, 0), (13, 0));
    assert_eq!(into_parts_with_bits(compose(EPOCH + 42, 5, 3), 3), (42, 5));
}

#[test]
fn parts_rejoin_to_the_identifier() {
    for id in [0u64, 1, 4095, 4096, 20483, 0xdead_beef_cafe_f00d, u64::MAX] {
        let (time, sequence) = into_parts(id);
        assert_eq!((time << 12) | sequence, id);
    }
}

#[test]
fn later_tick_gives_greater_identifier() {
    let earlier = compose(EPOCH + 10, 4095, 12);
    let later = compose(EPOCH + 11, 0, 12);
    assert!(later > earlier);
    assert!(into_parts(later).0 > into_parts(earlier).0);
}
