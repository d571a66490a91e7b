use s32g3_kernel::arch::gic::{GicError, GicV3Driver, InvalidAffinity, MAX_CORES};

#[test]
fn affinity_round_trip_holds_for_every_core() {
    for index in 0..MAX_CORES {
        let mpidr = GicV3Driver::mpidr_by_core_pos(index);
        assert_eq!(GicV3Driver::plat_core_pos_by_mpidr(mpidr), Ok(index));
    }
}

#[test]
fn affinity_of_core_ten_is_cluster_one_position_two() {
    assert_eq!(GicV3Driver::mpidr_by_core_pos(10), 0x102);
    assert_eq!(GicV3Driver::plat_core_pos_by_mpidr(0x102), Ok(10));
}

#[test]
fn affinity_with_level_two_bits_is_refused() {
    assert_eq!(
        GicV3Driver::plat_core_pos_by_mpidr(0x01_0000),
        Err(InvalidAffinity::UnexpectedBits)
    );
    assert_eq!(
        GicV3Driver::plat_core_pos_by_mpidr(0x01_0000_0000),
        Err(InvalidAffinity::UnexpectedBits)
    );
}

#[test]
fn affinity_beyond_the_platform_is_refused() {
    assert_eq!(GicV3Driver::plat_core_pos_by_mpidr(0x400), Err(InvalidAffinity::OutOfRange));
    assert_eq!(GicV3Driver::plat_core_pos_by_mpidr(0x008), Err(InvalidAffinity::OutOfRange));
}

#[test]
fn any_bit_outside_cluster_and_position_is_refused() {
    for mpidr in [0x8000_0001u64, 0x8100_0103, 0x0100_0000, 0x4000_0000, 1 << 40, 1 << 63, u64::MAX] {
        assert_eq!(
            GicV3Driver::plat_core_pos_by_mpidr(mpidr),
            Err(InvalidAffinity::UnexpectedBits)
        );
    }
    // A bit outside the fields is refused before the bounds are looked at.
    assert_eq!(
        GicV3Driver::plat_core_pos_by_mpidr(0x1_FFFF),
        Err(InvalidAffinity::UnexpectedBits)
    );
    assert_eq!(GicV3Driver::plat_core_pos_by_mpidr(0x0103), Ok(11));
    assert_eq!(GicV3Driver::plat_core_pos_by_mpidr(0xFFFF), Err(InvalidAffinity::OutOfRange));
}

#[test]
fn refusals_have_messages() {
    assert_eq!(InvalidAffinity::UnexpectedBits.message(), "Invalid MPIDR value: unexpected bits set");
    assert_eq!(
        InvalidAffinity::OutOfRange.message(),
        "Invalid MPIDR value: cluster or CPU ID out of range"
    );
    assert_eq!(GicError::InvalidSgiId.message(), "Invalid SGI ID: must be 0-15");
    assert_eq!(GicError::InvalidSpiId.message(), "Invalid SPI ID: must be 32-1019");
    assert_eq!(GicError::InvalidInterruptId.message(), "Invalid interrupt ID: must be 0-1019");
    assert!(GicError::InvalidTarget.message().starts_with("Invalid target"));
    assert!(GicError::Timeout.message().starts_with("Timeout"));
    assert!(GicError::NotPrimaryCore.message().contains("primary core"));
    assert!(GicError::InvalidState.message().contains("state"));
}
