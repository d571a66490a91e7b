use s32g3_kernel::arch;
use s32g3_kernel::arch::aarch64::{HwOp, SysReg};
use s32g3_kernel::arch::gic::{Distributor, DistributorState, GicError, GicV3Driver};

fn sgi_write(value: u64) -> Vec<HwOp> {
    vec![HwOp::Dsb, HwOp::WriteSysReg { reg: SysReg::IccSgi1rEl1, value }, HwOp::Isb]
}

#[test]
fn enable_spi_sets_the_bit_of_the_id() {
    assert_eq!(
        GicV3Driver::enable_spi(40),
        Ok(HwOp::Write32 { addr: 0x5080_0104, value: 0x100 })
    );
    assert_eq!(
        GicV3Driver::enable_spi(1019),
        Ok(HwOp::Write32 { addr: 0x5080_017C, value: 0x0800_0000 })
    );
    assert_eq!(
        GicV3Driver::enable_spi(32),
        Ok(HwOp::Write32 { addr: 0x5080_0104, value: 1 })
    );
}

#[test]
fn disable_spi_uses_the_clear_enable_register() {
    assert_eq!(
        GicV3Driver::disable_spi(63),
        Ok(HwOp::Write32 { addr: 0x5080_0184, value: 0x8000_0000 })
    );
}

#[test]
fn spi_operations_refuse_ids_outside_32_to_1019() {
    for id in [0u32, 15, 31, 1020, 1023, u32::MAX] {
        assert_eq!(GicV3Driver::enable_spi(id), Err(GicError::InvalidSpiId));
        assert_eq!(GicV3Driver::disable_spi(id), Err(GicError::InvalidSpiId));
        assert_eq!(GicV3Driver::set_spi_priority(id, 1), Err(GicError::InvalidSpiId));
        assert_eq!(GicV3Driver::set_spi_target(id, 1), Err(GicError::InvalidSpiId));
    }
}

#[test]
fn spi_priority_and_target_addresses() {
    assert_eq!(
        GicV3Driver::set_spi_priority(33, 0xA0),
        Ok(HwOp::Write8 { addr: 0x5080_0421, value: 0xA0 })
    );
    assert_eq!(
        GicV3Driver::set_spi_target(33, 0x102),
        Ok(HwOp::Write64 { addr: 0x5080_6108, value: 0x102 })
    );
}

#[test]
fn interrupt_ids_partition_between_redistributor_and_distributor() {
    let core = 3u32;
    let gicr = 0x5090_0000u64 + 3 * 0x20000;
    for id in 0..1020u32 {
        let op = GicV3Driver::enable_interrupt(core, id).unwrap();
        let addr = match op {
            HwOp::Write32 { addr, .. } => addr,
            _ => panic!("enable is a 32-bit store"),
        };
        if id < 32 {
            assert!(gicr <= addr && addr < gicr + 0x20000);
        } else {
            assert!(0x5080_0000 <= addr && addr < 0x5081_0000);
        }
        assert!(GicV3Driver::disable_interrupt(core, id).is_ok());
        assert!(GicV3Driver::set_priority(core, id, 0x80).is_ok());
    }
    for id in [1020u32, 1021, 1022, 1023, 5000] {
        assert_eq!(GicV3Driver::enable_interrupt(core, id), Err(GicError::InvalidInterruptId));
        assert_eq!(GicV3Driver::disable_interrupt(core, id), Err(GicError::InvalidInterruptId));
        assert_eq!(GicV3Driver::set_priority(core, id, 0), Err(GicError::InvalidInterruptId));
    }
}

#[test]
fn private_interrupts_use_the_cores_own_frame() {
    assert_eq!(
        GicV3Driver::enable_interrupt(2, 5),
        Ok(HwOp::Write32 { addr: 0x5095_0100, value: 0x20 })
    );
    assert_eq!(
        GicV3Driver::disable_interrupt(0, 31),
        Ok(HwOp::Write32 { addr: 0x5091_0180, value: 0x8000_0000 })
    );
    assert_eq!(
        GicV3Driver::set_priority(1, 17, 0x40),
        Ok(HwOp::Write8 { addr: 0x5093_0411, value: 0x40 })
    );
}

#[test]
fn private_interrupts_need_a_core_of_the_platform() {
    assert_eq!(GicV3Driver::enable_interrupt(32, 5), Err(GicError::InvalidTarget));
    assert_eq!(GicV3Driver::disable_interrupt(32, 5), Err(GicError::InvalidTarget));
    assert_eq!(GicV3Driver::set_priority(32, 5, 0), Err(GicError::InvalidTarget));
    // A shared interrupt does not depend on the core.
    assert!(GicV3Driver::enable_interrupt(32, 40).is_ok());
}

#[test]
fn facade_forwards_to_the_driver() {
    assert_eq!(arch::enable_interrupt(2, 5), GicV3Driver::enable_interrupt(2, 5));
    assert_eq!(arch::disable_interrupt(2, 500), GicV3Driver::disable_interrupt(2, 500));
    assert_eq!(arch::set_interrupt_priority(2, 500, 7), GicV3Driver::set_priority(2, 500, 7));
    assert_eq!(arch::get_interrupt_id(0xAB00_0021), 0x21);
    assert_eq!(
        arch::end_of_interrupt(33),
        vec![HwOp::WriteSysReg { reg: SysReg::IccEoir1El1, value: 33 }, HwOp::Isb]
    );
}

#[test]
fn sgi_to_core_encodes_id_cluster_and_target_bit() {
    assert_eq!(GicV3Driver::send_sgi_to_core(10, 5), Ok(sgi_write(0x0501_0004)));
    assert_eq!(GicV3Driver::send_sgi_to_core(0, 0), Ok(sgi_write(0x0000_0001)));
    assert_eq!(GicV3Driver::send_sgi_to_core(31, 15), Ok(sgi_write(0x0F03_0080)));
}

#[test]
fn sgi_to_all_and_to_others() {
    assert_eq!(GicV3Driver::send_sgi_to_all(3), Ok(sgi_write(0x8000_0003)));
    assert_eq!(GicV3Driver::send_sgi_to_others(15), Ok(sgi_write(0xA000_000F)));
}

#[test]
fn sgi_id_of_sixteen_or_more_is_refused() {
    for id in [16u8, 17, 100, 255] {
        assert_eq!(GicV3Driver::send_sgi_to_core(1, id), Err(GicError::InvalidSgiId));
        assert_eq!(GicV3Driver::send_sgi_to_all(id), Err(GicError::InvalidSgiId));
        assert_eq!(GicV3Driver::send_sgi_to_others(id), Err(GicError::InvalidSgiId));
        assert_eq!(arch::send_sgi(id as u32, 1), Err(GicError::InvalidSgiId));
    }
    assert_eq!(arch::send_sgi(256, 1), Err(GicError::InvalidSgiId));
    // The id is judged before the target.
    assert_eq!(GicV3Driver::send_sgi_to_core(99, 16), Err(GicError::InvalidSgiId));
}

#[test]
fn sgi_target_beyond_the_platform_is_refused() {
    assert_eq!(GicV3Driver::send_sgi_to_core(32, 1), Err(GicError::InvalidTarget));
    assert_eq!(arch::send_sgi(1, 200), Err(GicError::InvalidTarget));
    assert_eq!(arch::send_sgi(2, 3), Ok(sgi_write(0x0200_0008)));
}

#[test]
fn sgi_priority_is_a_byte_in_the_sgi_frame() {
    assert_eq!(
        GicV3Driver::set_sgi_priority(0x5090_0000, 3, 0x20),
        Ok(HwOp::Write8 { addr: 0x5091_0403, value: 0x20 })
    );
    assert_eq!(
        GicV3Driver::set_sgi_priority(0x5090_0000, 16, 0x20),
        Err(GicError::InvalidSgiId)
    );
}

#[test]
fn acknowledge_keeps_the_low_24_bits() {
    assert_eq!(GicV3Driver::acknowledge_interrupt(0xFFFF_FFFF_FF00_03FF), 0x3FF);
    assert_eq!(GicV3Driver::acknowledge_interrupt(0x0123_4567), 0x23_4567);
}

#[test]
fn redistributor_base_follows_the_core_position() {
    assert_eq!(GicV3Driver::get_gicr_base_for_core(0x0), Ok(0x5090_0000));
    assert_eq!(GicV3Driver::get_gicr_base_for_core(0x102), Ok(0x5090_0000 + 10 * 0x20000));
    assert_eq!(GicV3Driver::get_gicr_base_for_core(0x307), Ok(0x5090_0000 + 31 * 0x20000));
    // An identifier that names no core has no redistributor.
    for mpidr in [0x1_0000u64, 0x8000_0000, 0x400, 0x008] {
        assert_eq!(GicV3Driver::get_gicr_base_for_core(mpidr), Err(GicError::InvalidTarget));
    }
}

#[test]
fn affinity_levels_are_bytes_of_the_register() {
    assert_eq!(GicV3Driver::mpidr_afflvl_val(0x0403_0201, 0), 1);
    assert_eq!(GicV3Driver::mpidr_afflvl_val(0x0403_0201, 1), 2);
    assert_eq!(GicV3Driver::mpidr_afflvl_val(0x0403_0201, 2), 3);
    assert_eq!(GicV3Driver::mpidr_afflvl_val(0x0403_0201, 3), 4);
    assert_eq!(GicV3Driver::mpidr_afflvl_val(0xAB00_0000_0000_0000, 7), 0xAB);
    assert_eq!(GicV3Driver::s32_core_pos_by_mpidr(0x0305), 3 * 8 + 5);
}

#[test]
fn distributor_is_configured_then_enabled_by_the_primary_core() {
    let mut d = Distributor::new();
    assert_eq!(d.state(), DistributorState::Disabled);
    assert_eq!(d.enable(0), Err(GicError::InvalidState));
    assert_eq!(d.configure(1, 2), Err(GicError::NotPrimaryCore));
    assert_eq!(d.state(), DistributorState::Disabled);

    // Three blocks of ids: block 0 is private, blocks 1 and 2 are configured.
    let ops = d.configure(0, 0xFFE2).unwrap();
    assert_eq!(ops.len(), 28);
    assert_eq!(ops[0], HwOp::Write32 { addr: 0x5080_0184, value: 0xFFFF_FFFF });
    assert_eq!(ops[1], HwOp::Write32 { addr: 0x5080_0284, value: 0xFFFF_FFFF });
    assert_eq!(ops[2], HwOp::Write32 { addr: 0x5080_0384, value: 0xFFFF_FFFF });
    assert_eq!(ops[3], HwOp::Write32 { addr: 0x5080_0084, value: 0xFFFF_FFFF });
    assert_eq!(ops[4], HwOp::Write32 { addr: 0x5080_0C08, value: 0 });
    assert_eq!(ops[5], HwOp::Write32 { addr: 0x5080_0C0C, value: 0 });
    assert_eq!(ops[6], HwOp::Write32 { addr: 0x5080_0420, value: 0x8080_8080 });
    assert_eq!(ops[13], HwOp::Write32 { addr: 0x5080_043C, value: 0x8080_8080 });
    assert_eq!(ops[14], HwOp::Write32 { addr: 0x5080_0188, value: 0xFFFF_FFFF });
    assert_eq!(ops[27], HwOp::Write32 { addr: 0x5080_045C, value: 0x8080_8080 });
    assert_eq!(d.state(), DistributorState::Configured);

    assert_eq!(d.configure(0, 2), Err(GicError::InvalidState));
    assert_eq!(d.enable(4), Err(GicError::NotPrimaryCore));
    assert_eq!(
        d.enable(0),
        Ok(vec![HwOp::Write32 { addr: 0x5080_0000, value: 0x12 }, HwOp::Dsb])
    );
    assert_eq!(d.state(), DistributorState::Enabled);
    assert_eq!(d.enable(0), Err(GicError::InvalidState));
}

#[test]
fn distributor_with_only_private_interrupts_has_nothing_to_configure() {
    let mut d = Distributor::new();
    assert_eq!(d.configure(0, 0), Ok(vec![]));
    let mut d = Distributor::new();
    assert_eq!(d.configure(0, 31).unwrap().len(), 14 * 31);
}

#[test]
fn priority_mask_admits_more_urgent_priorities_only() {
    assert!(GicV3Driver::priority_admitted(0xF0, 0x80));
    assert!(GicV3Driver::priority_admitted(0xF0, 0xEF));
    assert!(!GicV3Driver::priority_admitted(0xF0, 0xF0));
    assert!(!GicV3Driver::priority_admitted(0xF0, 0xFF));
    assert!(!GicV3Driver::priority_admitted(0, 0));
}

#[test]
fn own_core_position_comes_from_mpidr() {
    assert_eq!(
        GicV3Driver::get_mpidr(),
        s32g3_kernel::arch::aarch64::HwRead::SysReg { reg: SysReg::MpidrEl1 }
    );
    assert_eq!(GicV3Driver::plat_my_core_pos(0x0101), Ok(9));
    assert!(GicV3Driver::plat_my_core_pos(0x0801).is_err());
    assert!(GicV3Driver::plat_my_core_pos(0x8000_0101).is_err());
}

#[test]
fn primary_core_brings_the_distributor_up_and_others_leave_it_alone() {
    let mut d = Distributor::new();
    assert_eq!(d.bring_up(3, 1), vec![]);
    assert_eq!(d.state(), DistributorState::Disabled);

    let ops = d.bring_up(0, 1);
    assert_eq!(ops.len(), 14 + 2);
    assert_eq!(ops[0], HwOp::Write32 { addr: 0x5080_0184, value: 0xFFFF_FFFF });
    assert_eq!(ops[14], HwOp::Write32 { addr: 0x5080_0000, value: 0x12 });
    assert_eq!(ops[15], HwOp::Dsb);
    assert_eq!(d.state(), DistributorState::Enabled);

    // Once it is up there is nothing left to do.
    assert_eq!(d.bring_up(0, 1), vec![]);
    assert_eq!(d.state(), DistributorState::Enabled);

    // A distributor that was configured only is enabled.
    let mut d = Distributor::new();
    d.configure(0, 0).unwrap();
    assert_eq!(
        d.bring_up(0, 0),
        vec![HwOp::Write32 { addr: 0x5080_0000, value: 0x12 }, HwOp::Dsb]
    );
}
