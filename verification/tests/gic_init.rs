use s32g3_kernel::arch::aarch64::{HwOp, HwRead, SysReg};
use s32g3_kernel::arch::gic::{GicError, GicV3Driver, InitNext, WAKE_POLL_LIMIT};

const GICR2: u64 = 0x5090_0000 + 2 * 0x20000;

fn waker_read(base: u64) -> InitNext {
    InitNext::Read { read: HwRead::Mmio32 { addr: base + 0x14 } }
}

fn finish_ops(base: u64) -> Vec<HwOp> {
    let sgi = base + 0x10000;
    let mut ops = vec![HwOp::Write32 { addr: sgi + 0x80, value: 0xFFFF_FFFF }];
    for i in 0..32u64 {
        ops.push(HwOp::Write8 { addr: sgi + 0x400 + i, value: 0x80 });
    }
    ops.push(HwOp::Write32 { addr: sgi + 0x100, value: 0xFFFF_FFFF });
    ops.push(HwOp::WriteSysReg { reg: SysReg::IccPmrEl1, value: 0xF0 });
    ops.push(HwOp::Isb);
    ops.push(HwOp::WriteSysReg { reg: SysReg::IccBpr1El1, value: 0 });
    ops.push(HwOp::Isb);
    ops.push(HwOp::WriteSysReg { reg: SysReg::IccIgrpen1El1, value: 1 });
    ops.push(HwOp::Isb);
    ops
}

#[test]
fn init_of_a_sleeping_redistributor_runs_the_whole_handshake() {
    let mut gic = GicV3Driver::new();
    assert!(!gic.is_initialized());

    let step = gic.init_secondary_core(0);
    assert!(step.ops.is_empty());
    assert_eq!(step.next, InitNext::Read { read: HwRead::SysReg { reg: SysReg::IccSreEl1 } });

    let step = gic.init_secondary_core(0x6);
    assert_eq!(
        step.ops,
        vec![HwOp::WriteSysReg { reg: SysReg::IccSreEl1, value: 0x7 }, HwOp::Isb, HwOp::Isb]
    );
    assert_eq!(step.next, InitNext::Read { read: HwRead::SysReg { reg: SysReg::MpidrEl1 } });

    let step = gic.init_secondary_core(0x0002);
    assert!(step.ops.is_empty());
    assert_eq!(step.next, waker_read(GICR2));

    // ProcessorSleep and ChildrenAsleep are set.
    let step = gic.init_secondary_core(0x6);
    assert_eq!(step.ops, vec![HwOp::Write32 { addr: GICR2 + 0x14, value: 0x4 }, HwOp::Dsb]);
    assert_eq!(step.next, waker_read(GICR2));
    assert!(!gic.is_initialized());

    // Still asleep: pause and poll again.
    let step = gic.init_secondary_core(0x4);
    assert_eq!(step.ops, vec![HwOp::Spin { count: 1000 }]);
    assert_eq!(step.next, waker_read(GICR2));
    assert!(!gic.is_initialized());

    // Awake.
    let step = gic.init_secondary_core(0x0);
    assert_eq!(step.ops, finish_ops(GICR2));
    assert_eq!(step.next, InitNext::Done);
    assert!(gic.is_initialized());

    // A second initialization does nothing.
    let step = gic.init_secondary_core(0x1234);
    assert!(step.ops.is_empty());
    assert_eq!(step.next, InitNext::Done);
    assert!(gic.is_initialized());
}

#[test]
fn init_of_an_awake_redistributor_skips_the_wait() {
    let mut gic = GicV3Driver::new();
    gic.init_secondary_core(0);
    gic.init_secondary_core(0x1);
    let step = gic.init_secondary_core(0x0000);
    assert_eq!(step.next, waker_read(0x5090_0000));
    let step = gic.init_secondary_core(0x0);
    assert_eq!(step.ops, finish_ops(0x5090_0000));
    assert_eq!(step.next, InitNext::Done);
    assert!(gic.is_initialized());
}

#[test]
fn init_gives_up_when_the_redistributor_never_wakes() {
    let mut gic = GicV3Driver::new();
    gic.init_secondary_core(0);
    gic.init_secondary_core(0);
    gic.init_secondary_core(1);
    let mut step = gic.init_secondary_core(0x6);
    let mut polls: u64 = 0;
    while let InitNext::Read { .. } = step.next {
        step = gic.init_secondary_core(0x4);
        polls += 1;
        assert!(polls <= WAKE_POLL_LIMIT as u64 + 1);
    }
    assert_eq!(polls, WAKE_POLL_LIMIT as u64 + 1);
    assert_eq!(step.next, InitNext::Failed { error: GicError::Timeout });
    assert!(step.ops.is_empty());
    assert!(!gic.is_initialized());

    // The initialization can be started again.
    let step = gic.init_secondary_core(0);
    assert_eq!(step.next, InitNext::Read { read: HwRead::SysReg { reg: SysReg::IccSreEl1 } });
}

#[test]
fn exceptions_are_unmasked_only_once_delivery_is_initialized() {
    let mut gic = GicV3Driver::new();
    assert_eq!(gic.enable_interrupts(), None);
    gic.init_secondary_core(0);
    gic.init_secondary_core(0x1);
    gic.init_secondary_core(0x0000);
    assert_eq!(gic.enable_interrupts(), None);
    gic.init_secondary_core(0x0);
    assert_eq!(gic.enable_interrupts(), Some(vec![HwOp::DaifClr { mask: 0xF }, HwOp::Isb]));
    assert_eq!(GicV3Driver::disable_interrupts(), vec![HwOp::DaifSet { mask: 0xF }, HwOp::Isb]);
}

#[test]
fn wake_request_clears_only_processor_sleep() {
    assert_eq!(
        GicV3Driver::wake_redistributor(0x5090_0000, 0xFFFF_FFFF),
        Some(HwOp::Write32 { addr: 0x5090_0014, value: 0xFFFF_FFFD })
    );
    assert_eq!(GicV3Driver::wake_redistributor(0x5090_0000, 0x4), None);
    assert!(GicV3Driver::redistributor_awake(0x2));
    assert!(!GicV3Driver::redistributor_awake(0x4));
}

#[test]
fn cpu_interface_writes_are_followed_by_a_barrier() {
    assert_eq!(
        GicV3Driver::set_priority_mask(0xF0),
        vec![HwOp::WriteSysReg { reg: SysReg::IccPmrEl1, value: 0xF0 }, HwOp::Isb]
    );
    assert_eq!(
        GicV3Driver::set_binary_point(3),
        vec![HwOp::WriteSysReg { reg: SysReg::IccBpr1El1, value: 3 }, HwOp::Isb]
    );
    assert_eq!(
        GicV3Driver::enable_group1_interrupts(),
        vec![HwOp::WriteSysReg { reg: SysReg::IccIgrpen1El1, value: 1 }, HwOp::Isb]
    );
    assert_eq!(
        GicV3Driver::enable_system_registers(0x1),
        vec![HwOp::WriteSysReg { reg: SysReg::IccSreEl1, value: 0x1 }, HwOp::Isb, HwOp::Isb]
    );
}

#[test]
fn sgi_ppi_init_writes_thirty_four_stores() {
    let ops = GicV3Driver::init_sgi_ppi(0x5090_0000);
    assert_eq!(ops.len(), 34);
    assert_eq!(ops[0], HwOp::Write32 { addr: 0x5091_0080, value: 0xFFFF_FFFF });
    assert_eq!(ops[1], HwOp::Write8 { addr: 0x5091_0400, value: 0x80 });
    assert_eq!(ops[32], HwOp::Write8 { addr: 0x5091_041F, value: 0x80 });
    assert_eq!(ops[33], HwOp::Write32 { addr: 0x5091_0100, value: 0xFFFF_FFFF });
}

#[test]
fn init_fails_for_an_mpidr_that_names_no_core() {
    for mpidr in [0x8000_0002u64, 0x1_0000, 0x0400, 0x0008, u64::MAX] {
        let mut gic = GicV3Driver::new();
        gic.init_secondary_core(0);
        gic.init_secondary_core(0x1);
        let step = gic.init_secondary_core(mpidr);
        assert!(step.ops.is_empty());
        assert_eq!(step.next, InitNext::Failed { error: GicError::InvalidTarget });
        assert!(!gic.is_initialized());
        // Nothing is under way: the next call starts over.
        let step = gic.init_secondary_core(0);
        assert_eq!(step.next, InitNext::Read { read: HwRead::SysReg { reg: SysReg::IccSreEl1 } });
    }
}

#[test]
fn init_waits_for_a_redistributor_that_is_waking_already() {
    let mut gic = GicV3Driver::new();
    gic.init_secondary_core(0);
    gic.init_secondary_core(0x1);
    gic.init_secondary_core(0x0002);
    // ProcessorSleep is clear, ChildrenAsleep is still set: nothing to write.
    let step = gic.init_secondary_core(0x4);
    assert!(step.ops.is_empty());
    assert_eq!(step.next, waker_read(GICR2));
    assert!(!gic.is_initialized());
    let step = gic.init_secondary_core(0x4);
    assert_eq!(step.ops, vec![HwOp::Spin { count: 1000 }]);
    assert_eq!(step.next, waker_read(GICR2));
    let step = gic.init_secondary_core(0x0);
    assert_eq!(step.ops, finish_ops(GICR2));
    assert_eq!(step.next, InitNext::Done);
    assert!(gic.is_initialized());
}
