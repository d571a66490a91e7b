use s32g3_kernel::arch::aarch64::HwOp;
use s32g3_kernel::arch::gic::InvalidAffinity;
use s32g3_kernel::arch::smc::{
    platform_action_ops,
    get_current_core_id, get_secondary_boot_params, handle_smc, poll_release, CoreLifecycle,
    CorePowerState, PlatformAction, ReleasePoll, SmcReply, SmcStatus, NUM_CORES, SMC_AFFINITY_INFO, SMC_CPU_OFF, SMC_CPU_ON,
    SMC_PSCI_VERSION, SMC_SYSTEM_RESET,
};

fn refused(status: SmcStatus, result: u64) -> SmcReply {
    SmcReply { status, result, action: PlatformAction::Nothing }
}

#[test]
fn scenario_cpu_on_info_params_cpu_off_info() {
    let mut table = CoreLifecycle::new();
    let on = handle_smc(&mut table, 0, SMC_CPU_ON, 2, 0x4000_0000, 0x1234);
    assert_eq!(
        on,
        SmcReply {
            status: SmcStatus::Success,
            result: 0,
            action: PlatformAction::ReleaseCore { target: 2 }
        }
    );
    let info = handle_smc(&mut table, 0, SMC_AFFINITY_INFO, 2, 0, 0);
    assert_eq!(info, refused(SmcStatus::CoreOn, 0));
    assert_eq!(get_secondary_boot_params(&table, 2), (0x4000_0000, 0x1234));
    let off = handle_smc(&mut table, 2, SMC_CPU_OFF, 0, 0, 0);
    assert_eq!(
        off,
        SmcReply { status: SmcStatus::Success, result: 0, action: PlatformAction::PowerDown }
    );
    let info = handle_smc(&mut table, 0, SMC_AFFINITY_INFO, 2, 0, 0);
    assert_eq!(info, refused(SmcStatus::CoreOff, 1));
}

#[test]
fn cpu_on_twice_is_already_on_the_second_time() {
    let mut table = CoreLifecycle::new();
    assert_eq!(handle_smc(&mut table, 0, SMC_CPU_ON, 3, 0x1000, 7).result, 0);
    let again = handle_smc(&mut table, 1, SMC_CPU_ON, 3, 0x2000, 8);
    assert_eq!(again, refused(SmcStatus::AlreadyOn, 0xFFFF_FFFE));
    // The refused call left the boot parameters alone.
    assert_eq!(get_secondary_boot_params(&table, 3), (0x1000, 7));
    // Other activity does not lift the guard, nor does the core's startup.
    handle_smc(&mut table, 0, SMC_CPU_ON, 4, 0, 0);
    handle_smc(&mut table, 4, SMC_CPU_OFF, 0, 0, 0);
    assert!(table.core_online(3));
    assert_eq!(handle_smc(&mut table, 0, SMC_CPU_ON, 3, 0, 0).status, SmcStatus::AlreadyOn);
    // After the core switched itself off it can be switched on again.
    handle_smc(&mut table, 3, SMC_CPU_OFF, 0, 0, 0);
    assert_eq!(handle_smc(&mut table, 0, SMC_CPU_ON, 3, 0x3000, 9).status, SmcStatus::Success);
    assert_eq!(get_secondary_boot_params(&table, 3), (0x3000, 9));
}

#[test]
fn boot_core_is_on_from_reset() {
    let mut table = CoreLifecycle::new();
    assert_eq!(table.power_state(0), Some(CorePowerState::On));
    assert_eq!(handle_smc(&mut table, 0, SMC_AFFINITY_INFO, 0, 0, 0).result, 0);
    assert_eq!(handle_smc(&mut table, 1, SMC_CPU_ON, 0, 0, 0).result, 0xFFFF_FFFE);
}

#[test]
fn affinity_info_is_off_for_every_secondary_core_at_reset() {
    let mut table = CoreLifecycle::new();
    for core in 1..NUM_CORES as u64 {
        assert_eq!(table.power_state(core), Some(CorePowerState::Off));
        assert_eq!(handle_smc(&mut table, 0, SMC_AFFINITY_INFO, core, 0, 0).result, 1);
    }
}

#[test]
fn power_state_goes_off_pending_on_off() {
    let mut table = CoreLifecycle::new();
    assert_eq!(table.power_state(5), Some(CorePowerState::Off));
    assert!(!table.core_online(5));
    assert_eq!(table.power_state(5), Some(CorePowerState::Off));
    handle_smc(&mut table, 0, SMC_CPU_ON, 5, 1, 2);
    assert_eq!(table.power_state(5), Some(CorePowerState::Pending));
    assert!(table.core_online(5));
    assert_eq!(table.power_state(5), Some(CorePowerState::On));
    assert!(!table.core_online(5));
    handle_smc(&mut table, 5, SMC_CPU_OFF, 0, 0, 0);
    assert_eq!(table.power_state(5), Some(CorePowerState::Off));
    assert_eq!(table.power_state(8), None);
    assert!(!table.core_online(8));
}

#[test]
fn boot_params_are_zero_until_a_core_is_switched_on() {
    let mut table = CoreLifecycle::new();
    for core in 0..NUM_CORES as u64 {
        assert_eq!(get_secondary_boot_params(&table, core), (0, 0));
    }
    handle_smc(&mut table, 0, SMC_CPU_ON, 1, 0xAAAA, 0xBBBB);
    assert_eq!(get_secondary_boot_params(&table, 1), (0xAAAA, 0xBBBB));
    // Reading does not consume: the pair is the same until the next CPU_ON.
    assert_eq!(get_secondary_boot_params(&table, 1), (0xAAAA, 0xBBBB));
    assert_eq!(get_secondary_boot_params(&table, 2), (0, 0));
    assert_eq!(get_secondary_boot_params(&table, 8), (0, 0));
    assert_eq!(get_secondary_boot_params(&table, u64::MAX), (0, 0));
}

#[test]
fn target_is_never_wrapped() {
    let mut table = CoreLifecycle::new();
    let bad = refused(SmcStatus::InvalidTarget, 0xFFFF_FFFF);
    for target in [8u64, 0x102, 0xFFFF_FF02, 1 << 32, (1 << 63) | 2, u64::MAX] {
        assert_eq!(handle_smc(&mut table, 0, SMC_CPU_ON, target, 5, 6), bad);
        assert_eq!(handle_smc(&mut table, 0, SMC_AFFINITY_INFO, target, 0, 0), bad);
        assert_eq!(handle_smc(&mut table, target, SMC_CPU_OFF, 0, 0, 0), bad);
    }
    assert_eq!(table.power_state(2), Some(CorePowerState::Off));
    assert_eq!(get_secondary_boot_params(&table, 2), (0, 0));
    assert_eq!(handle_smc(&mut table, 0, SMC_CPU_ON, 7, 5, 6).status, SmcStatus::Success);
    assert_eq!(get_secondary_boot_params(&table, 7), (5, 6));
}

#[test]
fn invalid_targets_are_refused() {
    let mut table = CoreLifecycle::new();
    let bad = refused(SmcStatus::InvalidTarget, 0xFFFF_FFFF);
    assert_eq!(handle_smc(&mut table, 0, SMC_CPU_ON, 8, 1, 1), bad);
    assert_eq!(handle_smc(&mut table, 0, SMC_CPU_ON, 0xFF, 1, 1), bad);
    assert_eq!(handle_smc(&mut table, 0, SMC_AFFINITY_INFO, 8, 0, 0), bad);
    assert_eq!(handle_smc(&mut table, 8, SMC_CPU_OFF, 0, 0, 0), bad);
    for core in 1..NUM_CORES as u64 {
        assert_eq!(table.power_state(core), Some(CorePowerState::Off));
    }
}

#[test]
fn version_reset_and_unknown_calls() {
    let mut table = CoreLifecycle::new();
    assert_eq!(handle_smc(&mut table, 0, SMC_PSCI_VERSION, 0, 0, 0), refused(SmcStatus::Version, 0x0001_0001));
    assert_eq!(
        handle_smc(&mut table, 0, SMC_SYSTEM_RESET, 0, 0, 0),
        SmcReply { status: SmcStatus::Success, result: 0, action: PlatformAction::SystemReset }
    );
    assert_eq!(
        handle_smc(&mut table, 0, 0x8400_0008, 0, 0, 0),
        refused(SmcStatus::NotSupported, 0xFFFF_FFFF)
    );
    assert_eq!(handle_smc(&mut table, 0, 0, 0, 0, 0).status, SmcStatus::NotSupported);
}

#[test]
fn current_core_id_is_the_resolved_core_position() {
    assert_eq!(get_current_core_id(0x0003), Ok(3));
    // Cluster 1, position 2 is core 10, not core 2.
    assert_eq!(get_current_core_id(0x0102), Ok(10));
    assert_eq!(get_current_core_id(0x8000_0103), Err(InvalidAffinity::UnexpectedBits));
    assert_eq!(get_current_core_id(0x0008), Err(InvalidAffinity::OutOfRange));
}

#[test]
fn parked_core_is_released_once_per_cpu_on() {
    let mut table = CoreLifecycle::new();
    assert_eq!(poll_release(&table, 2, 5), ReleasePoll::Wait { polls_left: 4 });
    assert_eq!(poll_release(&table, 2, 0), ReleasePoll::TimedOut);
    handle_smc(&mut table, 0, SMC_CPU_ON, 2, 0x4000_0000, 0x1234);
    assert_eq!(
        poll_release(&table, 2, 0),
        ReleasePoll::Released { entry_point: 0x4000_0000, context_id: 0x1234 }
    );
    assert!(table.core_online(2));
    assert_eq!(poll_release(&table, 2, 3), ReleasePoll::Wait { polls_left: 2 });
    handle_smc(&mut table, 2, SMC_CPU_OFF, 0, 0, 0);
    assert_eq!(poll_release(&table, 2, 3), ReleasePoll::Wait { polls_left: 2 });
    handle_smc(&mut table, 0, SMC_CPU_ON, 2, 0x5000_0000, 1);
    assert_eq!(
        poll_release(&table, 2, 3),
        ReleasePoll::Released { entry_point: 0x5000_0000, context_id: 1 }
    );
    // The boot core is never released, nor a core the platform does not have.
    assert_eq!(poll_release(&table, 0, 1), ReleasePoll::Wait { polls_left: 0 });
    assert_eq!(poll_release(&table, 8, 0), ReleasePoll::TimedOut);
}

#[test]
fn released_core_is_woken_after_a_barrier() {
    assert_eq!(platform_action_ops(PlatformAction::Nothing), vec![]);
    assert_eq!(
        platform_action_ops(PlatformAction::ReleaseCore { target: 2 }),
        vec![HwOp::Dsb, HwOp::Sev]
    );
    assert_eq!(
        platform_action_ops(PlatformAction::PowerDown),
        vec![HwOp::DaifSet { mask: 0xF }, HwOp::Isb, HwOp::Dsb]
    );
    assert_eq!(platform_action_ops(PlatformAction::SystemReset), vec![HwOp::Dsb]);
}
