//! Architecture support: processor primitives, the interrupt controller, the
//! exception dispatcher and the secure-monitor bridge.

use crate::arch::aarch64::HwOp;
use crate::arch::gic::{
    disable_write, enable_write, priority_write, sgi_refusal, sgi_to_core_value, signal_ops,
    synced_write,
    GicError, GicV3Driver, SGI_ID_LIMIT,
};
use crate::arch::s32g3::timer::{Delay, SystemTimer, MAX_DELAY_US, TICKS_PER_US, US_PER_MS};
use crate::arch::s32g3::{platform_stages, BringUpStage};
use vstd::prelude::*;

pub mod aarch64;
pub mod exceptions;
pub mod gic;
pub mod s32g3;
pub mod smc;
pub mod svc;

verus! {

// Interrupt related functions

/// Enable interrupt `irq_num`, from the core at `core_pos`.
pub fn enable_interrupt(core_pos: u32, irq_num: u32) -> (r: Result<HwOp, GicError>)
    ensures
        r == enable_write(core_pos, irq_num),
{
    GicV3Driver::enable_interrupt(core_pos, irq_num)
}

/// Disable interrupt `irq_num`, from the core at `core_pos`.
pub fn disable_interrupt(core_pos: u32, irq_num: u32) -> (r: Result<HwOp, GicError>)
    ensures
        r == disable_write(core_pos, irq_num),
{
    GicV3Driver::disable_interrupt(core_pos, irq_num)
}

/// The interrupt id held in a value read from the acknowledge register. An
/// id of 1022 or more is spurious: there is nothing to handle or to end.
pub fn get_interrupt_id(iar: u64) -> (id: u32)
    ensures
        id == iar % 0x100_0000,
{
    GicV3Driver::acknowledge_interrupt(iar)
}

/// The operations that end interrupt `irq_num`.
pub fn end_of_interrupt(irq_num: u32) -> (ops: Vec<HwOp>)
    ensures
        ops@ == synced_write(aarch64::SysReg::IccEoir1El1, irq_num as u64),
{
    GicV3Driver::end_interrupt(irq_num)
}

/// Set the priority of interrupt `irq_num`, from the core at `core_pos`.
pub fn set_interrupt_priority(core_pos: u32, irq_num: u32, priority: u8) -> (r: Result<
    HwOp,
    GicError,
>)
    ensures
        r == priority_write(core_pos, irq_num, priority),
{
    GicV3Driver::set_priority(core_pos, irq_num, priority)
}

/// Signal the software-generated interrupt `sgi_id` to the core at
/// position `target`.
///
/// Refused with `InvalidSgiId` for an id of 16 or more, else with
/// `InvalidTarget` for a core position beyond the platform; a refusal
/// writes nothing.
pub fn send_sgi(sgi_id: u32, target: u8) -> (r: Result<Vec<HwOp>, GicError>)
    ensures
        match r {
            Ok(ops) => sgi_id < SGI_ID_LIMIT && sgi_refusal(target as u32, sgi_id as u8) is None
                && ops@ == signal_ops(sgi_to_core_value(target as u32, sgi_id as u8)),
            Err(e) => if sgi_id >= SGI_ID_LIMIT {
                e == GicError::InvalidSgiId
            } else {
                sgi_refusal(target as u32, sgi_id as u8) == Some(e)
            },
        },
{
    if sgi_id >= SGI_ID_LIMIT {
        return Err(GicError::InvalidSgiId);
    }
    GicV3Driver::send_sgi_to_core(target as u32, sgi_id as u8)
}

// CPU core functions

/// Unmask IRQs at the processor.
pub fn enable_interrupts() -> (op: HwOp)
    ensures
        op == (HwOp::DaifClr { mask: aarch64::DAIF_IRQ }),
{
    aarch64::enable_irq()
}

/// Mask IRQs at the processor.
pub fn disable_interrupts() -> (op: HwOp)
    ensures
        op == (HwOp::DaifSet { mask: aarch64::DAIF_IRQ }),
{
    aarch64::disable_irq()
}

/// Wait for an interrupt.
pub fn wait_for_interrupt() -> (op: HwOp)
    ensures
        op == HwOp::Wfi,
{
    aarch64::wfi()
}

/// The CPU ID held in an MPIDR value.
pub fn cpu_id(mpidr: u64) -> (id: u8)
    ensures
        id == aarch64::cpu_id_of(mpidr),
{
    aarch64::cpu_id(mpidr)
}

/// The exception level held in a CurrentEL value.
pub fn current_el(reg: u64) -> (el: u8)
    ensures
        el == aarch64::exception_level_of(reg),
{
    aarch64::current_el(reg)
}

// Memory barrier functions

/// Data synchronization barrier.
pub fn dsb() -> (op: HwOp)
    ensures
        op == HwOp::Dsb,
{
    aarch64::dsb()
}

/// Instruction synchronization barrier.
pub fn isb() -> (op: HwOp)
    ensures
        op == HwOp::Isb,
{
    aarch64::isb()
}

// Time-related functions

/// The system tick count.
pub fn get_system_tick(timer: &SystemTimer) -> (ticks: u64)
    ensures
        ticks == timer@,
{
    s32g3::timer::get_system_ticks(timer)
}

/// A delay of `us` microseconds, begun when the raw counter read `now`.
pub fn delay_us(us: u32, now: u32) -> (delay: Delay)
    requires
        us <= MAX_DELAY_US,
    ensures
        delay == (Delay {
            rounds_left: 1,
            ticks_per_round: (TICKS_PER_US * us) as u32,
            round_start: now,
        }),
{
    s32g3::timer::delay_us(us, now)
}

/// A delay of `ms` milliseconds, begun when the raw counter read `now`.
pub fn delay_ms(ms: u32, now: u32) -> (delay: Delay)
    ensures
        delay == (Delay {
            rounds_left: ms,
            ticks_per_round: (TICKS_PER_US * US_PER_MS) as u32,
            round_start: now,
        }),
{
    s32g3::timer::delay_ms(ms, now)
}

/// Hardware initialization: the stages to run, in order. The platform's
/// stages come first; the interrupt controller's stage is run once more
/// after them, which does nothing on a core that is already initialized.
pub fn init() -> (stages: Vec<BringUpStage>)
    ensures
        stages@ == platform_stages().push(BringUpStage::InterruptController),
{
    let mut stages = s32g3::init();
    stages.push(BringUpStage::InterruptController);  // Initialize GIC for this core
    stages
}

} // verus!
