//! A small cooperative scheduler: tasks, the tick, and queues between tasks.

use crate::arch;
use crate::arch::aarch64::{HwOp, DAIF_IRQ};
use crate::arch::s32g3::timer::{increment_system_ticks, SystemTimer};
use crate::freertos::port::PortState;
use crate::freertos::tasks::{next_tick, Scheduler, SchedulerView};
use vstd::prelude::*;

pub mod port;
pub mod queue;
pub mod tasks;

verus! {

/// The state of the scheduler's subsystems.
pub struct Kernel {
    pub port: PortState,
    pub scheduler: Scheduler,
}

/// Initialize the scheduler's subsystems: the port, the tasks, the queues.
pub fn init() -> (kernel: Kernel)
    ensures
        !kernel.port@,
        kernel.scheduler@ == (SchedulerView { tick_count: 0, current_task: 0, tasks: Seq::empty() }),
{
    // Initialize FreeRTOS subsystems
    let port = port::init();
    let scheduler = tasks::init();
    queue::init();
    Kernel { port, scheduler }
}

// Critical section management

/// Enter a critical section: mask interrupts.
pub fn enter_critical_section() -> (op: HwOp)
    ensures
        op == (HwOp::DaifSet { mask: DAIF_IRQ }),
{
    arch::disable_interrupts()
}

/// Leave a critical section: unmask interrupts.
pub fn exit_critical_section() -> (op: HwOp)
    ensures
        op == (HwOp::DaifClr { mask: DAIF_IRQ }),
{
    arch::enable_interrupts()
}

/// System tick handler, called by the timer interrupt: the tick count
/// advances by one, inside an interrupt service routine or outside.
pub fn tick_handler(port: &PortState, scheduler: &mut Scheduler)
    ensures
        final(scheduler)@ == (SchedulerView {
            tick_count: next_tick(old(scheduler)@.tick_count),
            ..old(scheduler)@
        }),
{
    let inside_isr = port::is_inside_isr(port);
    if inside_isr {
        tasks::increment_tick_from_isr(scheduler);
    } else {
        tasks::increment_tick(scheduler);
    }
}

/// The timer interrupt: inside an interrupt service routine, the system
/// tick and the scheduler's tick advance by one each.
pub fn tick_isr(kernel: &mut Kernel, timer: &mut SystemTimer)
    ensures
        !final(kernel).port@,
        final(kernel).scheduler@ == (SchedulerView {
            tick_count: next_tick(old(kernel).scheduler@.tick_count),
            ..old(kernel).scheduler@
        }),
        final(timer)@ == next_tick(old(timer)@),
{
    port::enter_isr(&mut kernel.port);
    increment_system_ticks(timer);
    tick_handler(&kernel.port, &mut kernel.scheduler);
    port::exit_isr(&mut kernel.port);
}

} // verus!
