//! Port layer of the scheduler: interrupt context tracking and yielding.

use crate::arch;
use crate::arch::aarch64::HwOp;
use vstd::prelude::*;

verus! {

/// Whether the core is inside an interrupt service routine.
pub struct PortState {
    in_isr: bool,
}

impl View for PortState {
    type V = bool;

    closed spec fn view(&self) -> bool {
        self.in_isr
    }
}

/// Initialize the port-specific features: the core is outside any interrupt
/// service routine.
pub fn init() -> (port: PortState)
    ensures
        !port@,
{
    PortState { in_isr: false }
}

/// Check if currently in ISR/exception context
pub fn is_inside_isr(port: &PortState) -> (inside: bool)
    ensures
        inside == port@,
{
    port.in_isr
}

/// Mark the start of ISR processing
pub fn enter_isr(port: &mut PortState)
    ensures
        final(port)@,
{
    port.in_isr = true;
}

/// Mark the end of ISR processing
pub fn exit_isr(port: &mut PortState)
    ensures
        !final(port)@,
{
    port.in_isr = false;
}

/// Yield processor: wait for the next interrupt.
pub fn yield_task() -> (op: HwOp)
    ensures
        op == HwOp::Wfi,
{
    arch::wait_for_interrupt()
}

} // verus!
