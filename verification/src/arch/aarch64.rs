//! Primitive machine operations of an AArch64 core, as values.
//!
//! Every access to the machine is one of the operations below. The library
//! computes them; the program around it performs them, in order.

use vstd::prelude::*;

verus! {

// Exception levels
pub const EL0: u8 = 0;
pub const EL1: u8 = 1;
pub const EL2: u8 = 2;
pub const EL3: u8 = 3;

/// DAIF mask bit of IRQ, as the immediate of `msr daifset` / `msr daifclr`.
pub const DAIF_IRQ: u8 = 2;
/// DAIF mask bit of FIQ.
pub const DAIF_FIQ: u8 = 1;
/// All four DAIF mask bits.
pub const DAIF_ALL: u8 = 0xF;

/// A system register that this core reads or writes.
#[derive(Clone, Copy, Debug, PartialEq, Eq, Structural)]
pub enum SysReg {
    VbarEl1,
    Ttbr0El1,
    TcrEl1,
    MairEl1,
    SctlrEl1,
    MpidrEl1,
    CurrentEl,
    SpsrEl1,
    EsrEl1,
    FarEl1,
    /// ICC_SRE_EL1
    IccSreEl1,
    /// ICC_IGRPEN1_EL1
    IccIgrpen1El1,
    /// ICC_PMR_EL1
    IccPmrEl1,
    /// ICC_BPR1_EL1
    IccBpr1El1,
    /// ICC_IAR1_EL1
    IccIar1El1,
    /// ICC_EOIR1_EL1
    IccEoir1El1,
    /// ICC_SGI1R_EL1
    IccSgi1rEl1,
}

/// One side-effecting operation on the machine that returns nothing.
#[allow(inconsistent_fields)]
#[derive(Clone, Copy, Debug, PartialEq, Eq, Structural)]
pub enum HwOp {
    /// `msr <reg>, value`
    WriteSysReg { reg: SysReg, value: u64 },
    /// A volatile 8-bit store.
    Write8 { addr: u64, value: u8 },
    /// A volatile 32-bit store.
    Write32 { addr: u64, value: u32 },
    /// A volatile 64-bit store.
    Write64 { addr: u64, value: u64 },
    /// `dsb sy`
    Dsb,
    /// `dsb ish`
    DsbIsh,
    /// `dmb sy`
    Dmb,
    /// `isb`
    Isb,
    /// `msr daifset, #mask`
    DaifSet { mask: u8 },
    /// `msr daifclr, #mask`
    DaifClr { mask: u8 },
    /// `wfi`
    Wfi,
    /// `wfe`
    Wfe,
    /// `sev`
    Sev,
    /// `ic ialluis`
    InvalidateICache,
    /// A short busy pause of `count` spin-loop hints.
    Spin { count: u32 },
}

/// One read of the machine, whose result is handed back to the library.
#[derive(Clone, Copy, Debug, PartialEq, Eq, Structural)]
pub enum HwRead {
    /// `mrs value, <reg>`
    SysReg { reg: SysReg },
    /// A volatile 32-bit load.
    Mmio32 { addr: u64 },
}

/// The exception level held in a CurrentEL value: its bits 3 and 2.
pub open spec fn exception_level_of(current_el: u64) -> int {
    (current_el as int / 4) % 4
}

/// The M[3:0] field of a saved processor state.
pub open spec fn saved_mode_of(spsr: u64) -> int {
    spsr as int % 16
}

/// Bits 15 to 8 of an MPIDR value.
pub open spec fn cpu_id_of(mpidr: u64) -> int {
    (mpidr as int / 0x100) % 0x100
}

proof fn lemma_register_fields(value: u64)
    ensures
        (value >> 2) & 0x3 == exception_level_of(value),
        value & 0xF == saved_mode_of(value),
        (value >> 8) & 0xFF == cpu_id_of(value),
{
    assert((value >> 2u64) & 0x3 == (value / 4) % 4 && value & 0xF == value % 16 && (value >> 8u64)
        & 0xFF == (value / 0x100) % 0x100) by (bit_vector);
}

/// Cache operations: invalidate the whole instruction cache, then wait for
/// it and resynchronize.
pub fn invalidate_icache_all() -> (ops: Vec<HwOp>)
    ensures
        ops@ == seq![HwOp::InvalidateICache, HwOp::DsbIsh, HwOp::Isb],
{
    vec![HwOp::InvalidateICache, HwOp::DsbIsh, HwOp::Isb]
}

/// Data cache invalidation: a data synchronization barrier stands in for
/// it.
pub fn invalidate_dcache_all() -> (ops: Vec<HwOp>)
    ensures
        ops@ == seq![HwOp::Dsb],
{
    vec![HwOp::Dsb]
}

/// Enable IRQ interrupts
pub fn enable_irq() -> (op: HwOp)
    ensures
        op == (HwOp::DaifClr { mask: DAIF_IRQ }),
{
    HwOp::DaifClr { mask: DAIF_IRQ }
}

/// Disable IRQ interrupts
pub fn disable_irq() -> (op: HwOp)
    ensures
        op == (HwOp::DaifSet { mask: DAIF_IRQ }),
{
    HwOp::DaifSet { mask: DAIF_IRQ }
}

/// Enable FIQ interrupts
pub fn enable_fiq() -> (op: HwOp)
    ensures
        op == (HwOp::DaifClr { mask: DAIF_FIQ }),
{
    HwOp::DaifClr { mask: DAIF_FIQ }
}

/// Disable FIQ interrupts
pub fn disable_fiq() -> (op: HwOp)
    ensures
        op == (HwOp::DaifSet { mask: DAIF_FIQ }),
{
    HwOp::DaifSet { mask: DAIF_FIQ }
}

/// Check if currently in IRQ context, given the saved processor state:
/// whether its mode field is 2.
pub fn is_in_irq(spsr: u64) -> (in_irq: bool)
    ensures
        in_irq == (saved_mode_of(spsr) == 2),
{
    proof {
        lemma_register_fields(spsr);
    }
    // Check M[3:0] in SPSR for IRQ mode
    (spsr & 0xF) == 0x2
}

/// Get the current exception level from a CurrentEL value.
pub fn current_el(reg: u64) -> (el: u8)
    ensures
        el == exception_level_of(reg),
        el <= EL3,
{
    proof {
        lemma_register_fields(reg);
    }
    ((reg >> 2) & 0x3) as u8
}

/// Get the CPU ID from an MPIDR value: its bits 15 to 8.
pub fn cpu_id(mpidr: u64) -> (id: u8)
    ensures
        id == cpu_id_of(mpidr),
{
    proof {
        lemma_register_fields(mpidr);
    }
    ((mpidr >> 8) & 0xFF) as u8
}

/// Wait for event
pub fn wfe() -> (op: HwOp)
    ensures
        op == HwOp::Wfe,
{
    HwOp::Wfe
}

/// Wait for interrupt
pub fn wfi() -> (op: HwOp)
    ensures
        op == HwOp::Wfi,
{
    HwOp::Wfi
}

/// Send event: wakes the cores that wait for one.
pub fn sev() -> (op: HwOp)
    ensures
        op == HwOp::Sev,
{
    HwOp::Sev
}

/// Data Synchronization Barrier
pub fn dsb() -> (op: HwOp)
    ensures
        op == HwOp::Dsb,
{
    HwOp::Dsb
}

/// Data Memory Barrier
pub fn dmb() -> (op: HwOp)
    ensures
        op == HwOp::Dmb,
{
    HwOp::Dmb
}

/// Instruction Synchronization Barrier
pub fn isb() -> (op: HwOp)
    ensures
        op == HwOp::Isb,
{
    HwOp::Isb
}

/// System register access: the write of `val` to `reg`.
pub fn write_sysreg(reg: SysReg, val: u64) -> (op: HwOp)
    ensures
        op == (HwOp::WriteSysReg { reg, value: val }),
{
    HwOp::WriteSysReg { reg, value: val }
}

/// System register access: the read of `reg`.
pub fn read_sysreg(reg: SysReg) -> (read: HwRead)
    ensures
        read == (HwRead::SysReg { reg }),
{
    HwRead::SysReg { reg }
}

} // verus!
