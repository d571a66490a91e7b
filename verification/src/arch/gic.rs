//! Generic Interrupt Controller v3 driver for the S32G3.

use crate::arch::aarch64::{HwOp, HwRead, SysReg, DAIF_ALL};
use vstd::arithmetic::power2::{lemma2_to64, lemma_pow2_strictly_increases, pow2};
use vstd::bits::{lemma_u32_shl_is_mul, lemma_u64_shl_is_mul, lemma_u64_shr_is_div};
use vstd::prelude::*;

verus! {

/// GICv3 register addresses for S32G3
pub const GICD_BASE: u64 = 0x5080_0000;  // GIC Distributor base
pub const GICR_BASE: u64 = 0x5090_0000;  // GIC Redistributor base

/// Size of the distributor's register frame.
pub const GICD_SIZE: u64 = 0x10000;

/// GIC Distributor register offsets
pub const GICD_CTLR: u64 = 0x0000;  // Distributor Control Register
pub const GICD_TYPER: u64 = 0x0004;  // Interrupt Controller Type Register
pub const GICD_IIDR: u64 = 0x0008;  // Distributor Implementer Identification Register
pub const GICD_STATUSR: u64 = 0x0010;  // Error Reporting Status Register
pub const GICD_IGROUPR: u64 = 0x0080;  // Interrupt Group Registers
pub const GICD_ISENABLER: u64 = 0x0100;  // Interrupt Set-Enable Registers
pub const GICD_ICENABLER: u64 = 0x0180;  // Interrupt Clear-Enable Registers
pub const GICD_ISPENDR: u64 = 0x0200;  // Interrupt Set-Pending Registers
pub const GICD_ICPENDR: u64 = 0x0280;  // Interrupt Clear-Pending Registers
pub const GICD_ISACTIVER: u64 = 0x0300;  // Interrupt Set-Active Registers
pub const GICD_ICACTIVER: u64 = 0x0380;  // Interrupt Clear-Active Registers
pub const GICD_IPRIORITYR: u64 = 0x0400;  // Interrupt Priority Registers
pub const GICD_ICFGR: u64 = 0x0C00;  // Interrupt Configuration Registers
pub const GICD_IROUTER: u64 = 0x6000;  // Interrupt Routing Registers

/// GIC Redistributor register offsets (relative to GICR_BASE)
pub const GICR_STRIDE: u64 = 0x20000;  // Stride between redistributors
pub const GICR_CTLR: u64 = 0x0000;  // Redistributor Control Register
pub const GICR_IIDR: u64 = 0x0004;  // Implementer Identification Register
pub const GICR_TYPER: u64 = 0x0008;  // Redistributor Type Register
pub const GICR_STATUSR: u64 = 0x0010;  // Error Reporting Status Register
pub const GICR_WAKER: u64 = 0x0014;  // Redistributor Wakeup Control Register

// SGI_base frame (offset 0x10000 from Redistributor base)
pub const GICR_SGI_OFFSET: u64 = 0x10000;  // Offset to SGI_base frame
pub const GICR_IGROUPR0: u64 = 0x0080;  // Interrupt Group Register (SGIs/PPIs)
pub const GICR_ISENABLER0: u64 = 0x0100;  // Interrupt Set-Enable Register (SGIs/PPIs)
pub const GICR_ICENABLER0: u64 = 0x0180;  // Interrupt Clear-Enable Register (SGIs/PPIs)
pub const GICR_ISPENDR0: u64 = 0x0200;  // Interrupt Set-Pending Register (SGIs/PPIs)
pub const GICR_ICPENDR0: u64 = 0x0280;  // Interrupt Clear-Pending Register (SGIs/PPIs)
pub const GICR_ISACTIVER0: u64 = 0x0300;  // Interrupt Set-Active Register (SGIs/PPIs)
pub const GICR_ICACTIVER0: u64 = 0x0380;  // Interrupt Clear-Active Register (SGIs/PPIs)
pub const GICR_IPRIORITYR: u64 = 0x0400;  // Interrupt Priority Registers (SGIs/PPIs)
pub const GICR_ICFGR0: u64 = 0x0C00;  // Interrupt Configuration Register 0 (SGIs)
pub const GICR_ICFGR1: u64 = 0x0C04;  // Interrupt Configuration Register 1 (PPIs)
pub const GICR_IGRPMODR0: u64 = 0x0D00;  // Interrupt Group Modifier Register (SGIs/PPIs)

/// ICC_SRE_EL1 bits
pub const ICC_SRE_EL1_SRE: u64 = 0x1;  // System Register Enable
pub const ICC_SRE_EL1_DFB: u64 = 0x2;  // Disable FIQ Bypass
pub const ICC_SRE_EL1_DIB: u64 = 0x4;  // Disable IRQ Bypass
pub const ICC_SRE_EL1_EN: u64 = 0x8;  // Enable for Non-secure state

/// ICC_IGRPEN1_EL1 bits
pub const ICC_IGRPEN1_EL1_ENABLE: u64 = 0x1;  // Enable for Group 1 interrupts

/// GICD_CTLR bits
pub const GICD_CTLR_ENABLE_G0: u32 = 0x01;  // Enable Group 0 interrupts
pub const GICD_CTLR_ENABLE_G1NS: u32 = 0x02;  // Enable Non-secure Group 1 interrupts
pub const GICD_CTLR_ENABLE_G1S: u32 = 0x04;  // Enable Secure Group 1 interrupts
pub const GICD_CTLR_ARE_NS: u32 = 0x10;  // Affinity Routing Enable for Non-secure state
pub const GICD_CTLR_ARE_S: u32 = 0x20;  // Affinity Routing Enable for Secure state
pub const GICD_CTLR_DS: u32 = 0x40;  // Disable Security

/// GICR_WAKER bits
pub const GICR_WAKER_PROCESSOR_SLEEP: u32 = 0x2;  // Processor sleep bit
pub const GICR_WAKER_CHILDREN_ASLEEP: u32 = 0x4;  // Children asleep bit

/// Interrupt id ranges: software-generated, private peripheral, shared
/// peripheral. Ids from `SPURIOUS_ID_BASE` on are sentinels, not interrupts.
pub const SGI_ID_LIMIT: u32 = 16;
pub const PPI_ID_LIMIT: u32 = 32;
pub const INTERRUPT_ID_LIMIT: u32 = 1020;
pub const SPURIOUS_ID_BASE: u32 = 1022;

/// Priority given to every interrupt at initialization (mid-range).
pub const DEFAULT_PRIORITY: u8 = 0x80;

/// Priority mask set at initialization.
pub const DEFAULT_PRIORITY_MASK: u64 = 0xF0;

/// Constants for MPIDR register processing
pub const MPIDR_AFFINITY_MASK: u64 = 0xff00ff_ffff;
pub const MPIDR_MT_MASK: u64 = 0x100_0000;
pub const MPIDR_AFFLVL_MASK: u64 = 0xff;
pub const MPIDR_AFFINITY_BITS: u32 = 8;
pub const MPIDR_CPU_MASK: u64 = 0xff;
pub const MPIDR_CLUSTER_MASK: u64 = 0xff00;
pub const MPIDR_AFF1_SHIFT: u32 = 8;

/// Log2 of max CPUs per cluster (8)
pub const S32_MPIDR_CPU_MASK_BITS: u32 = 3;

/// Platform-specific constants
pub const PLATFORM_CLUSTER_COUNT: u32 = 4;
pub const PLATFORM_MAX_CPUS_PER_CLUSTER: u32 = 8;

/// Number of core positions of the platform: every core index is below it.
pub const MAX_CORES: u32 = 32;

/// Number of times the wake handshake polls the redistributor before the
/// initialization gives up.
pub const WAKE_POLL_LIMIT: u32 = 1_000_000;

/// Spin-loop hints between two polls of the redistributor.
pub const WAKE_POLL_PAUSE: u32 = 1000;

/// The core that sets the distributor up, before any other core depends on
/// shared interrupts.
pub const PRIMARY_CORE: u32 = 0;

/// Stores that configure one block of thirty-two shared interrupts.
pub const BLOCK_CONFIG_OPS: usize = 14;

/// Why an affinity identifier names no core of this platform.
#[derive(Clone, Copy, Debug, PartialEq, Eq, Structural)]
pub enum InvalidAffinity {
    /// A bit outside the cluster and position fields is set.
    UnexpectedBits,
    /// The cluster or the position in the cluster is beyond the platform.
    OutOfRange,
}

impl InvalidAffinity {
    /// The refusal in words.
    pub fn message(&self) -> (msg: &'static str)
        ensures
            msg@ == match *self {
                InvalidAffinity::UnexpectedBits => "Invalid MPIDR value: unexpected bits set"@,
                InvalidAffinity::OutOfRange => "Invalid MPIDR value: cluster or CPU ID out of range"@,
            },
    {
        match self {
            InvalidAffinity::UnexpectedBits => "Invalid MPIDR value: unexpected bits set",
            InvalidAffinity::OutOfRange => "Invalid MPIDR value: cluster or CPU ID out of range",
        }
    }
}

/// What the driver refuses.
#[derive(Clone, Copy, Debug, PartialEq, Eq, Structural)]
pub enum GicError {
    /// The id is not that of an interrupt (it is 1020 or more).
    InvalidInterruptId,
    /// The id is not that of a shared peripheral interrupt (32 to 1019).
    InvalidSpiId,
    /// The id is not that of a software-generated interrupt (0 to 15).
    InvalidSgiId,
    /// The core position is beyond the platform.
    InvalidTarget,
    /// The redistributor did not wake within the allowed number of polls.
    Timeout,
    /// Only the primary core sets the distributor up.
    NotPrimaryCore,
    /// The distributor is not in the state that the operation starts from.
    InvalidState,
}

impl GicError {
    /// The refusal in words.
    pub fn message(&self) -> (msg: &'static str)
        ensures
            msg@ == match *self {
                GicError::InvalidInterruptId => "Invalid interrupt ID: must be 0-1019"@,
                GicError::InvalidSpiId => "Invalid SPI ID: must be 32-1019"@,
                GicError::InvalidSgiId => "Invalid SGI ID: must be 0-15"@,
                GicError::InvalidTarget => "Invalid target: core position beyond the platform"@,
                GicError::Timeout => "Timeout: redistributor did not wake"@,
                GicError::NotPrimaryCore => "Distributor is set up by the primary core only"@,
                GicError::InvalidState => "Distributor is not in the required state"@,
            },
    {
        match self {
            GicError::InvalidInterruptId => "Invalid interrupt ID: must be 0-1019",
            GicError::InvalidSpiId => "Invalid SPI ID: must be 32-1019",
            GicError::InvalidSgiId => "Invalid SGI ID: must be 0-15",
            GicError::InvalidTarget => "Invalid target: core position beyond the platform",
            GicError::Timeout => "Timeout: redistributor did not wake",
            GicError::NotPrimaryCore => "Distributor is set up by the primary core only",
            GicError::InvalidState => "Distributor is not in the required state",
        }
    }
}

/// Affinity level 0 of an MPIDR value: the position in the cluster.
pub open spec fn aff0(mpidr: u64) -> int {
    mpidr as int % 0x100
}

/// Affinity level 1 of an MPIDR value: the cluster.
pub open spec fn aff1(mpidr: u64) -> int {
    (mpidr as int / 0x100) % 0x100
}

/// Whether an MPIDR value has a bit set outside its cluster and position
/// fields, which are its low sixteen bits.
pub open spec fn has_unexpected_bits(mpidr: u64) -> bool {
    mpidr >= 0x1_0000
}

/// The affinity field of `mpidr` at `level`, counting eight bits per level
/// from bit 0.
pub open spec fn affinity_level(mpidr: u64, level: u32) -> nat {
    (mpidr as nat / pow2((level * MPIDR_AFFINITY_BITS) as nat)) % 0x100
}

/// The core index that an MPIDR value resolves to, or the reason why it
/// resolves to none: a bit outside the cluster and position fields is
/// refused first, then a cluster or a position beyond the platform.
pub open spec fn resolve(mpidr: u64) -> Result<u32, InvalidAffinity> {
    if has_unexpected_bits(mpidr) {
        Err(InvalidAffinity::UnexpectedBits)
    } else if aff1(mpidr) >= PLATFORM_CLUSTER_COUNT || aff0(mpidr)
        >= PLATFORM_MAX_CPUS_PER_CLUSTER {
        Err(InvalidAffinity::OutOfRange)
    } else {
        Ok((aff1(mpidr) * PLATFORM_MAX_CPUS_PER_CLUSTER + aff0(mpidr)) as u32)
    }
}

/// The affinity identifier of a core index: cluster in level 1, position in
/// level 0, everything else zero.
pub open spec fn affinity_of(core_pos: u32) -> u64 {
    ((core_pos / PLATFORM_MAX_CPUS_PER_CLUSTER) * 0x100 + core_pos
        % PLATFORM_MAX_CPUS_PER_CLUSTER) as u64
}

/// Ids of software-generated interrupts.
pub open spec fn is_sgi(id: u32) -> bool {
    id < SGI_ID_LIMIT
}

/// Ids of private peripheral interrupts.
pub open spec fn is_ppi(id: u32) -> bool {
    SGI_ID_LIMIT <= id < PPI_ID_LIMIT
}

/// Ids of shared peripheral interrupts.
pub open spec fn is_spi(id: u32) -> bool {
    PPI_ID_LIMIT <= id < INTERRUPT_ID_LIMIT
}

/// Ids that an acknowledge returns when there is nothing to handle.
pub open spec fn is_spurious(id: u32) -> bool {
    id >= SPURIOUS_ID_BASE
}

/// The 32-bit word with only bit `n` set.
pub open spec fn bit32(n: u32) -> u32
    recommends
        n < 32,
{
    pow2(n as nat) as u32
}

/// Base address of the redistributor of a core position.
pub open spec fn gicr_base_of(core_pos: u32) -> int {
    GICR_BASE + core_pos * GICR_STRIDE
}

/// Base address of the redistributor of the core with this MPIDR; no
/// core's if the MPIDR resolves to none.
pub open spec fn redistributor_of(mpidr: u64) -> Result<u64, GicError> {
    match resolve(mpidr) {
        Ok(pos) => Ok(gicr_base_of(pos) as u64),
        Err(_) => Err(GicError::InvalidTarget),
    }
}

/// A redistributor's frames lie within the address space.
pub open spec fn gicr_base_fits(gicr_base: u64) -> bool {
    gicr_base + GICR_STRIDE <= u64::MAX
}

/// The address that an operation stores to, if it is a store.
pub open spec fn store_addr(op: HwOp) -> Option<u64> {
    match op {
        HwOp::Write8 { addr, .. } => Some(addr),
        HwOp::Write32 { addr, .. } => Some(addr),
        HwOp::Write64 { addr, .. } => Some(addr),
        _ => None,
    }
}

/// The operation stores into the distributor, which all cores share.
pub open spec fn targets_distributor(op: HwOp) -> bool {
    store_addr(op) matches Some(addr) && GICD_BASE <= addr < GICD_BASE + GICD_SIZE
}

/// The operation stores into the redistributor of `core_pos`.
pub open spec fn targets_redistributor(op: HwOp, core_pos: u32) -> bool {
    store_addr(op) matches Some(addr) && gicr_base_of(core_pos) <= addr < gicr_base_of(core_pos)
        + GICR_STRIDE
}

/// The store that sets the enable bit of a shared peripheral interrupt.
pub open spec fn spi_enable_write(id: u32) -> HwOp {
    HwOp::Write32 {
        addr: (GICD_BASE + GICD_ISENABLER + (id / 32) * 4) as u64,
        value: bit32(id % 32),
    }
}

/// The store that clears the enable bit of a shared peripheral interrupt.
pub open spec fn spi_disable_write(id: u32) -> HwOp {
    HwOp::Write32 {
        addr: (GICD_BASE + GICD_ICENABLER + (id / 32) * 4) as u64,
        value: bit32(id % 32),
    }
}

/// The store that sets the priority byte of a shared peripheral interrupt.
pub open spec fn spi_priority_write(id: u32, priority: u8) -> HwOp {
    HwOp::Write8 { addr: (GICD_BASE + GICD_IPRIORITYR + id) as u64, value: priority }
}

/// The store that routes a shared peripheral interrupt.
pub open spec fn spi_target_write(id: u32, target_aff: u64) -> HwOp {
    HwOp::Write64 { addr: (GICD_BASE + GICD_IROUTER + id * 8) as u64, value: target_aff }
}

/// The store that sets the priority byte of a private interrupt (id below
/// 32) in the redistributor at `gicr_base`.
pub open spec fn private_priority_write(gicr_base: u64, id: u32, priority: u8) -> HwOp {
    HwOp::Write8 {
        addr: (gicr_base + GICR_SGI_OFFSET + GICR_IPRIORITYR + id) as u64,
        value: priority,
    }
}

/// The store that sets the enable bit of a private interrupt.
pub open spec fn private_enable_write(gicr_base: u64, id: u32) -> HwOp {
    HwOp::Write32 {
        addr: (gicr_base + GICR_SGI_OFFSET + GICR_ISENABLER0) as u64,
        value: bit32(id),
    }
}

/// The store that clears the enable bit of a private interrupt.
pub open spec fn private_disable_write(gicr_base: u64, id: u32) -> HwOp {
    HwOp::Write32 {
        addr: (gicr_base + GICR_SGI_OFFSET + GICR_ICENABLER0) as u64,
        value: bit32(id),
    }
}

/// What `enable` does for an interrupt id, seen from the core at
/// `core_pos`: a store to that core's redistributor for a private
/// interrupt, a store to the distributor for a shared one.
pub open spec fn enable_write(core_pos: u32, id: u32) -> Result<HwOp, GicError> {
    if id >= INTERRUPT_ID_LIMIT {
        Err(GicError::InvalidInterruptId)
    } else if id >= PPI_ID_LIMIT {
        Ok(spi_enable_write(id))
    } else if core_pos >= MAX_CORES {
        Err(GicError::InvalidTarget)
    } else {
        Ok(private_enable_write(gicr_base_of(core_pos) as u64, id))
    }
}

/// What `disable` does for an interrupt id, seen from the core at `core_pos`.
pub open spec fn disable_write(core_pos: u32, id: u32) -> Result<HwOp, GicError> {
    if id >= INTERRUPT_ID_LIMIT {
        Err(GicError::InvalidInterruptId)
    } else if id >= PPI_ID_LIMIT {
        Ok(spi_disable_write(id))
    } else if core_pos >= MAX_CORES {
        Err(GicError::InvalidTarget)
    } else {
        Ok(private_disable_write(gicr_base_of(core_pos) as u64, id))
    }
}

/// What `set_priority` does for an interrupt id, seen from the core at
/// `core_pos`.
pub open spec fn priority_write(core_pos: u32, id: u32, priority: u8) -> Result<HwOp, GicError> {
    if id >= INTERRUPT_ID_LIMIT {
        Err(GicError::InvalidInterruptId)
    } else if id >= PPI_ID_LIMIT {
        Ok(spi_priority_write(id, priority))
    } else if core_pos >= MAX_CORES {
        Err(GicError::InvalidTarget)
    } else {
        Ok(private_priority_write(gicr_base_of(core_pos) as u64, id, priority))
    }
}

/// A write of a system register followed by an instruction barrier.
pub open spec fn synced_write(reg: SysReg, value: u64) -> Seq<HwOp> {
    seq![HwOp::WriteSysReg { reg, value }, HwOp::Isb]
}

/// The operations that unmask every exception at the processor.
pub open spec fn unmask_ops() -> Seq<HwOp> {
    seq![HwOp::DaifClr { mask: DAIF_ALL }, HwOp::Isb]
}

/// The operations that mask every exception at the processor.
pub open spec fn mask_ops() -> Seq<HwOp> {
    seq![HwOp::DaifSet { mask: DAIF_ALL }, HwOp::Isb]
}

/// Why a software-generated interrupt to a core is refused, if it is.
pub open spec fn sgi_refusal(target_core_pos: u32, sgi_id: u8) -> Option<GicError> {
    if sgi_id >= SGI_ID_LIMIT {
        Some(GicError::InvalidSgiId)
    } else if target_core_pos >= MAX_CORES {
        Some(GicError::InvalidTarget)
    } else {
        None
    }
}

/// The value written to ICC_SGI1R_EL1 to signal one core: the interrupt id
/// from bit 24, the target's cluster (affinity level 1) from bit 16, and in
/// the low sixteen bits the one bit of the target's position in its cluster.
pub open spec fn sgi_to_core_value(target_core_pos: u32, sgi_id: u8) -> u64 {
    (sgi_id * 0x100_0000 + (target_core_pos / PLATFORM_MAX_CPUS_PER_CLUSTER) * 0x1_0000 + pow2(
        (target_core_pos % PLATFORM_MAX_CPUS_PER_CLUSTER) as nat,
    )) as u64
}

/// The value written to ICC_SGI1R_EL1 to signal every core: bit 31 and the
/// interrupt id.
pub open spec fn sgi_to_all_value(sgi_id: u8) -> u64 {
    (0x8000_0000 + sgi_id) as u64
}

/// The value written to ICC_SGI1R_EL1 to signal every core but the sender:
/// bits 31 and 29 and the interrupt id.
pub open spec fn sgi_to_others_value(sgi_id: u8) -> u64 {
    (0xA000_0000 + sgi_id) as u64
}

/// The operations that raise a software-generated interrupt: a barrier, so
/// that the cores signalled see what was written before; the write of
/// `value` to ICC_SGI1R_EL1; an instruction barrier.
pub open spec fn signal_ops(value: u64) -> Seq<HwOp> {
    seq![HwOp::Dsb, HwOp::WriteSysReg { reg: SysReg::IccSgi1rEl1, value }, HwOp::Isb]
}

/// The low 32 bits of a value handed back from a 32-bit register read.
pub open spec fn low32(input: u64) -> u32 {
    (input % 0x1_0000_0000) as u32
}

/// The ProcessorSleep bit of a GICR_WAKER value.
pub open spec fn processor_sleep(waker: u32) -> bool {
    (waker / 2) % 2 == 1
}

/// The ChildrenAsleep bit of a GICR_WAKER value.
pub open spec fn children_asleep(waker: u32) -> bool {
    (waker / 4) % 2 == 1
}

/// An ICC_SRE_EL1 value with the system register enable bit set.
pub open spec fn with_sre(sre: u64) -> u64 {
    if sre % 2 == 1 {
        sre
    } else {
        (sre + 1) as u64
    }
}

/// The store that asks a sleeping redistributor to wake: its GICR_WAKER
/// value with ProcessorSleep cleared, every other bit kept.
pub open spec fn wake_write(gicr_base: u64, waker: u32) -> HwOp {
    HwOp::Write32 { addr: (gicr_base + GICR_WAKER) as u64, value: (waker - 2) as u32 }
}

/// The operations that enable the system register interface.
pub open spec fn sre_enable_ops(sre: u64) -> Seq<HwOp> {
    seq![HwOp::WriteSysReg { reg: SysReg::IccSreEl1, value: with_sre(sre) }, HwOp::Isb, HwOp::Isb]
}

/// The stores that configure the private interrupts of the redistributor
/// at `gicr_base`: all thirty-two in Group 1, each with the default
/// priority, all enabled.
pub open spec fn sgi_ppi_init_ops(gicr_base: u64) -> Seq<HwOp> {
    seq![
        HwOp::Write32 {
            addr: (gicr_base + GICR_SGI_OFFSET + GICR_IGROUPR0) as u64,
            value: 0xFFFF_FFFF,
        },
    ] + Seq::new(
        32,
        |i: int| private_priority_write(gicr_base, i as u32, DEFAULT_PRIORITY),
    ) + seq![
        HwOp::Write32 {
            addr: (gicr_base + GICR_SGI_OFFSET + GICR_ISENABLER0) as u64,
            value: 0xFFFF_FFFF,
        },
    ]
}

/// The operations that make the CPU interface ready: the priority mask
/// admits every priority more urgent than `0xF0`, the binary point is zero,
/// and Group 1 interrupts are signalled.
pub open spec fn cpu_interface_init_ops() -> Seq<HwOp> {
    synced_write(SysReg::IccPmrEl1, DEFAULT_PRIORITY_MASK) + synced_write(SysReg::IccBpr1El1, 0)
        + synced_write(SysReg::IccIgrpen1El1, ICC_IGRPEN1_EL1_ENABLE)
}

/// Where the initialization of a core's interrupt delivery stands.
#[derive(Clone, Copy, Debug, PartialEq, Eq, Structural)]
pub enum GicInitPhase {
    /// Not under way: not started, completed, or given up.
    Idle,
    /// ICC_SRE_EL1 has been asked for.
    AwaitSre,
    /// MPIDR_EL1 has been asked for.
    AwaitMpidr,
    /// The first GICR_WAKER value has been asked for.
    AwaitWaker,
    /// The redistributor was told to wake and is polled; `polls_left` more
    /// polls may follow the one that is under way.
    AwaitAwake { polls_left: u32 },
}

/// What the initialization asks for after the operations of a step.
#[derive(Clone, Copy, Debug, PartialEq, Eq, Structural)]
pub enum InitNext {
    /// Make this read and hand its result to the next step.
    Read { read: HwRead },
    /// The core's interrupt delivery is initialized.
    Done,
    /// The initialization gave up for this reason.
    Failed { error: GicError },
}

/// One step of the initialization: operations to perform in order, then
/// what to do next.
pub struct InitStep {
    pub ops: Vec<HwOp>,
    pub next: InitNext,
}

/// The driver's state as a plain value.
pub struct GicState {
    pub initialized: bool,
    pub phase: GicInitPhase,
    pub gicr_base: u64,
}

/// The read of the GICR_WAKER register of the redistributor at `gicr_base`.
pub open spec fn waker_read(gicr_base: u64) -> InitNext {
    InitNext::Read { read: HwRead::Mmio32 { addr: (gicr_base + GICR_WAKER) as u64 } }
}

/// The states that the driver is ever in: interrupt delivery is
/// initialized only between initializations, while the redistributor is
/// addressed its frames lie within the address space, and no more polls
/// are left than the limit allows.
pub open spec fn state_wf(state: GicState) -> bool {
    &&& state.initialized ==> state.phase is Idle
    &&& state.phase is AwaitWaker || state.phase is AwaitAwake ==> gicr_base_fits(state.gicr_base)
    &&& state.phase matches GicInitPhase::AwaitAwake { polls_left } ==> polls_left
        <= WAKE_POLL_LIMIT
}

/// The state after the step of the initialization that gets `input`.
pub open spec fn init_next_state(pre: GicState, input: u64) -> GicState {
    match pre.phase {
        GicInitPhase::Idle => if pre.initialized {
            pre
        } else {
            GicState { phase: GicInitPhase::AwaitSre, ..pre }
        },
        GicInitPhase::AwaitSre => GicState { phase: GicInitPhase::AwaitMpidr, ..pre },
        GicInitPhase::AwaitMpidr => match redistributor_of(input) {
            Ok(gicr_base) => GicState { phase: GicInitPhase::AwaitWaker, gicr_base, ..pre },
            Err(_) => GicState { phase: GicInitPhase::Idle, ..pre },
        },
        GicInitPhase::AwaitWaker => if processor_sleep(low32(input)) || children_asleep(
            low32(input),
        ) {
            GicState { phase: GicInitPhase::AwaitAwake { polls_left: WAKE_POLL_LIMIT }, ..pre }
        } else {
            GicState { phase: GicInitPhase::Idle, initialized: true, ..pre }
        },
        GicInitPhase::AwaitAwake { polls_left } => if !children_asleep(low32(input)) {
            GicState { phase: GicInitPhase::Idle, initialized: true, ..pre }
        } else if polls_left == 0 {
            GicState { phase: GicInitPhase::Idle, ..pre }
        } else {
            GicState {
                phase: GicInitPhase::AwaitAwake { polls_left: (polls_left - 1) as u32 },
                ..pre
            }
        },
    }
}

/// The operations of the step of the initialization that gets `input`.
pub open spec fn init_step_ops(pre: GicState, input: u64) -> Seq<HwOp> {
    match pre.phase {
        GicInitPhase::Idle => Seq::empty(),
        GicInitPhase::AwaitSre => sre_enable_ops(input),
        GicInitPhase::AwaitMpidr => Seq::empty(),
        GicInitPhase::AwaitWaker => if processor_sleep(low32(input)) {
            seq![wake_write(pre.gicr_base, low32(input)), HwOp::Dsb]
        } else if children_asleep(low32(input)) {
            Seq::empty()
        } else {
            sgi_ppi_init_ops(pre.gicr_base) + cpu_interface_init_ops()
        },
        GicInitPhase::AwaitAwake { polls_left } => if !children_asleep(low32(input)) {
            sgi_ppi_init_ops(pre.gicr_base) + cpu_interface_init_ops()
        } else if polls_left == 0 {
            Seq::empty()
        } else {
            seq![HwOp::Spin { count: WAKE_POLL_PAUSE }]
        },
    }
}

/// What the step of the initialization that gets `input` asks for next.
pub open spec fn init_step_next(pre: GicState, input: u64) -> InitNext {
    match pre.phase {
        GicInitPhase::Idle => if pre.initialized {
            InitNext::Done
        } else {
            InitNext::Read { read: HwRead::SysReg { reg: SysReg::IccSreEl1 } }
        },
        GicInitPhase::AwaitSre => InitNext::Read { read: HwRead::SysReg { reg: SysReg::MpidrEl1 } },
        GicInitPhase::AwaitMpidr => match redistributor_of(input) {
            Ok(gicr_base) => waker_read(gicr_base),
            Err(error) => InitNext::Failed { error },
        },
        GicInitPhase::AwaitWaker => if processor_sleep(low32(input)) || children_asleep(
            low32(input),
        ) {
            waker_read(pre.gicr_base)
        } else {
            InitNext::Done
        },
        GicInitPhase::AwaitAwake { polls_left } => if !children_asleep(low32(input)) {
            InitNext::Done
        } else if polls_left == 0 {
            InitNext::Failed { error: GicError::Timeout }
        } else {
            waker_read(pre.gicr_base)
        },
    }
}

/// An upper bound on the steps that the initialization still takes.
pub open spec fn init_steps_left(state: GicState) -> nat {
    match state.phase {
        GicInitPhase::Idle => if state.initialized {
            1
        } else {
            (WAKE_POLL_LIMIT + 5) as nat
        },
        GicInitPhase::AwaitSre => (WAKE_POLL_LIMIT + 4) as nat,
        GicInitPhase::AwaitMpidr => (WAKE_POLL_LIMIT + 3) as nat,
        GicInitPhase::AwaitWaker => (WAKE_POLL_LIMIT + 2) as nat,
        GicInitPhase::AwaitAwake { polls_left } => (polls_left + 1) as nat,
    }
}

/// The operations of a run of the initialization from `state`, one step
/// for each of `inputs`.
pub open spec fn init_run_ops(state: GicState, inputs: Seq<u64>) -> Seq<HwOp>
    decreases inputs.len(),
{
    if inputs.len() == 0 {
        Seq::empty()
    } else {
        init_step_ops(state, inputs[0]) + init_run_ops(
            init_next_state(state, inputs[0]),
            inputs.drop_first(),
        )
    }
}

/// The state after a run of the initialization from `state`, one step for
/// each of `inputs`.
pub open spec fn init_run_state(state: GicState, inputs: Seq<u64>) -> GicState
    decreases inputs.len(),
{
    if inputs.len() == 0 {
        state
    } else {
        init_run_state(init_next_state(state, inputs[0]), inputs.drop_first())
    }
}

/// Whether `inputs` drive a run of the initialization from `state` to its
/// completion: every step but the last asks for a read, the last is done.
pub open spec fn init_run_completes(state: GicState, inputs: Seq<u64>) -> bool
    decreases inputs.len(),
{
    if inputs.len() == 0 {
        false
    } else if inputs.len() == 1 {
        init_step_next(state, inputs[0]) is Done
    } else {
        init_step_next(state, inputs[0]) is Read && init_run_completes(
            init_next_state(state, inputs[0]),
            inputs.drop_first(),
        )
    }
}

/// `count` pauses between polls of the redistributor.
pub open spec fn pause_ops(count: int) -> Seq<HwOp> {
    Seq::new(count as nat, |i: int| HwOp::Spin { count: WAKE_POLL_PAUSE })
}

/// The operations of the wake handshake in a complete run that read
/// `waker` first and took `polls` polls after it: the store that wakes the
/// redistributor and a barrier, if it was told to sleep; then a pause
/// before each poll but the first. None if the redistributor was awake.
pub open spec fn wake_ops(gicr_base: u64, waker: u32, polls: int) -> Seq<HwOp> {
    if processor_sleep(waker) {
        seq![wake_write(gicr_base, waker), HwOp::Dsb] + pause_ops(polls - 1)
    } else if children_asleep(waker) {
        pause_ops(polls - 1)
    } else {
        Seq::empty()
    }
}

/// State of the distributor.
#[derive(Clone, Copy, Debug, PartialEq, Eq, Structural)]
pub enum DistributorState {
    /// As after reset.
    Disabled,
    /// Every shared interrupt is level-sensitive, disabled, not pending,
    /// not active, of default priority and in Group 1.
    Configured,
    /// Configured, and forwarding interrupts with affinity routing.
    Enabled,
}

/// The number of blocks of thirty-two interrupt ids that the distributor
/// implements, by its GICD_TYPER value: one more than the value's low five
/// bits. Block 0 holds the private interrupts.
pub open spec fn interrupt_blocks(typer: u32) -> int {
    typer as int % 32 + 1
}

/// The store of `value` to the register at `offset` of the distributor.
pub open spec fn gicd_write(offset: int, value: u32) -> HwOp {
    HwOp::Write32 { addr: (GICD_BASE + offset) as u64, value }
}

/// The stores that configure block `block` of the distributor: its
/// thirty-two interrupts disabled, not pending, not active, in Group 1,
/// level-sensitive, each with the default priority.
pub open spec fn block_config_ops(block: int) -> Seq<HwOp> {
    seq![
        gicd_write(GICD_ICENABLER + 4 * block, 0xFFFF_FFFF),
        gicd_write(GICD_ICPENDR + 4 * block, 0xFFFF_FFFF),
        gicd_write(GICD_ICACTIVER + 4 * block, 0xFFFF_FFFF),
        gicd_write(GICD_IGROUPR + 4 * block, 0xFFFF_FFFF),
        gicd_write(GICD_ICFGR + 8 * block, 0),
        gicd_write(GICD_ICFGR + 8 * block + 4, 0),
        gicd_write(GICD_IPRIORITYR + 32 * block, 0x8080_8080),
        gicd_write(GICD_IPRIORITYR + 32 * block + 4, 0x8080_8080),
        gicd_write(GICD_IPRIORITYR + 32 * block + 8, 0x8080_8080),
        gicd_write(GICD_IPRIORITYR + 32 * block + 12, 0x8080_8080),
        gicd_write(GICD_IPRIORITYR + 32 * block + 16, 0x8080_8080),
        gicd_write(GICD_IPRIORITYR + 32 * block + 20, 0x8080_8080),
        gicd_write(GICD_IPRIORITYR + 32 * block + 24, 0x8080_8080),
        gicd_write(GICD_IPRIORITYR + 32 * block + 28, 0x8080_8080),
    ]
}

/// The stores that configure the blocks of shared interrupts from block 1
/// up to, not including, block `blocks`, in order.
pub open spec fn distributor_config_ops(blocks: int) -> Seq<HwOp>
    decreases blocks,
{
    if blocks <= 1 {
        Seq::empty()
    } else {
        distributor_config_ops(blocks - 1) + block_config_ops(blocks - 1)
    }
}

/// The operations that enable the distributor: Group 1 interrupts are
/// forwarded with affinity routing, and a barrier makes that visible
/// before anything that follows.
pub open spec fn distributor_enable_ops() -> Seq<HwOp> {
    seq![gicd_write(GICD_CTLR as int, GICD_CTLR_ARE_NS | GICD_CTLR_ENABLE_G1NS), HwOp::Dsb]
}

/// The state that the distributor is in once the core at `core_pos` has
/// done its part in bringing it up: enabled if the core is the primary
/// one, as it was otherwise.
pub open spec fn brought_up_state(state: DistributorState, core_pos: u32) -> DistributorState {
    if core_pos == PRIMARY_CORE {
        DistributorState::Enabled
    } else {
        state
    }
}

/// What the core at `core_pos` does to bring the distributor up from
/// `state`: the primary core configures it if that was not done and
/// enables it if that was not done; any other core does nothing.
pub open spec fn bring_up_ops(state: DistributorState, core_pos: u32, typer: u32) -> Seq<HwOp> {
    if core_pos != PRIMARY_CORE {
        Seq::empty()
    } else {
        match state {
            DistributorState::Disabled => distributor_config_ops(interrupt_blocks(typer))
                + distributor_enable_ops(),
            DistributorState::Configured => distributor_enable_ops(),
            DistributorState::Enabled => Seq::empty(),
        }
    }
}

/// Why the distributor must not be configured from `state` by the core at
/// `core_pos`, if it must not.
pub open spec fn configure_refusal(state: DistributorState, core_pos: u32) -> Option<GicError> {
    if core_pos != PRIMARY_CORE {
        Some(GicError::NotPrimaryCore)
    } else if state != DistributorState::Disabled {
        Some(GicError::InvalidState)
    } else {
        None
    }
}

/// Why the distributor must not be enabled from `state` by the core at
/// `core_pos`, if it must not.
pub open spec fn enable_refusal(state: DistributorState, core_pos: u32) -> Option<GicError> {
    if core_pos != PRIMARY_CORE {
        Some(GicError::NotPrimaryCore)
    } else if state != DistributorState::Configured {
        Some(GicError::InvalidState)
    } else {
        None
    }
}

proof fn lemma_affinity_fields(mpidr: u64)
    ensures
        mpidr & MPIDR_CPU_MASK == aff0(mpidr),
        (mpidr & MPIDR_CLUSTER_MASK) >> MPIDR_AFF1_SHIFT == aff1(mpidr),
        ((mpidr & MPIDR_CLUSTER_MASK) >> MPIDR_AFF1_SHIFT) << S32_MPIDR_CPU_MASK_BITS == aff1(mpidr)
            * 8,
        (mpidr & !(MPIDR_CLUSTER_MASK | MPIDR_CPU_MASK) != 0) <==> has_unexpected_bits(mpidr),
{
    assert({
        &&& mpidr & 0xff == mpidr % 0x100
        &&& (mpidr & 0xff00) >> 8u32 == (mpidr / 0x100) % 0x100
        &&& ((mpidr & 0xff00) >> 8u32) << 3u32 == ((mpidr / 0x100) % 0x100) * 8
        &&& ((mpidr & !(0xff00u64 | 0xffu64) != 0) <==> mpidr >= 0x1_0000)
    }) by (bit_vector);
}

/// How a core position splits into cluster and position in the cluster.
proof fn lemma_core_pos_split(core_pos: u32)
    ensures
        (1u32 << S32_MPIDR_CPU_MASK_BITS) == PLATFORM_MAX_CPUS_PER_CLUSTER,
        core_pos & 7 == core_pos % PLATFORM_MAX_CPUS_PER_CLUSTER,
        core_pos >> S32_MPIDR_CPU_MASK_BITS == core_pos / PLATFORM_MAX_CPUS_PER_CLUSTER,
{
    assert(1u32 << 3u32 == 8 && core_pos & 7 == core_pos % 8 && core_pos >> 3u32 == core_pos / 8)
        by (bit_vector);
}

proof fn lemma_bit32(n: u32)
    requires
        n < 32,
    ensures
        1u32 << n == bit32(n),
        0 < pow2(n as nat) <= 0x8000_0000,
{
    lemma2_to64();
    if n < 31 {
        lemma_pow2_strictly_increases(n as nat, 31);
    }
    vstd::arithmetic::power2::lemma_pow2_pos(n as nat);
    lemma_u32_shl_is_mul(1u32, n);
}

/// The fields of an SGI register value do not overlap.
proof fn lemma_sgi_fields(sgi: u64, cluster: u64, target_list: u64)
    requires
        sgi < 16,
        cluster < 4,
        target_list < 0x100,
    ensures
        (sgi << 24) | (cluster << 16) | target_list == sgi * 0x100_0000 + cluster * 0x1_0000
            + target_list,
        0x8000_0000u64 | sgi == 0x8000_0000 + sgi,
        0x8000_0000u64 | 0x2000_0000u64 | sgi == 0xA000_0000 + sgi,
{
    assert({
        &&& (sgi << 24) | (cluster << 16) | target_list == sgi * 0x100_0000 + cluster * 0x1_0000
            + target_list
        &&& 0x8000_0000u64 | sgi == 0x8000_0000 + sgi
        &&& 0x8000_0000u64 | 0x2000_0000u64 | sgi == 0xA000_0000 + sgi
    }) by (bit_vector)
        requires
            sgi < 16,
            cluster < 4,
            target_list < 0x100,
    ;
}

proof fn lemma_control_bits(waker: u32, sre: u64, input: u64)
    ensures
        waker & 0x1F == waker % 32,
        (waker & GICR_WAKER_PROCESSOR_SLEEP != 0) <==> processor_sleep(waker),
        (waker & GICR_WAKER_CHILDREN_ASLEEP == 0) <==> !children_asleep(waker),
        processor_sleep(waker) ==> waker & !GICR_WAKER_PROCESSOR_SLEEP == waker - 2,
        sre | ICC_SRE_EL1_SRE == with_sre(sre),
        input as u32 == low32(input),
{
    assert({
        &&& waker & 0x1F == waker % 32
        &&& ((waker & 2 != 0) <==> (waker / 2) % 2 == 1)
        &&& ((waker & 4 == 0) <==> (waker / 4) % 2 != 1)
        &&& ((waker / 2) % 2 == 1 ==> waker & !2u32 == waker - 2)
        &&& (sre % 2 == 1 ==> sre | 1 == sre)
        &&& (sre % 2 != 1 ==> sre | 1 == sre + 1)
        &&& input as u32 == input % 0x1_0000_0000
    }) by (bit_vector);
}

/// GICv3 driver of one core.
pub struct GicV3Driver {
    initialized: bool,
    phase: GicInitPhase,
    gicr_base: u64,
}

impl View for GicV3Driver {
    type V = GicState;

    closed spec fn view(&self) -> GicState {
        GicState { initialized: self.initialized, phase: self.phase, gicr_base: self.gicr_base }
    }
}

impl GicV3Driver {
    /// The driver's invariant.
    pub open spec fn wf(&self) -> bool {
        state_wf(self@)
    }

    /// The driver of a core whose interrupt delivery is not initialized.
    pub fn new() -> (driver: Self)
        ensures
            driver.wf(),
            driver@ == (GicState { initialized: false, phase: GicInitPhase::Idle, gicr_base: 0 }),
    {
        GicV3Driver { initialized: false, phase: GicInitPhase::Idle, gicr_base: 0 }
    }

    /// Whether this core's interrupt delivery is initialized.
    pub fn is_initialized(&self) -> (b: bool)
        ensures
            b == self@.initialized,
    {
        self.initialized
    }

    /// Enable the System Register interface for GICv3: given the value of
    /// ICC_SRE_EL1, the write that sets its enable bit, and two barriers.
    pub fn enable_system_registers(sre: u64) -> (ops: Vec<HwOp>)
        ensures
            ops@ == sre_enable_ops(sre),
    {
        proof {
            lemma_control_bits(0, sre, 0);
        }
        // Set SRE bit to enable system register interface
        let value: u64 = sre | ICC_SRE_EL1_SRE;
        vec![HwOp::WriteSysReg { reg: SysReg::IccSreEl1, value }, HwOp::Isb, HwOp::Isb]
    }

    /// Enable GICv3 Group 1 interrupts via ICC_IGRPEN1_EL1
    pub fn enable_group1_interrupts() -> (ops: Vec<HwOp>)
        ensures
            ops@ == synced_write(SysReg::IccIgrpen1El1, ICC_IGRPEN1_EL1_ENABLE),
    {
        vec![
            HwOp::WriteSysReg { reg: SysReg::IccIgrpen1El1, value: ICC_IGRPEN1_EL1_ENABLE },
            HwOp::Isb,
        ]
    }

    /// Set the priority mask register (PMR)
    pub fn set_priority_mask(priority: u64) -> (ops: Vec<HwOp>)
        ensures
            ops@ == synced_write(SysReg::IccPmrEl1, priority),
    {
        vec![HwOp::WriteSysReg { reg: SysReg::IccPmrEl1, value: priority }, HwOp::Isb]
    }

    /// Set the binary point register (BPR)
    pub fn set_binary_point(bpr: u64) -> (ops: Vec<HwOp>)
        ensures
            ops@ == synced_write(SysReg::IccBpr1El1, bpr),
    {
        vec![HwOp::WriteSysReg { reg: SysReg::IccBpr1El1, value: bpr }, HwOp::Isb]
    }

    /// Wake up the Redistributor at `gicr_base`, given its GICR_WAKER
    /// value: the store that clears ProcessorSleep if it is set, nothing if
    /// the redistributor is not asleep. After the store the redistributor
    /// is polled until [`Self::redistributor_awake`].
    pub fn wake_redistributor(gicr_base: u64, waker: u32) -> (op: Option<HwOp>)
        requires
            gicr_base_fits(gicr_base),
        ensures
            op == if processor_sleep(waker) {
                Some(wake_write(gicr_base, waker))
            } else {
                None
            },
    {
        proof {
            lemma_control_bits(waker, 0, 0);
        }
        // Clear ProcessorSleep bit to wake up the redistributor
        if (waker & GICR_WAKER_PROCESSOR_SLEEP) != 0 {
            let new_waker: u32 = waker & !GICR_WAKER_PROCESSOR_SLEEP;
            Some(HwOp::Write32 { addr: gicr_base + GICR_WAKER, value: new_waker })
        } else {
            None
        }
    }

    /// Whether a GICR_WAKER value shows the redistributor awake: its
    /// ChildrenAsleep bit is clear.
    pub fn redistributor_awake(status: u32) -> (awake: bool)
        ensures
            awake == !children_asleep(status),
    {
        proof {
            lemma_control_bits(status, 0, 0);
        }
        (status & GICR_WAKER_CHILDREN_ASLEEP) == 0
    }

    /// Initialize SGIs and PPIs of the redistributor at `gicr_base`.
    pub fn init_sgi_ppi(gicr_base: u64) -> (ops: Vec<HwOp>)
        requires
            gicr_base_fits(gicr_base),
        ensures
            ops@ == sgi_ppi_init_ops(gicr_base),
    {
        let sgi_base: u64 = gicr_base + GICR_SGI_OFFSET;
        let mut ops: Vec<HwOp> = Vec::new();
        // Set all SGIs and PPIs to Group 1
        ops.push(HwOp::Write32 { addr: sgi_base + GICR_IGROUPR0, value: 0xFFFFFFFF });
        // Set priority for SGIs and PPIs (lower value = higher priority)
        let mut i: u32 = 0;
        while i < 32
            invariant
                i <= 32,
                gicr_base_fits(gicr_base),
                sgi_base == gicr_base + GICR_SGI_OFFSET,
                ops@.len() == 1 + i,
                ops@[0] == sgi_ppi_init_ops(gicr_base)[0],
                forall|j: int|
                    1 <= j <= i ==> #[trigger] ops@[j] == private_priority_write(
                        gicr_base,
                        (j - 1) as u32,
                        DEFAULT_PRIORITY,
                    ),
            decreases 32 - i,
        {
            ops.push(
                HwOp::Write8 { addr: sgi_base + GICR_IPRIORITYR + i as u64, value: DEFAULT_PRIORITY },
            );
            i = i + 1;
        }
        // Enable all SGIs and select PPIs
        ops.push(HwOp::Write32 { addr: sgi_base + GICR_ISENABLER0, value: 0xFFFFFFFF });
        assert(ops@ =~= sgi_ppi_init_ops(gicr_base));
        ops
    }

    /// The operations that complete the initialization once the
    /// redistributor is awake.
    fn finish_ops(gicr_base: u64) -> (ops: Vec<HwOp>)
        requires
            gicr_base_fits(gicr_base),
        ensures
            ops@ == sgi_ppi_init_ops(gicr_base) + cpu_interface_init_ops(),
    {
        // Initialize SGIs and PPIs
        let mut ops = Self::init_sgi_ppi(gicr_base);
        // Set priority mask to allow all but the lowest priority interrupts
        let mut mask = Self::set_priority_mask(DEFAULT_PRIORITY_MASK);
        // Set binary point for group priority
        let mut point = Self::set_binary_point(0);
        // Enable Group 1 interrupts
        let mut group = Self::enable_group1_interrupts();
        ops.append(&mut mask);
        ops.append(&mut point);
        ops.append(&mut group);
        assert(ops@ =~= sgi_ppi_init_ops(gicr_base) + cpu_interface_init_ops());
        ops
    }

    /// Initialize GICv3 for a secondary core, one step at a time.
    ///
    /// The first call starts the initialization; its `input` is not read.
    /// Each step returns operations to perform in order, and then either a
    /// read, whose result is the `input` of the next call, or the end:
    /// `Done` once interrupt delivery is initialized (at once if it already
    /// was), `Failed` with `InvalidTarget` if MPIDR_EL1 names no core of
    /// the platform, with `Timeout` if the redistributor did not wake within
    /// `WAKE_POLL_LIMIT` polls after the first. In order: the system
    /// register interface is enabled; the redistributor of the core that
    /// MPIDR_EL1 names is told to wake, if it was told to sleep, and polled
    /// until it is awake; its private interrupts are configured; the CPU
    /// interface is made ready. A failed step writes nothing.
    pub fn init_secondary_core(&mut self, input: u64) -> (step: InitStep)
        requires
            old(self).wf(),
        ensures
            final(self).wf(),
            final(self)@ == init_next_state(old(self)@, input),
            step.ops@ == init_step_ops(old(self)@, input),
            step.next == init_step_next(old(self)@, input),
    {
        proof {
            lemma_control_bits(input as u32, 0, input);
        }
        match self.phase {
            GicInitPhase::Idle => {
                // Check if already initialized
                if self.initialized {
                    return InitStep { ops: Vec::new(), next: InitNext::Done };
                }
                self.phase = GicInitPhase::AwaitSre;
                InitStep {
                    ops: Vec::new(),
                    next: InitNext::Read { read: HwRead::SysReg { reg: SysReg::IccSreEl1 } },
                }
            },
            GicInitPhase::AwaitSre => {
                // First, enable the System Register interface
                self.phase = GicInitPhase::AwaitMpidr;
                InitStep {
                    ops: Self::enable_system_registers(input),
                    next: InitNext::Read { read: HwRead::SysReg { reg: SysReg::MpidrEl1 } },
                }
            },
            GicInitPhase::AwaitMpidr => {
                // Get the Redistributor base address for this core
                match Self::get_gicr_base_for_core(input) {
                    Ok(gicr_base) => {
                        self.gicr_base = gicr_base;
                        self.phase = GicInitPhase::AwaitWaker;
                        InitStep {
                            ops: Vec::new(),
                            next: InitNext::Read {
                                read: HwRead::Mmio32 { addr: gicr_base + GICR_WAKER },
                            },
                        }
                    },
                    Err(error) => {
                        self.phase = GicInitPhase::Idle;
                        InitStep { ops: Vec::new(), next: InitNext::Failed { error } }
                    },
                }
            },
            GicInitPhase::AwaitWaker => {
                // Wake up the Redistributor
                #[verifier::truncate]
                let waker: u32 = input as u32;
                match Self::wake_redistributor(self.gicr_base, waker) {
                    Some(op) => {
                        self.phase = GicInitPhase::AwaitAwake { polls_left: WAKE_POLL_LIMIT };
                        InitStep {
                            ops: vec![op, HwOp::Dsb],
                            next: InitNext::Read {
                                read: HwRead::Mmio32 { addr: self.gicr_base + GICR_WAKER },
                            },
                        }
                    },
                    None => {
                        if Self::redistributor_awake(waker) {
                            // Mark as initialized
                            self.phase = GicInitPhase::Idle;
                            self.initialized = true;
                            InitStep { ops: Self::finish_ops(self.gicr_base), next: InitNext::Done }
                        } else {
                            // Not told to sleep, but not awake yet
                            self.phase = GicInitPhase::AwaitAwake { polls_left: WAKE_POLL_LIMIT };
                            InitStep {
                                ops: Vec::new(),
                                next: InitNext::Read {
                                    read: HwRead::Mmio32 { addr: self.gicr_base + GICR_WAKER },
                                },
                            }
                        }
                    },
                }
            },
            GicInitPhase::AwaitAwake { polls_left } => {
                #[verifier::truncate]
                let status: u32 = input as u32;
                if Self::redistributor_awake(status) {
                    // Mark as initialized
                    self.phase = GicInitPhase::Idle;
                    self.initialized = true;
                    InitStep { ops: Self::finish_ops(self.gicr_base), next: InitNext::Done }
                } else if polls_left == 0 {
                    self.phase = GicInitPhase::Idle;
                    InitStep {
                        ops: Vec::new(),
                        next: InitNext::Failed { error: GicError::Timeout },
                    }
                } else {
                    self.phase = GicInitPhase::AwaitAwake { polls_left: polls_left - 1 };
                    InitStep {
                        ops: vec![HwOp::Spin { count: WAKE_POLL_PAUSE }],
                        next: InitNext::Read {
                            read: HwRead::Mmio32 { addr: self.gicr_base + GICR_WAKER },
                        },
                    }
                }
            },
        }
    }

    /// Get the CPU's affinity value at the specified level
    pub fn mpidr_afflvl_val(mpidr: u64, level: u32) -> (val: u32)
        requires
            level < 8,
        ensures
            val == affinity_level(mpidr, level),
            level == 0 ==> val == aff0(mpidr),
            level == 1 ==> val == aff1(mpidr),
    {
        let shift: u32 = level * MPIDR_AFFINITY_BITS;
        let shifted: u64 = mpidr >> shift;
        proof {
            lemma_u64_shr_is_div(mpidr, shift as u64);
            lemma2_to64();
            assert(shifted & 0xff == shifted % 0x100) by (bit_vector);
            if level == 0 {
                assert(pow2(shift as nat) == 1);
                assert(mpidr as nat / 1 == mpidr);
            }
            if level == 1 {
                assert(pow2(shift as nat) == 0x100);
            }
        }
        (shifted & MPIDR_AFFLVL_MASK) as u32
    }

    /// Convert MPIDR to core position: the position in the cluster plus
    /// eight times the cluster, whatever the two fields hold.
    pub fn s32_core_pos_by_mpidr(mpidr: u64) -> (pos: u32)
        ensures
            pos == aff0(mpidr) + aff1(mpidr) * PLATFORM_MAX_CPUS_PER_CLUSTER,
    {
        let cpu_id: u64 = mpidr & MPIDR_CPU_MASK;
        let cluster_id: u64 = (mpidr & MPIDR_CLUSTER_MASK) >> MPIDR_AFF1_SHIFT;
        proof {
            lemma_affinity_fields(mpidr);
        }
        (cpu_id + (cluster_id << S32_MPIDR_CPU_MASK_BITS)) as u32
    }

    /// Get platform core position by MPIDR with validation.
    ///
    /// The value is refused if any bit outside its cluster and position
    /// fields is set, or if the cluster or the position in the cluster is
    /// beyond the platform.
    pub fn plat_core_pos_by_mpidr(mpidr: u64) -> (r: Result<u32, InvalidAffinity>)
        ensures
            r == resolve(mpidr),
    {
        proof {
            lemma_affinity_fields(mpidr);
        }
        // Check if any unexpected bits are set in the MPIDR value
        if mpidr & !(MPIDR_CLUSTER_MASK | MPIDR_CPU_MASK) != 0 {
            return Err(InvalidAffinity::UnexpectedBits);
        }
        // Extract the cluster ID (Affinity Level 1) and CPU ID (Affinity Level 0)
        let cluster_id = Self::mpidr_afflvl_val(mpidr, 1);
        let cpu_id = Self::mpidr_afflvl_val(mpidr, 0);
        // Validate that the cluster ID and CPU ID are within platform limits
        if cluster_id >= PLATFORM_CLUSTER_COUNT || cpu_id >= PLATFORM_MAX_CPUS_PER_CLUSTER {
            return Err(InvalidAffinity::OutOfRange);
        }
        // If all checks pass, calculate the core position
        Ok(Self::s32_core_pos_by_mpidr(mpidr))
    }

    /// Get the current CPU's core position, given its MPIDR_EL1 value.
    pub fn plat_my_core_pos(mpidr: u64) -> (r: Result<u32, InvalidAffinity>)
        ensures
            r == resolve(mpidr),
    {
        Self::plat_core_pos_by_mpidr(mpidr)
    }

    /// The read of the current CPU's MPIDR_EL1 value.
    pub fn get_mpidr() -> (read: HwRead)
        ensures
            read == (HwRead::SysReg { reg: SysReg::MpidrEl1 }),
    {
        HwRead::SysReg { reg: SysReg::MpidrEl1 }
    }

    /// Whether the CPU interface presents an interrupt of `priority` to the
    /// core under the priority mask `mask`: lower values are more urgent,
    /// and only priorities more urgent than the mask pass.
    pub fn priority_admitted(mask: u8, priority: u8) -> (admitted: bool)
        ensures
            admitted == (priority < mask),
    {
        priority < mask
    }

    /// The affinity identifier of a core position: the inverse of
    /// [`Self::plat_core_pos_by_mpidr`] on the core positions of the platform.
    pub fn mpidr_by_core_pos(core_pos: u32) -> (mpidr: u64)
        ensures
            mpidr == affinity_of(core_pos),
    {
        proof {
            lemma_core_pos_split(core_pos);
        }
        let cpu_id: u32 = core_pos & ((1 << S32_MPIDR_CPU_MASK_BITS) - 1);
        let cluster_id: u32 = core_pos >> S32_MPIDR_CPU_MASK_BITS;
        proof {
            let c = cluster_id as u64;
            let p = cpu_id as u64;
            assert((c << 8) | p == c * 0x100 + p) by (bit_vector)
                requires
                    c <= 0x1fff_ffff,
                    p < 8,
            ;
        }
        ((cluster_id as u64) << MPIDR_AFF1_SHIFT) | (cpu_id as u64)
    }

    /// Calculate the Redistributor base address for the core with this
    /// MPIDR. Refused with `InvalidTarget` for an MPIDR that resolves to no
    /// core.
    pub fn get_gicr_base_for_core(mpidr: u64) -> (r: Result<u64, GicError>)
        ensures
            r == redistributor_of(mpidr),
            r matches Ok(base) ==> gicr_base_fits(base),
    {
        match Self::plat_core_pos_by_mpidr(mpidr) {
            Ok(core_pos) => Ok(GICR_BASE + (core_pos as u64 * GICR_STRIDE)),
            Err(_) => Err(GicError::InvalidTarget),
        }
    }

    /// Enable interrupts for the core: unmask every exception at the
    /// processor. Nothing is unmasked before the core's interrupt delivery
    /// is initialized.
    pub fn enable_interrupts(&self) -> (ops: Option<Vec<HwOp>>)
        ensures
            match ops {
                Some(ops) => self@.initialized && ops@ == unmask_ops(),
                None => !self@.initialized,
            },
    {
        if self.initialized {
            // Clear DAIF bits to enable all interrupts
            Some(vec![HwOp::DaifClr { mask: DAIF_ALL }, HwOp::Isb])
        } else {
            None
        }
    }

    /// Disable interrupts: mask every exception at the processor.
    pub fn disable_interrupts() -> (ops: Vec<HwOp>)
        ensures
            ops@ == mask_ops(),
    {
        // Set DAIF bits to disable all interrupts
        vec![HwOp::DaifSet { mask: DAIF_ALL }, HwOp::Isb]
    }

    /// Acknowledge an interrupt: the interrupt id held in the value read
    /// from ICC_IAR1_EL1, which is its low 24 bits.
    pub fn acknowledge_interrupt(iar: u64) -> (id: u32)
        ensures
            id == iar % 0x100_0000,
    {
        assert((iar as u32) & 0xFFFFFFu32 == iar % 0x100_0000) by (bit_vector);
        #[verifier::truncate]
        (iar as u32) & 0xFFFFFF
    }

    /// End an interrupt: the write of its id to ICC_EOIR1_EL1.
    pub fn end_interrupt(interrupt_id: u32) -> (ops: Vec<HwOp>)
        ensures
            ops@ == synced_write(SysReg::IccEoir1El1, interrupt_id as u64),
    {
        vec![HwOp::WriteSysReg { reg: SysReg::IccEoir1El1, value: interrupt_id as u64 }, HwOp::Isb]
    }

    /// Set priority for an SGI interrupt. Refused with `InvalidSgiId` for
    /// an id that is not that of an SGI.
    pub fn set_sgi_priority(gicr_base: u64, sgi_id: u8, priority: u8) -> (r: Result<
        HwOp,
        GicError,
    >)
        requires
            gicr_base_fits(gicr_base),
        ensures
            r == if sgi_id < SGI_ID_LIMIT {
                Ok::<HwOp, GicError>(private_priority_write(gicr_base, sgi_id as u32, priority))
            } else {
                Err(GicError::InvalidSgiId)
            },
    {
        if sgi_id > 15 {
            return Err(GicError::InvalidSgiId);
        }
        let sgi_base: u64 = gicr_base + GICR_SGI_OFFSET;
        let byte_offset: u64 = sgi_id as u64;
        let reg_addr: u64 = sgi_base + GICR_IPRIORITYR + byte_offset;
        // Each SGI has a byte-sized priority field
        Ok(HwOp::Write8 { addr: reg_addr, value: priority })
    }

    /// Generate a software interrupt to a core using affinity routing.
    ///
    /// Refused with `InvalidSgiId` for an id above 15, else with
    /// `InvalidTarget` for a core position beyond the platform; a refusal
    /// writes nothing.
    pub fn send_sgi_to_core(target_core_pos: u32, sgi_id: u8) -> (r: Result<Vec<HwOp>, GicError>)
        ensures
            match r {
                Ok(ops) => sgi_refusal(target_core_pos, sgi_id) is None && ops@ == signal_ops(sgi_to_core_value(target_core_pos, sgi_id)),
                Err(e) => sgi_refusal(target_core_pos, sgi_id) == Some(e),
            },
    {
        if sgi_id > 15 {
            return Err(GicError::InvalidSgiId);
        }
        if target_core_pos >= MAX_CORES {
            return Err(GicError::InvalidTarget);
        }
        proof {
            lemma_core_pos_split(target_core_pos);
        }
        let cpu_id: u32 = target_core_pos & ((1 << S32_MPIDR_CPU_MASK_BITS) - 1);
        let cluster_id: u32 = target_core_pos >> S32_MPIDR_CPU_MASK_BITS;
        let sgi: u64 = sgi_id as u64;
        let cluster: u64 = cluster_id as u64;
        proof {
            lemma2_to64();
            lemma_pow2_strictly_increases(cpu_id as nat, 8);
            lemma_u64_shl_is_mul(1u64, cpu_id as u64);
        }
        let target_list: u64 = 1u64 << cpu_id;
        proof {
            lemma_sgi_fields(sgi, cluster, target_list);
        }
        // [27:24] - INTID (SGI ID)
        // [23:16] - Aff1 (Cluster)
        // [15:0]  - Target List (1 << CPU)
        let sgi_value: u64 = (sgi << 24) | (cluster << 16) | target_list;
        Ok(vec![HwOp::Dsb, HwOp::WriteSysReg { reg: SysReg::IccSgi1rEl1, value: sgi_value }, HwOp::Isb])
    }

    /// Send SGI to all cores in the system. Refused with `InvalidSgiId` for
    /// an id above 15; a refusal writes nothing.
    pub fn send_sgi_to_all(sgi_id: u8) -> (r: Result<Vec<HwOp>, GicError>)
        ensures
            match r {
                Ok(ops) => sgi_id < SGI_ID_LIMIT && ops@ == signal_ops(sgi_to_all_value(sgi_id)),
                Err(e) => sgi_id >= SGI_ID_LIMIT && e == GicError::InvalidSgiId,
            },
    {
        if sgi_id > 15 {
            // SGIs are IDs 0-15
            return Err(GicError::InvalidSgiId);
        }
        let sgi: u64 = sgi_id as u64;
        proof {
            lemma_sgi_fields(sgi, 0, 0);
        }
        let sgi_value: u64 = 0x8000_0000u64 | sgi;
        Ok(vec![HwOp::Dsb, HwOp::WriteSysReg { reg: SysReg::IccSgi1rEl1, value: sgi_value }, HwOp::Isb])
    }

    /// Send SGI to all cores except the current one. Refused with
    /// `InvalidSgiId` for an id above 15; a refusal writes nothing.
    pub fn send_sgi_to_others(sgi_id: u8) -> (r: Result<Vec<HwOp>, GicError>)
        ensures
            match r {
                Ok(ops) => sgi_id < SGI_ID_LIMIT && ops@ == signal_ops(sgi_to_others_value(sgi_id)),
                Err(e) => sgi_id >= SGI_ID_LIMIT && e == GicError::InvalidSgiId,
            },
    {
        if sgi_id > 15 {
            // SGIs are IDs 0-15
            return Err(GicError::InvalidSgiId);
        }
        let sgi: u64 = sgi_id as u64;
        proof {
            lemma_sgi_fields(sgi, 0, 0);
        }
        let sgi_value: u64 = 0x8000_0000u64 | 0x2000_0000u64 | sgi;
        Ok(vec![HwOp::Dsb, HwOp::WriteSysReg { reg: SysReg::IccSgi1rEl1, value: sgi_value }, HwOp::Isb])
    }

    /// Enable a specific SPI interrupt
    pub fn enable_spi(interrupt_id: u32) -> (r: Result<HwOp, GicError>)
        ensures
            r == if is_spi(interrupt_id) {
                Ok::<HwOp, GicError>(spi_enable_write(interrupt_id))
            } else {
                Err(GicError::InvalidSpiId)
            },
    {
        if interrupt_id < 32 || interrupt_id >= 1020 {
            return Err(GicError::InvalidSpiId);
        }
        let reg_offset: u64 = ((interrupt_id / 32) * 4) as u64;
        let bit_offset: u32 = interrupt_id % 32;
        let reg_addr: u64 = GICD_BASE + GICD_ISENABLER + reg_offset;
        proof {
            lemma_bit32(bit_offset);
        }
        let value: u32 = 1u32 << bit_offset;
        Ok(HwOp::Write32 { addr: reg_addr, value })
    }

    /// Disable a specific SPI interrupt
    pub fn disable_spi(interrupt_id: u32) -> (r: Result<HwOp, GicError>)
        ensures
            r == if is_spi(interrupt_id) {
                Ok::<HwOp, GicError>(spi_disable_write(interrupt_id))
            } else {
                Err(GicError::InvalidSpiId)
            },
    {
        if interrupt_id < 32 || interrupt_id >= 1020 {
            return Err(GicError::InvalidSpiId);
        }
        let reg_offset: u64 = ((interrupt_id / 32) * 4) as u64;
        let bit_offset: u32 = interrupt_id % 32;
        let reg_addr: u64 = GICD_BASE + GICD_ICENABLER + reg_offset;
        proof {
            lemma_bit32(bit_offset);
        }
        let value: u32 = 1u32 << bit_offset;
        Ok(HwOp::Write32 { addr: reg_addr, value })
    }

    /// Set priority for an SPI interrupt
    pub fn set_spi_priority(interrupt_id: u32, priority: u8) -> (r: Result<HwOp, GicError>)
        ensures
            r == if is_spi(interrupt_id) {
                Ok::<HwOp, GicError>(spi_priority_write(interrupt_id, priority))
            } else {
                Err(GicError::InvalidSpiId)
            },
    {
        if interrupt_id < 32 || interrupt_id >= 1020 {
            return Err(GicError::InvalidSpiId);
        }
        let byte_offset: u64 = interrupt_id as u64;
        let reg_addr: u64 = GICD_BASE + GICD_IPRIORITYR + byte_offset;
        Ok(HwOp::Write8 { addr: reg_addr, value: priority })
    }

    /// Set the target for an SPI interrupt using affinity routing
    pub fn set_spi_target(interrupt_id: u32, target_aff: u64) -> (r: Result<HwOp, GicError>)
        ensures
            r == if is_spi(interrupt_id) {
                Ok::<HwOp, GicError>(spi_target_write(interrupt_id, target_aff))
            } else {
                Err(GicError::InvalidSpiId)
            },
    {
        if interrupt_id < 32 || interrupt_id >= 1020 {
            return Err(GicError::InvalidSpiId);
        }
        let reg_addr: u64 = GICD_BASE + GICD_IROUTER + (interrupt_id as u64) * 8;
        Ok(HwOp::Write64 { addr: reg_addr, value: target_aff })
    }

    /// Enable an interrupt of any kind, from the core at `core_pos`.
    ///
    /// An id of 1020 or more is refused. A shared peripheral interrupt is
    /// enabled in the distributor; a private one (id below 32) in the
    /// redistributor of `core_pos`, which must be a core of the platform.
    pub fn enable_interrupt(core_pos: u32, interrupt_id: u32) -> (r: Result<HwOp, GicError>)
        ensures
            r == enable_write(core_pos, interrupt_id),
    {
        if interrupt_id >= INTERRUPT_ID_LIMIT {
            return Err(GicError::InvalidInterruptId);
        }
        if interrupt_id >= PPI_ID_LIMIT {
            return Self::enable_spi(interrupt_id);
        }
        if core_pos >= MAX_CORES {
            return Err(GicError::InvalidTarget);
        }
        let sgi_base: u64 = GICR_BASE + (core_pos as u64 * GICR_STRIDE) + GICR_SGI_OFFSET;
        proof {
            lemma_bit32(interrupt_id);
        }
        Ok(HwOp::Write32 { addr: sgi_base + GICR_ISENABLER0, value: 1u32 << interrupt_id })
    }

    /// Disable an interrupt of any kind, from the core at `core_pos`.
    ///
    /// An id of 1020 or more is refused. A shared peripheral interrupt is
    /// disabled in the distributor; a private one (id below 32) in the
    /// redistributor of `core_pos`, which must be a core of the platform.
    pub fn disable_interrupt(core_pos: u32, interrupt_id: u32) -> (r: Result<HwOp, GicError>)
        ensures
            r == disable_write(core_pos, interrupt_id),
    {
        if interrupt_id >= INTERRUPT_ID_LIMIT {
            return Err(GicError::InvalidInterruptId);
        }
        if interrupt_id >= PPI_ID_LIMIT {
            return Self::disable_spi(interrupt_id);
        }
        if core_pos >= MAX_CORES {
            return Err(GicError::InvalidTarget);
        }
        let sgi_base: u64 = GICR_BASE + (core_pos as u64 * GICR_STRIDE) + GICR_SGI_OFFSET;
        proof {
            lemma_bit32(interrupt_id);
        }
        Ok(HwOp::Write32 { addr: sgi_base + GICR_ICENABLER0, value: 1u32 << interrupt_id })
    }

    /// Set the priority of an interrupt of any kind, from the core at
    /// `core_pos`: one byte per interrupt, lower values more urgent.
    pub fn set_priority(core_pos: u32, interrupt_id: u32, priority: u8) -> (r: Result<
        HwOp,
        GicError,
    >)
        ensures
            r == priority_write(core_pos, interrupt_id, priority),
    {
        if interrupt_id >= INTERRUPT_ID_LIMIT {
            return Err(GicError::InvalidInterruptId);
        }
        if interrupt_id >= PPI_ID_LIMIT {
            return Self::set_spi_priority(interrupt_id, priority);
        }
        if core_pos >= MAX_CORES {
            return Err(GicError::InvalidTarget);
        }
        let sgi_base: u64 = GICR_BASE + (core_pos as u64 * GICR_STRIDE) + GICR_SGI_OFFSET;
        Ok(HwOp::Write8 { addr: sgi_base + GICR_IPRIORITYR + interrupt_id as u64, value: priority })
    }
}

/// The distributor: the interrupt configuration that all cores share.
pub struct Distributor {
    state: DistributorState,
}

impl View for Distributor {
    type V = DistributorState;

    closed spec fn view(&self) -> DistributorState {
        self.state
    }
}

impl Distributor {
    /// The distributor as after reset.
    pub fn new() -> (distributor: Self)
        ensures
            distributor@ == DistributorState::Disabled,
    {
        Distributor { state: DistributorState::Disabled }
    }

    /// The distributor's state.
    pub fn state(&self) -> (state: DistributorState)
        ensures
            state == self@,
    {
        self.state
    }

    /// The stores that configure block `block` of the distributor.
    fn configure_block(block: u64) -> (ops: Vec<HwOp>)
        requires
            1 <= block < 32,
        ensures
            ops@ == block_config_ops(block as int),
    {
        let mut ops: Vec<HwOp> = vec![
            HwOp::Write32 { addr: GICD_BASE + GICD_ICENABLER + 4 * block, value: 0xFFFF_FFFF },
            HwOp::Write32 { addr: GICD_BASE + GICD_ICPENDR + 4 * block, value: 0xFFFF_FFFF },
            HwOp::Write32 { addr: GICD_BASE + GICD_ICACTIVER + 4 * block, value: 0xFFFF_FFFF },
            HwOp::Write32 { addr: GICD_BASE + GICD_IGROUPR + 4 * block, value: 0xFFFF_FFFF },
            HwOp::Write32 { addr: GICD_BASE + GICD_ICFGR + 8 * block, value: 0 },
            HwOp::Write32 { addr: GICD_BASE + GICD_ICFGR + 8 * block + 4, value: 0 },
        ];
        let mut word: u64 = 0;
        while word < 8
            invariant
                word <= 8,
                1 <= block < 32,
                ops@.len() == 6 + word,
                forall|j: int| 0 <= j < 6 + word ==> #[trigger] ops@[j] == block_config_ops(block as int)[j],
            decreases 8 - word,
        {
            ops.push(
                HwOp::Write32 {
                    addr: GICD_BASE + GICD_IPRIORITYR + 32 * block + 4 * word,
                    value: 0x8080_8080,
                },
            );
            word = word + 1;
        }
        assert(ops@ =~= block_config_ops(block as int));
        ops
    }

    /// Configure the distributor, given its GICD_TYPER value: every shared
    /// interrupt that it implements becomes level-sensitive, disabled, not
    /// pending, not active, of default priority and in Group 1.
    ///
    /// Refused with `NotPrimaryCore` unless `core_pos` is the primary core,
    /// else with `InvalidState` unless the distributor is disabled: it is
    /// configured once. A refusal writes nothing and changes nothing.
    pub fn configure(&mut self, core_pos: u32, typer: u32) -> (r: Result<Vec<HwOp>, GicError>)
        ensures
            match r {
                Ok(ops) => configure_refusal(old(self)@, core_pos) is None && final(self)@
                    == DistributorState::Configured && ops@ == distributor_config_ops(
                    interrupt_blocks(typer),
                ),
                Err(e) => configure_refusal(old(self)@, core_pos) == Some(e) && final(self)@ == old(
                    self,
                )@,
            },
    {
        if core_pos != PRIMARY_CORE {
            return Err(GicError::NotPrimaryCore);
        }
        match self.state {
            DistributorState::Disabled => {},
            _ => {
                return Err(GicError::InvalidState);
            },
        }
        proof {
            lemma_control_bits(typer, 0, 0);
        }
        let blocks: u64 = (typer & 0x1F) as u64 + 1;
        let mut ops: Vec<HwOp> = Vec::new();
        let mut block: u64 = 1;
        while block < blocks
            invariant
                1 <= block <= blocks <= 32,
                ops@ == distributor_config_ops(block as int),
            decreases blocks - block,
        {
            let mut part = Self::configure_block(block);
            ops.append(&mut part);
            block = block + 1;
        }
        self.state = DistributorState::Configured;
        Ok(ops)
    }

    /// The part of the core at `core_pos` in bringing the distributor up,
    /// before the core initializes its own interrupt delivery: the primary
    /// core configures and enables the distributor, as far as that was not
    /// done; any other core has no part in it.
    pub fn bring_up(&mut self, core_pos: u32, typer: u32) -> (ops: Vec<HwOp>)
        ensures
            final(self)@ == brought_up_state(old(self)@, core_pos),
            ops@ == bring_up_ops(old(self)@, core_pos, typer),
    {
        let mut ops: Vec<HwOp> = Vec::new();
        match self.configure(core_pos, typer) {
            Ok(mut config) => {
                ops.append(&mut config);
            },
            Err(_) => {},
        }
        match self.enable(core_pos) {
            Ok(mut enable) => {
                ops.append(&mut enable);
            },
            Err(_) => {},
        }
        ops
    }

    /// Enable the distributor once it is configured.
    ///
    /// Refused with `NotPrimaryCore` unless `core_pos` is the primary core,
    /// else with `InvalidState` unless the distributor is configured and
    /// not yet enabled. A refusal writes nothing and changes nothing.
    pub fn enable(&mut self, core_pos: u32) -> (r: Result<Vec<HwOp>, GicError>)
        ensures
            match r {
                Ok(ops) => enable_refusal(old(self)@, core_pos) is None && final(self)@
                    == DistributorState::Enabled && ops@ == distributor_enable_ops(),
                Err(e) => enable_refusal(old(self)@, core_pos) == Some(e) && final(self)@ == old(
                    self,
                )@,
            },
    {
        if core_pos != PRIMARY_CORE {
            return Err(GicError::NotPrimaryCore);
        }
        match self.state {
            DistributorState::Configured => {},
            _ => {
                return Err(GicError::InvalidState);
            },
        }
        self.state = DistributorState::Enabled;
        Ok(
            vec![
                HwOp::Write32 {
                    addr: GICD_BASE + GICD_CTLR,
                    value: GICD_CTLR_ARE_NS | GICD_CTLR_ENABLE_G1NS,
                },
                HwOp::Dsb,
            ],
        )
    }
}

/// Every core position of the platform resolves back to itself from its
/// affinity identifier, and that identifier names a cluster and a position
/// within the platform and has no other bit set.
pub proof fn lemma_affinity_round_trip(core_pos: u32)
    requires
        core_pos < MAX_CORES,
    ensures
        resolve(affinity_of(core_pos)) == Ok::<u32, InvalidAffinity>(core_pos),
        aff1(affinity_of(core_pos)) < PLATFORM_CLUSTER_COUNT,
        aff0(affinity_of(core_pos)) < PLATFORM_MAX_CPUS_PER_CLUSTER,
        affinity_of(core_pos) == aff1(affinity_of(core_pos)) * 0x100 + aff0(affinity_of(core_pos)),
{
}

/// An identifier that resolves names a core position of the platform, and
/// is that position's own identifier: resolving loses nothing.
pub proof fn lemma_resolved_in_bounds(mpidr: u64)
    requires
        resolve(mpidr) is Ok,
    ensures
        resolve(mpidr).unwrap() < MAX_CORES,
        affinity_of(resolve(mpidr).unwrap()) == mpidr,
{
}

/// An identifier with any bit set outside its cluster and position fields,
/// or whose cluster or position in the cluster is beyond the platform,
/// resolves to no core.
pub proof fn lemma_affinity_rejection(mpidr: u64)
    requires
        mpidr & !(MPIDR_CLUSTER_MASK | MPIDR_CPU_MASK) != 0 || aff1(mpidr)
            >= PLATFORM_CLUSTER_COUNT || aff0(mpidr) >= PLATFORM_MAX_CPUS_PER_CLUSTER,
    ensures
        resolve(mpidr) is Err,
        mpidr & !(MPIDR_CLUSTER_MASK | MPIDR_CPU_MASK) != 0 ==> resolve(mpidr) == Err::<
            u32,
            InvalidAffinity,
        >(InvalidAffinity::UnexpectedBits),
{
    lemma_affinity_fields(mpidr);
}

/// Interrupt ids partition: from a core of the platform, enabling,
/// disabling and setting the priority succeed for exactly the ids below
/// 1020; for an id below 32 (software-generated or private peripheral) the
/// store goes to that core's redistributor, for any other to the
/// distributor.
pub proof fn lemma_interrupt_id_partition(core_pos: u32, id: u32, priority: u8)
    requires
        core_pos < MAX_CORES,
    ensures
        id < INTERRUPT_ID_LIMIT <==> is_sgi(id) || is_ppi(id) || is_spi(id),
        enable_write(core_pos, id) is Ok <==> id < INTERRUPT_ID_LIMIT,
        disable_write(core_pos, id) is Ok <==> id < INTERRUPT_ID_LIMIT,
        priority_write(core_pos, id, priority) is Ok <==> id < INTERRUPT_ID_LIMIT,
        is_sgi(id) || is_ppi(id) ==> targets_redistributor(enable_write(core_pos, id).unwrap(), core_pos)
            && targets_redistributor(disable_write(core_pos, id).unwrap(), core_pos)
            && targets_redistributor(priority_write(core_pos, id, priority).unwrap(), core_pos),
        is_spi(id) ==> targets_distributor(enable_write(core_pos, id).unwrap())
            && targets_distributor(disable_write(core_pos, id).unwrap()) && targets_distributor(
            priority_write(core_pos, id, priority).unwrap(),
        ),
{
}

/// The distributor and the redistributors of the platform's cores do not
/// overlap, nor do the redistributors of two cores.
pub proof fn lemma_frames_disjoint(op: HwOp, core_a: u32, core_b: u32)
    requires
        core_a < MAX_CORES,
        core_b < MAX_CORES,
    ensures
        !(targets_distributor(op) && targets_redistributor(op, core_a)),
        core_a != core_b ==> !(targets_redistributor(op, core_a) && targets_redistributor(
            op,
            core_b,
        )),
{
}

/// The priority mask set at initialization admits the default priority of
/// every interrupt, and every priority but those from the mask on, the
/// least urgent ones.
pub proof fn lemma_default_priority_admitted(priority: u8)
    ensures
        DEFAULT_PRIORITY < DEFAULT_PRIORITY_MASK,
        priority < DEFAULT_PRIORITY_MASK <==> priority <= 0xEF,
{
}

/// The initialization ends: a step that asks for a read leaves fewer steps
/// to take than there were, so no run is longer than `WAKE_POLL_LIMIT + 5`
/// steps, whatever the reads return.
pub proof fn lemma_init_progress(pre: GicState, input: u64)
    requires
        state_wf(pre),
        init_step_next(pre, input) is Read,
    ensures
        state_wf(init_next_state(pre, input)),
        init_steps_left(init_next_state(pre, input)) < init_steps_left(pre),
        init_steps_left(pre) <= WAKE_POLL_LIMIT + 5,
{
}

/// Interrupt delivery becomes initialized only by a step that saw the
/// redistributor awake, and that step configures the private interrupts
/// and readies the CPU interface; a step that ends in `Done` leaves it
/// initialized, a failed one does not.
pub proof fn lemma_init_order(pre: GicState, input: u64)
    requires
        !pre.initialized,
    ensures
        init_next_state(pre, input).initialized <==> init_step_next(pre, input) is Done,
        init_next_state(pre, input).initialized ==> {
            &&& pre.phase is AwaitWaker || pre.phase is AwaitAwake
            &&& !children_asleep(low32(input))
            &&& init_step_ops(pre, input) == sgi_ppi_init_ops(pre.gicr_base)
                + cpu_interface_init_ops()
        },
        init_step_next(pre, input) is Failed ==> !init_next_state(pre, input).initialized
            && init_step_ops(pre, input) == Seq::<HwOp>::empty() && init_next_state(
            pre,
            input,
        ).phase is Idle,
{
}

/// The polls of a complete run: from a state that awaits the
/// redistributor, the run pauses before each poll but the first, and then
/// configures the private interrupts and readies the CPU interface.
proof fn lemma_poll_run(state: GicState, inputs: Seq<u64>)
    requires
        state.phase is AwaitAwake,
        !state.initialized,
        init_run_completes(state, inputs),
    ensures
        init_run_ops(state, inputs) == pause_ops(inputs.len() - 1) + sgi_ppi_init_ops(
            state.gicr_base,
        ) + cpu_interface_init_ops(),
        init_run_state(state, inputs).initialized,
        !children_asleep(low32(inputs.last())),
    decreases inputs.len(),
{
    let finish = sgi_ppi_init_ops(state.gicr_base) + cpu_interface_init_ops();
    reveal_with_fuel(init_run_ops, 2);
    reveal_with_fuel(init_run_state, 2);
    if inputs.len() == 1 {
        assert(inputs.drop_first().len() == 0);
        assert(init_run_ops(state, inputs) =~= pause_ops(0) + finish);
    } else {
        let next = init_next_state(state, inputs[0]);
        lemma_poll_run(next, inputs.drop_first());
        assert(inputs.drop_first().last() == inputs.last());
        assert(init_run_ops(state, inputs) =~= pause_ops(inputs.len() - 1) + finish);
    }
}

/// The step that reads the redistributor's state first, and what follows
/// it in a complete run: the wake handshake, the configuration of the
/// private interrupts, the readying of the CPU interface.
proof fn lemma_waker_run(state: GicState, inputs: Seq<u64>)
    requires
        state.phase is AwaitWaker,
        !state.initialized,
        init_run_completes(state, inputs),
    ensures
        init_run_ops(state, inputs) == wake_ops(
            state.gicr_base,
            low32(inputs[0]),
            inputs.len() - 1,
        ) + sgi_ppi_init_ops(state.gicr_base) + cpu_interface_init_ops(),
        init_run_state(state, inputs).initialized,
        !children_asleep(low32(inputs.last())),
{
    let finish = sgi_ppi_init_ops(state.gicr_base) + cpu_interface_init_ops();
    let next = init_next_state(state, inputs[0]);
    let rest = inputs.drop_first();
    reveal_with_fuel(init_run_ops, 2);
    reveal_with_fuel(init_run_state, 2);
    if processor_sleep(low32(inputs[0])) || children_asleep(low32(inputs[0])) {
        lemma_poll_run(next, rest);
        assert(rest.last() == inputs.last());
        assert(init_run_ops(state, inputs) =~= wake_ops(
            state.gicr_base,
            low32(inputs[0]),
            inputs.len() - 1,
        ) + finish);
    } else {
        assert(rest.len() == 0);
        assert(init_run_ops(state, inputs) =~= wake_ops(
            state.gicr_base,
            low32(inputs[0]),
            inputs.len() - 1,
        ) + finish);
    }
}

/// A run is its first step followed by the run from the state after it.
proof fn lemma_run_unfold(state: GicState, inputs: Seq<u64>)
    requires
        inputs.len() >= 1,
        init_run_completes(state, inputs),
        init_step_next(state, inputs[0]) is Read,
    ensures
        inputs.len() >= 2,
        init_run_completes(init_next_state(state, inputs[0]), inputs.drop_first()),
        init_run_ops(state, inputs) == init_step_ops(state, inputs[0]) + init_run_ops(
            init_next_state(state, inputs[0]),
            inputs.drop_first(),
        ),
        init_run_state(state, inputs) == init_run_state(
            init_next_state(state, inputs[0]),
            inputs.drop_first(),
        ),
{
}

/// The initialization as a whole. Whatever the reads return, a run that
/// starts on a core whose delivery is not initialized and completes takes
/// at least four steps and performs, in this order and nothing else: the
/// enabling of the system register interface; the wake handshake of the
/// redistributor of the core that the MPIDR_EL1 value read names; the
/// configuration of that redistributor's private interrupts; the readying
/// of the CPU interface. It leaves delivery initialized, and the
/// redistributor was seen awake by the last read.
pub proof fn lemma_init_run(state: GicState, inputs: Seq<u64>)
    requires
        state.phase is Idle,
        !state.initialized,
        init_run_completes(state, inputs),
    ensures
        inputs.len() >= 4,
        redistributor_of(inputs[2]) is Ok,
        !children_asleep(low32(inputs.last())),
        init_run_state(state, inputs).initialized,
        init_run_ops(state, inputs) == sre_enable_ops(inputs[1]) + wake_ops(
            redistributor_of(inputs[2]).unwrap(),
            low32(inputs[3]),
            inputs.len() - 4,
        ) + sgi_ppi_init_ops(redistributor_of(inputs[2]).unwrap()) + cpu_interface_init_ops(),
{
    let s1 = init_next_state(state, inputs[0]);
    let r1 = inputs.drop_first();
    lemma_run_unfold(state, inputs);
    let s2 = init_next_state(s1, r1[0]);
    let r2 = r1.drop_first();
    lemma_run_unfold(s1, r1);
    let s3 = init_next_state(s2, r2[0]);
    let r3 = r2.drop_first();
    lemma_run_unfold(s2, r2);
    lemma_waker_run(s3, r3);
    assert(r3.last() == inputs.last());
    lemma_join_run(
        sre_enable_ops(inputs[1]),
        wake_ops(s3.gicr_base, low32(inputs[3]), inputs.len() - 4),
        sgi_ppi_init_ops(s3.gicr_base),
        cpu_interface_init_ops(),
    );
}

/// Joining the operations of the steps of a run: steps without operations
/// drop out, and the rest follow one another.
proof fn lemma_join_run(a: Seq<HwOp>, b: Seq<HwOp>, c: Seq<HwOp>, d: Seq<HwOp>)
    ensures
        Seq::<HwOp>::empty() + (a + (Seq::<HwOp>::empty() + (b + c + d))) == a + b + c + d,
{
    assert(Seq::<HwOp>::empty() + (a + (Seq::<HwOp>::empty() + (b + c + d))) =~= a + b + c + d);
}

/// The distributor goes from disabled through configured to enabled and
/// no other way: nothing but a successful `configure` leaves the disabled
/// state, nothing but a successful `enable` reaches the enabled one, and
/// only the primary core does either.
pub proof fn lemma_distributor_order(state: DistributorState, core_pos: u32)
    ensures
        configure_refusal(state, core_pos) is None <==> core_pos == PRIMARY_CORE && state
            == DistributorState::Disabled,
        enable_refusal(state, core_pos) is None <==> core_pos == PRIMARY_CORE && state
            == DistributorState::Configured,
{
}

proof fn lemma_distributor_config_len(blocks: int)
    requires
        1 <= blocks,
    ensures
        distributor_config_ops(blocks).len() == BLOCK_CONFIG_OPS * (blocks - 1),
    decreases blocks,
{
    if blocks > 1 {
        lemma_distributor_config_len(blocks - 1);
    }
}

/// Configuring the distributor touches only registers that all cores
/// share: every store lies in the distributor's frame.
pub proof fn lemma_distributor_config_shared(blocks: int, i: int)
    requires
        1 <= blocks <= 32,
        0 <= i < distributor_config_ops(blocks).len(),
    ensures
        distributor_config_ops(blocks).len() == BLOCK_CONFIG_OPS * (blocks - 1),
        targets_distributor(distributor_config_ops(blocks)[i]),
    decreases blocks,
{
    if blocks > 1 {
        let before = distributor_config_ops(blocks - 1);
        lemma_distributor_config_len(blocks - 1);
        lemma_distributor_config_len(blocks);
        if i < before.len() {
            lemma_distributor_config_shared(blocks - 1, i);
        } else {
            let j = i - before.len();
            assert(distributor_config_ops(blocks)[i] == block_config_ops(blocks - 1)[j]);
        }
    }
}

} // verus!
