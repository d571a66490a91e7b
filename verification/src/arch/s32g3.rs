//! S32G3 specific memory-mapped registers and configuration.

use vstd::prelude::*;

pub mod timer;

verus! {

// S32G3 base addresses for key peripherals
pub const UART_BASE: usize = 0x401C8000;  // LinFLEX UART0 base address
pub const GIC_DIST_BASE: usize = 0x50800000;  // GIC-500 Distributor
pub const GIC_CPU_BASE: usize = 0x50880000;  // GIC-500 CPU Interface

// LinFLEX UART register offsets
pub const LINFLEX_LINCR1: usize = 0x00;  // LIN Control Register 1
pub const LINFLEX_LINSR: usize = 0x8;  // LIN Status Register
pub const LINFLEX_UARTCR: usize = 0x10;  // UART Mode Control Register
pub const LINFLEX_UARTSR: usize = 0x14;  // UART Mode Status Register
pub const LINFLEX_LINIBRR: usize = 0x28;  // LIN Integer Baud Rate Register
pub const LINFLEX_LINFBRR: usize = 0x24;  // LIN Fractional Baud Rate Register
pub const LINFLEX_BDRL: usize = 0x38;  // Buffer Data Register Least Significant
pub const LINFLEX_UARTPTO: usize = 0x50;  // UART Preset Timeout Register

// LinFLEX UART register bit definitions
pub const LINCR1_INIT: u32 = 0x1;  // Initialization Mode
pub const LINCR1_MME: u32 = 0x10;  // Master Mode Enable
pub const LINSR_LINS_MASK: u32 = 0x0000F000;  // LIN State Field Mask
pub const LINSR_LINS_INITMODE: u32 = 0x00001000;  // Initialization Mode
pub const LINSR_LINS_RX_TX_MODE: u32 = 0x00008000;
pub const UARTCR_UART: u32 = 0x1;  // UART Mode
pub const UARTCR_WL0: u32 = 0x2;  // Word Length bit 0 (8-bit)
pub const UARTCR_PC0: u32 = 0x8;  // Parity Control bit 0
pub const UARTCR_PC1: u32 = 0x40;  // Parity Control bit 1
pub const UARTCR_TXEN: u32 = 0x10;  // Transmitter Enable
pub const UARTCR_RXEN: u32 = 0x20;  // Receiver Enable
pub const UARTCR_TFBM: u32 = 0x100;  // Tx FIFO Buffer Mode
pub const UARTCR_RFBM: u32 = 0x200;  // Rx FIFO Buffer Mode
pub const UARTCR_ROSE: u32 = 0x80_0000;  // Reduced Oversampling Enable
pub const UARTCR_TFC: u32 = 0xE000;  // Tx FIFO Counter mask
pub const UARTCR_OSR_MASK: u32 = 0x0F00_0000;  // Oversampling rate field
pub const UARTSR_DTF: u32 = 0x2;  // Data Transmission Completed Flag

// LinFLEX UART configuration values
pub const UART_CLOCK_HZ: u32 = 125000000;  // 125 MHz UART clock
pub const UART_BAUD_RATE: u32 = 115200;  // Default baud rate
pub const LDIV_MULTIPLIER: u32 = 16;  // Default LIN divider multiplier
pub const UARTCR_OSR_SHIFT: usize = 24;
pub const UARTCR_OSR_WIDTH: usize = 4;
pub const CONSOLE_T_BASE: usize = 32;
pub const CONSOLE_T_PUTC: usize = 8;
pub const CONSOLE_T_FLUSH: usize = 12;
pub const CONSOLE_T_GETC: usize = 24;
pub const CONSOLE_T_FLAGS: usize = 4;
pub const CONSOLE_FLAG_BOOT: usize = 1;
pub const CONSOLE_FLAG_RUNTIME: usize = 2;
pub const CONSOLE_FLAG_CRASH: usize = 4;

// Memory-mapped timer constants
pub const S32G_STM0_BASE: u64 = 0x40054000;  // System Timer Module 0
pub const S32G_STM_CR: u64 = 0x00;  // Control Register offset
pub const S32G_STM_CNT: u64 = 0x04;  // Count Register offset
pub const S32G_STM_CMP0: u64 = 0x10;  // Compare Register 0 offset

// Clock configuration
pub const S32G_CLOCK_FREQ: u64 = 80_000_000;  // 80 MHz system clock (approximate)

/// A stage of the bring-up of a core.
#[derive(Clone, Copy, Debug, PartialEq, Eq, Structural)]
pub enum BringUpStage {
    /// Initialize this core's interrupt delivery.
    InterruptController,
    /// Initialize the console.
    Console,
    /// Unmask interrupts at the processor.
    UnmaskInterrupts,
}

/// The stages that bring up the S32G3's basic hardware, in order: interrupts
/// are unmasked only after the interrupt controller and the console are
/// initialized.
pub open spec fn platform_stages() -> Seq<BringUpStage> {
    seq![BringUpStage::InterruptController, BringUpStage::Console, BringUpStage::UnmaskInterrupts]
}

/// Initialize S32G3 peripheral clocks and basic hardware: the stages to
/// run, in order.
pub fn init() -> (stages: Vec<BringUpStage>)
    ensures
        stages@ == platform_stages(),
{
    vec![BringUpStage::InterruptController, BringUpStage::Console, BringUpStage::UnmaskInterrupts]
}

} // verus!
