//! LinFlexD UART driver and the console built on it.

use crate::arch::aarch64::{HwOp, HwRead};
use crate::arch::s32g3::{
    LDIV_MULTIPLIER, LINCR1_INIT, LINCR1_MME, LINFLEX_BDRL, LINFLEX_LINCR1, LINFLEX_LINFBRR,
    LINFLEX_LINIBRR, LINFLEX_LINSR, LINFLEX_UARTCR, LINFLEX_UARTPTO, LINFLEX_UARTSR,
    LINSR_LINS_INITMODE, LINSR_LINS_MASK, UARTCR_OSR_MASK, UARTCR_PC0, UARTCR_PC1, UARTCR_RFBM,
    UARTCR_ROSE, UARTCR_RXEN, UARTCR_TFBM, UARTCR_TFC, UARTCR_TXEN, UARTCR_UART, UARTCR_WL0,
    UARTSR_DTF, UART_BASE, UART_BAUD_RATE, UART_CLOCK_HZ,
};
use vstd::prelude::*;
use vstd::string::StringSliceAdditionalSpecFns;

verus! {

pub const CONSOLE_UART_SIZE: usize = 0x3000;

/// UART control value of normal operation: 8-bit data, no parity, Tx/Rx
/// enabled, UART mode, FIFO mode.
pub const UARTCR_CONFIG: u32 = UARTCR_PC1 | UARTCR_RXEN | UARTCR_TXEN | UARTCR_PC0 | UARTCR_WL0
    | UARTCR_UART | UARTCR_RFBM | UARTCR_TFBM;

/// The banner printed when the system is initialized.
pub const INIT_COMPLETE_BANNER: &'static str =
    "\n\n**********************************************\n*                                            *\n*  S32G3 FreeRTOS System Initialization      *\n*  Successfully Completed                    *\n*                                            *\n*  Core 1 is now running FreeRTOS            *\n*  Core 0 has returned to AT-F               *\n*                                            *\n**********************************************\n\n";

/// Value of the preset timeout register.
pub const UARTPTO_VALUE: u32 = 0xF;

/// Number of times a wait on the UART polls a register before it gives up.
pub const UART_POLL_LIMIT: u32 = 1_000_000;

/// Why a UART operation gave up.
#[derive(Clone, Copy, Debug, PartialEq, Eq, Structural)]
pub enum UartError {
    /// A flag did not change within `UART_POLL_LIMIT` polls.
    Timeout,
    /// Baud rate and oversampling give no divisor for the clock.
    BadBaudRate,
}

/// What a UART operation asks for after the operations of a step.
#[derive(Clone, Copy, Debug, PartialEq, Eq, Structural)]
pub enum UartNext {
    /// Make this read and hand its result to the next step.
    Read { read: HwRead },
    /// The operation is complete.
    Done,
    /// The operation gave up for this reason.
    Failed { error: UartError },
}

/// One step of a UART operation: stores to perform in order, then what to
/// do next.
pub struct UartStep {
    pub ops: Vec<HwOp>,
    pub next: UartNext,
}

/// One request to the console.
#[derive(Clone, Copy, Debug, PartialEq, Eq, Structural)]
pub enum ConsoleOp {
    /// Transmit one byte.
    PutByte { byte: u8 },
    /// Wait until everything handed over has been transmitted.
    Flush,
}

/// A UART as the driver knows it: where its registers are, and the clock
/// and baud rate that it is set up for.
#[derive(Clone, Copy, Debug, PartialEq, Eq, Structural)]
pub struct S32UartData {
    pub base: usize,
    pub len: usize,
    pub clock: u32,
    pub baud: u32,
}

/// A serial chip: the registers of one UART.
#[derive(Clone, Copy, Debug, PartialEq, Eq, Structural)]
pub struct SerialChip {
    pub data: S32UartData,
}

/// Whether any bit of `flag` is set in `value`.
pub open spec fn flag_set(value: u32, flag: u32) -> bool {
    value & flag != 0
}

/// The registers of a UART at `base` lie within the address space.
pub open spec fn uart_fits(base: usize) -> bool {
    base + CONSOLE_UART_SIZE <= usize::MAX
}

/// The 32-bit store of `value` to the register at `off` of the UART at
/// `base`.
pub open spec fn reg_write(base: usize, off: usize, value: u32) -> HwOp {
    HwOp::Write32 { addr: (base + off) as u64, value }
}

/// The 32-bit load of the register at `off` of the UART at `base`.
pub open spec fn reg_read(base: usize, off: usize) -> UartNext {
    UartNext::Read { read: HwRead::Mmio32 { addr: (base + off) as u64 } }
}

/// The store of byte `ch` to the transmit buffer of the UART at `base`.
pub open spec fn tx_write(base: usize, ch: u8) -> HwOp {
    HwOp::Write8 { addr: (base + LINFLEX_BDRL) as u64, value: ch }
}

/// The oversampling rate field of a UART control value: bits 27 to 24.
pub open spec fn osr_of(uartcr: u32) -> int {
    (uartcr as int / 0x100_0000) % 0x10
}

/// The multiplier of the baud rate divider: the oversampling rate if
/// reduced oversampling is enabled, sixteen otherwise.
pub open spec fn ldiv_mult_of(uartcr: u32) -> int {
    if flag_set(uartcr, UARTCR_ROSE) {
        osr_of(uartcr)
    } else {
        LDIV_MULTIPLIER as int
    }
}

/// The divider of the clock for a baud rate: baud rate times multiplier.
pub open spec fn divider_of(baud: u32, uartcr: u32) -> int {
    baud * ldiv_mult_of(uartcr)
}

/// Whether a baud rate can be set: the divider is not zero and fits 32
/// bits.
pub open spec fn baud_valid(baud: u32, uartcr: u32) -> bool {
    0 < divider_of(baud, uartcr) <= u32::MAX
}

/// The integer part of the baud rate divisor.
pub open spec fn ibr_of(clock: u32, baud: u32, uartcr: u32) -> int {
    clock as int / divider_of(baud, uartcr)
}

/// The fractional part of the baud rate divisor, in sixteenths.
pub open spec fn fbr_of(clock: u32, baud: u32, uartcr: u32) -> int {
    ((clock as int % divider_of(baud, uartcr)) * 16) / divider_of(baud, uartcr)
}

/// The stores that set the baud rate of the UART at `base`.
pub open spec fn brg_ops(base: usize, clock: u32, baud: u32, uartcr: u32) -> Seq<HwOp> {
    seq![
        reg_write(base, LINFLEX_LINIBRR, ibr_of(clock, baud, uartcr) as u32),
        reg_write(base, LINFLEX_LINFBRR, fbr_of(clock, baud, uartcr) as u32),
    ]
}

/// The requests that print `bytes`: each byte in order, then a flush.
pub open spec fn puts_ops(bytes: Seq<u8>) -> Seq<ConsoleOp> {
    Seq::new(bytes.len(), |i: int| ConsoleOp::PutByte { byte: bytes[i] }).push(ConsoleOp::Flush)
}

/// The upper-case hexadecimal digit of a value below sixteen.
pub open spec fn hex_digit(nibble: int) -> u8 {
    if nibble < 10 {
        (0x30 + nibble) as u8
    } else {
        (0x41 + nibble - 10) as u8
    }
}

/// `value` without its `count` lowest hexadecimal digits.
pub open spec fn drop_nibbles(value: u32, count: nat) -> u32
    decreases count,
{
    if count == 0 {
        value
    } else {
        drop_nibbles(value, (count - 1) as nat) / 16
    }
}

/// The ten characters that `value` prints as: `0x` and eight upper-case
/// hexadecimal digits, most significant first.
pub open spec fn hex_bytes(value: u32) -> Seq<u8> {
    seq![0x30u8, 0x78u8] + Seq::new(
        8,
        |i: int| hex_digit((drop_nibbles(value, (7 - i) as nat) % 16) as int),
    )
}

/// The character that stands for core `core_id` in a status line: the
/// digit zero moved on by the core's number.
pub open spec fn core_char(core_id: u32) -> int {
    0x30 + core_id
}

proof fn lemma_uart_fields(value: u32)
    ensures
        (value & UARTCR_OSR_MASK) >> 24 == osr_of(value),
        (value >> 24) & 0xF == osr_of(value),
        value & 0xF == value % 16,
        value >> 4 == value / 16,
{
    assert((value & 0x0F00_0000) >> 24u32 == (value / 0x100_0000) % 0x10 && (value >> 24u32) & 0xF
        == (value / 0x100_0000) % 0x10 && value & 0xF == value % 16 && value >> 4u32 == value
        / 16) by (bit_vector);
}

/// The multiplier of the baud rate divider for a UART control value.
pub fn get_ldiv_mult(uartcr: u32) -> (mult: u32)
    ensures
        mult == ldiv_mult_of(uartcr),
{
    proof {
        lemma_uart_fields(uartcr);
    }
    if (uartcr & UARTCR_ROSE) != 0 {
        (uartcr & UARTCR_OSR_MASK) >> 24
    } else {
        LDIV_MULTIPLIER
    }
}

/// Calculate the baud rate generator values for a clock and a baud rate,
/// given the UART's control value: the integer and the fractional divisor.
/// Refused with `BadBaudRate` if the baud rate cannot be set.
pub fn baud_divisors(clock: u32, baud: u32, uartcr: u32) -> (divisors: Result<
    (u32, u32),
    UartError,
>)
    ensures
        match divisors {
            Ok((ibr, fbr)) => baud_valid(baud, uartcr) && ibr == ibr_of(clock, baud, uartcr)
                && fbr == fbr_of(clock, baud, uartcr) && fbr < 16,
            Err(e) => !baud_valid(baud, uartcr) && e == UartError::BadBaudRate,
        },
{
    let ldiv_mult = get_ldiv_mult(uartcr);
    proof {
        lemma_uart_fields(uartcr);
        assert(baud as int * ldiv_mult as int <= 0xFFFF_FFFF * 16) by (nonlinear_arith)
            requires
                baud <= 0xFFFF_FFFF,
                ldiv_mult <= 16,
        ;
    }
    // Calculate integer and fractional dividers
    let dividr: u64 = baud as u64 * ldiv_mult as u64;
    if dividr == 0 || dividr > u32::MAX as u64 {
        return Err(UartError::BadBaudRate);
    }
    let divisr: u64 = clock as u64;
    let ibr: u64 = divisr / dividr;
    let remainder: u64 = divisr % dividr;
    let fbr: u64 = (remainder * 16) / dividr;
    proof {
        assert(ibr <= divisr) by (nonlinear_arith)
            requires
                ibr == divisr / dividr,
                dividr > 0,
        ;
        assert(fbr < 16) by (nonlinear_arith)
            requires
                fbr == (remainder * 16) / (dividr as int),
                remainder < dividr,
                dividr > 0,
        ;
    }
    Ok((ibr as u32, fbr as u32))
}

/// Calculate and set the baud rate generator registers of the console UART.
/// Refused with `BadBaudRate` if the baud rate cannot be set; then nothing
/// is written.
pub fn linflex_set_brg(clock: u32, baud: u32, uartcr: u32) -> (ops: Result<Vec<HwOp>, UartError>)
    ensures
        match ops {
            Ok(ops) => baud_valid(baud, uartcr) && ops@ == brg_ops(UART_BASE, clock, baud, uartcr),
            Err(e) => !baud_valid(baud, uartcr) && e == UartError::BadBaudRate,
        },
{
    match baud_divisors(clock, baud, uartcr) {
        Ok((ibr, fbr)) => Ok(
            vec![
                HwOp::Write32 { addr: (UART_BASE + LINFLEX_LINIBRR) as u64, value: ibr },
                HwOp::Write32 { addr: (UART_BASE + LINFLEX_LINFBRR) as u64, value: fbr },
            ],
        ),
        Err(e) => Err(e),
    }
}

impl S32UartData {
    /// The UART at `pbase` with `len` bytes of registers, for a clock and a
    /// baud rate.
    pub fn new(pbase: usize, len: usize, clock: u32, baud: u32) -> (data: Self)
        ensures
            data == (S32UartData { base: pbase, len, clock, baud }),
    {
        S32UartData { base: pbase, len, clock, baud }
    }

    /// The multiplier of the baud rate divider for a UART control value.
    pub fn get_ldiv_mult(&self, uartcr: u32) -> (mult: u32)
        ensures
            mult == ldiv_mult_of(uartcr),
    {
        get_ldiv_mult(uartcr)
    }

    /// Set the baud rate generator registers of this UART for its clock and
    /// baud rate. Refused with `BadBaudRate` if the baud rate cannot be set.
    pub fn set_brg(&self, uartcr: u32) -> (ops: Result<Vec<HwOp>, UartError>)
        requires
            uart_fits(self.base),
        ensures
            match ops {
                Ok(ops) => baud_valid(self.baud, uartcr) && ops@ == brg_ops(
                    self.base,
                    self.clock,
                    self.baud,
                    uartcr,
                ),
                Err(e) => !baud_valid(self.baud, uartcr) && e == UartError::BadBaudRate,
            },
    {
        match baud_divisors(self.clock, self.baud, uartcr) {
            Ok((ibr, fbr)) => Ok(
                vec![
                    HwOp::Write32 { addr: (self.base + LINFLEX_LINIBRR) as u64, value: ibr },
                    HwOp::Write32 { addr: (self.base + LINFLEX_LINFBRR) as u64, value: fbr },
                ],
            ),
            Err(e) => Err(e),
        }
    }
}

impl SerialChip {
    /// The chip of a UART.
    pub fn new(data: S32UartData) -> (chip: Self)
        ensures
            chip.data == data,
    {
        SerialChip { data }
    }

    /// The 32-bit load of the register at `off`.
    pub fn uart_read32(&self, off: usize) -> (read: HwRead)
        requires
            self.data.base + off <= usize::MAX,
        ensures
            read == (HwRead::Mmio32 { addr: (self.data.base + off) as u64 }),
    {
        HwRead::Mmio32 { addr: (self.data.base + off) as u64 }
    }

    /// The 32-bit store of `data` to the register at `off`.
    pub fn uart_write32(&self, off: usize, data: u32) -> (op: HwOp)
        requires
            self.data.base + off <= usize::MAX,
        ensures
            op == reg_write(self.data.base, off, data),
    {
        HwOp::Write32 { addr: (self.data.base + off) as u64, value: data }
    }

    /// The 8-bit store of `ch` to the register at `off`.
    pub fn uart_write8(&self, off: usize, ch: u8) -> (op: HwOp)
        requires
            self.data.base + off <= usize::MAX,
        ensures
            op == (HwOp::Write8 { addr: (self.data.base + off) as u64, value: ch }),
    {
        HwOp::Write8 { addr: (self.data.base + off) as u64, value: ch }
    }
}

/// The console UART as the driver knows it: at `UART_BASE`, with the
/// default clock and baud rate.
pub fn console_init() -> (chip: SerialChip)
    ensures
        chip.data == (S32UartData {
            base: UART_BASE,
            len: CONSOLE_UART_SIZE,
            clock: UART_CLOCK_HZ,
            baud: UART_BAUD_RATE,
        }),
        uart_fits(chip.data.base),
{
    SerialChip::new(S32UartData::new(UART_BASE, CONSOLE_UART_SIZE, UART_CLOCK_HZ, UART_BAUD_RATE))
}

/// The requests that print `bytes`: each byte in order, then a flush.
pub fn put_bytes(bytes: &[u8]) -> (ops: Vec<ConsoleOp>)
    ensures
        ops@ == puts_ops(bytes@),
{
    let mut ops: Vec<ConsoleOp> = Vec::new();
    let mut i: usize = 0;
    while i < bytes.len()
        invariant
            i <= bytes@.len(),
            ops@.len() == i,
            forall|k: int| 0 <= k < i ==> #[trigger] ops@[k] == (ConsoleOp::PutByte { byte: bytes@[k] }),
        decreases bytes@.len() - i,
    {
        ops.push(ConsoleOp::PutByte { byte: bytes[i] });
        i = i + 1;
    }
    ops.push(ConsoleOp::Flush);
    assert(ops@ =~= puts_ops(bytes@));
    ops
}

/// Send a string to UART: the requests that print its bytes.
pub fn puts(s: &str) -> (ops: Vec<ConsoleOp>)
    ensures
        ops@ == puts_ops(s.spec_bytes()),
{
    put_bytes(s.as_bytes())
}

/// The upper-case hexadecimal digit of a value below sixteen.
fn hex_char(nibble: u32) -> (ch: u8)
    requires
        nibble < 16,
    ensures
        ch == hex_digit(nibble as int),
{
    if nibble < 10 {
        0x30u8 + nibble as u8
    } else {
        0x41u8 + (nibble as u8 - 10)
    }
}

/// Print a hexadecimal value: `0x` and eight upper-case digits.
pub fn print_hex(value: u32) -> (ops: Vec<ConsoleOp>)
    ensures
        ops@ == puts_ops(hex_bytes(value)),
{
    let mut buffer: Vec<u8> = vec![0x30u8, 0x78u8, 0, 0, 0, 0, 0, 0, 0, 0];
    let mut rest: u32 = value;
    let mut i: usize = 10;
    while i > 2
        invariant
            2 <= i <= 10,
            buffer@.len() == 10,
            buffer@[0] == 0x30u8,
            buffer@[1] == 0x78u8,
            rest == drop_nibbles(value, (10 - i) as nat),
            forall|k: int| i <= k < 10 ==> #[trigger] buffer@[k] == hex_bytes(value)[k],
        decreases i,
    {
        i = i - 1;
        proof {
            lemma_uart_fields(rest);
        }
        buffer.set(i, hex_char(rest & 0xF));
        rest = rest >> 4;
    }
    assert(buffer@ =~= hex_bytes(value));
    put_bytes(buffer.as_slice())
}

/// Print an initialization message: `[INIT] `, the message and a line
/// feed, each flushed.
pub fn print_init_message(message: &str) -> (ops: Vec<ConsoleOp>)
    ensures
        ops@ == puts_ops("[INIT] ".spec_bytes()) + puts_ops(message.spec_bytes()) + puts_ops(
            "\n".spec_bytes(),
        ),
{
    let mut ops = puts("[INIT] ");
    let mut body = puts(message);
    let mut end = puts("\n");
    ops.append(&mut body);
    ops.append(&mut end);
    ops
}

/// Print the status of a core: `Core `, the core's character, `: `, the
/// status and a line feed. The core's number must leave its character
/// within a byte.
pub fn print_core_status(core_id: u32, status: &str) -> (ops: Vec<ConsoleOp>)
    requires
        core_char(core_id) <= u8::MAX,
    ensures
        ops@ == puts_ops("Core ".spec_bytes()) + seq![
            ConsoleOp::PutByte { byte: core_char(core_id) as u8 },
        ] + puts_ops(": ".spec_bytes()) + puts_ops(status.spec_bytes()) + puts_ops(
            "\n".spec_bytes(),
        ),
{
    let core_char: u8 = 0x30u8 + (core_id as u8);
    let mut ops = puts("Core ");
    ops.push(ConsoleOp::PutByte { byte: core_char });
    let mut sep = puts(": ");
    let mut body = puts(status);
    let mut end = puts("\n");
    ops.append(&mut sep);
    ops.append(&mut body);
    ops.append(&mut end);
    ops
}

/// Where the initialization of a UART stands.
#[derive(Clone, Copy, Debug, PartialEq, Eq, Structural)]
pub enum UartInitPhase {
    /// Not under way.
    Idle,
    /// Initialization mode was asked for and the status is polled;
    /// `polls_left` more polls may follow the one that is under way.
    AwaitInitMode { polls_left: u32 },
    /// The control register has been asked for, to set the baud rate.
    AwaitControl,
    /// LIN control register 1 has been asked for, to leave initialization
    /// mode.
    AwaitLincr1,
}

/// The initialization of a UART, one step at a time.
#[derive(Clone, Copy, Debug, PartialEq, Eq, Structural)]
pub struct UartInit {
    /// The UART that is initialized.
    pub data: S32UartData,
    /// Whether the sequence resets LIN control register 1 first and leaves
    /// initialization mode at its end.
    pub full: bool,
    pub phase: UartInitPhase,
}

/// Where the transmission of a byte stands.
#[derive(Clone, Copy, Debug, PartialEq, Eq, Structural)]
pub enum TxPhase {
    /// Not under way.
    Idle,
    /// The control register has been asked for.
    AwaitControl,
    /// FIFO mode: the status is polled before the byte is written.
    FifoPoll { uartcr: u32, polls_left: u32 },
    /// Buffer mode: the byte is written and the status is polled.
    BufferDrain { polls_left: u32 },
}

/// Where a flush of the console UART stands.
#[derive(Clone, Copy, Debug, PartialEq, Eq, Structural)]
pub enum FlushPhase {
    /// Not under way.
    Idle,
    /// The control register has been asked for.
    AwaitControl,
    /// FIFO mode: the control register is polled until the transmit FIFO
    /// counter is zero.
    FifoDrain { polls_left: u32 },
    /// Buffer mode: the control register has been asked for once more.
    AwaitMode,
    /// The status is polled until the transmission flag is clear.
    AwaitFlagClear { polls_left: u32 },
    /// The status is polled until the transmission flag is set; then the
    /// flag is cleared.
    AwaitFlagSet { polls_left: u32 },
}

/// The stores that begin the initialization of the UART at `base`.
pub open spec fn init_begin_ops(base: usize, full: bool) -> Seq<HwOp> {
    if full {
        seq![
            reg_write(base, LINFLEX_LINCR1, LINCR1_INIT),
            reg_write(base, LINFLEX_LINCR1, LINCR1_MME | LINCR1_INIT),
        ]
    } else {
        seq![reg_write(base, LINFLEX_LINCR1, LINCR1_MME | LINCR1_INIT)]
    }
}

/// The stores that configure a UART in initialization mode, given its
/// control value: baud rate, preset timeout, and the control value of
/// normal operation.
pub open spec fn init_config_ops(data: S32UartData, uartcr: u32) -> Seq<HwOp> {
    brg_ops(data.base, data.clock, data.baud, uartcr) + seq![
        reg_write(data.base, LINFLEX_UARTPTO, UARTPTO_VALUE),
        reg_write(data.base, LINFLEX_UARTCR, UARTCR_CONFIG),
    ]
}

/// The initialization after the step that gets `input`.
pub open spec fn uart_init_after(pre: UartInit, input: u32) -> UartInit {
    match pre.phase {
        UartInitPhase::Idle => UartInit {
            phase: UartInitPhase::AwaitInitMode { polls_left: UART_POLL_LIMIT },
            ..pre
        },
        UartInitPhase::AwaitInitMode { polls_left } => if input & LINSR_LINS_MASK
            == LINSR_LINS_INITMODE {
            UartInit { phase: UartInitPhase::AwaitControl, ..pre }
        } else if polls_left == 0 {
            UartInit { phase: UartInitPhase::Idle, ..pre }
        } else {
            UartInit {
                phase: UartInitPhase::AwaitInitMode { polls_left: (polls_left - 1) as u32 },
                ..pre
            }
        },
        UartInitPhase::AwaitControl => if baud_valid(pre.data.baud, input) && pre.full {
            UartInit { phase: UartInitPhase::AwaitLincr1, ..pre }
        } else {
            UartInit { phase: UartInitPhase::Idle, ..pre }
        },
        UartInitPhase::AwaitLincr1 => UartInit { phase: UartInitPhase::Idle, ..pre },
    }
}

/// The stores of the step of the initialization that gets `input`.
pub open spec fn uart_init_ops(pre: UartInit, input: u32) -> Seq<HwOp> {
    match pre.phase {
        UartInitPhase::Idle => init_begin_ops(pre.data.base, pre.full),
        UartInitPhase::AwaitInitMode { polls_left } => if input & LINSR_LINS_MASK
            == LINSR_LINS_INITMODE {
            seq![reg_write(pre.data.base, LINFLEX_UARTCR, UARTCR_UART)]
        } else {
            Seq::empty()
        },
        UartInitPhase::AwaitControl => if baud_valid(pre.data.baud, input) {
            init_config_ops(pre.data, input)
        } else {
            Seq::empty()
        },
        UartInitPhase::AwaitLincr1 => seq![
            reg_write(pre.data.base, LINFLEX_LINCR1, input & !LINCR1_INIT),
        ],
    }
}

/// What the step of the initialization that gets `input` asks for next.
pub open spec fn uart_init_next(pre: UartInit, input: u32) -> UartNext {
    match pre.phase {
        UartInitPhase::Idle => reg_read(pre.data.base, LINFLEX_LINSR),
        UartInitPhase::AwaitInitMode { polls_left } => if input & LINSR_LINS_MASK
            == LINSR_LINS_INITMODE {
            reg_read(pre.data.base, LINFLEX_UARTCR)
        } else if polls_left == 0 {
            UartNext::Failed { error: UartError::Timeout }
        } else {
            reg_read(pre.data.base, LINFLEX_LINSR)
        },
        UartInitPhase::AwaitControl => if !baud_valid(pre.data.baud, input) {
            UartNext::Failed { error: UartError::BadBaudRate }
        } else if pre.full {
            reg_read(pre.data.base, LINFLEX_LINCR1)
        } else {
            UartNext::Done
        },
        UartInitPhase::AwaitLincr1 => UartNext::Done,
    }
}

/// The transmission after the step that gets `input`.
pub open spec fn tx_after(pre: TxPhase, input: u32) -> TxPhase {
    match pre {
        TxPhase::Idle => TxPhase::AwaitControl,
        TxPhase::AwaitControl => if flag_set(input, UARTCR_TFBM) {
            TxPhase::FifoPoll { uartcr: input, polls_left: UART_POLL_LIMIT }
        } else {
            TxPhase::BufferDrain { polls_left: UART_POLL_LIMIT }
        },
        TxPhase::FifoPoll { uartcr, polls_left } => if flag_set(uartcr, UARTSR_DTF) || polls_left
            == 0 {
            TxPhase::Idle
        } else {
            TxPhase::FifoPoll { uartcr, polls_left: (polls_left - 1) as u32 }
        },
        TxPhase::BufferDrain { polls_left } => if !flag_set(input, UARTSR_DTF) || polls_left == 0 {
            TxPhase::Idle
        } else {
            TxPhase::BufferDrain { polls_left: (polls_left - 1) as u32 }
        },
    }
}

/// The stores of the step of the transmission of `ch` that gets `input`.
pub open spec fn tx_ops(base: usize, pre: TxPhase, ch: u8, input: u32) -> Seq<HwOp> {
    match pre {
        TxPhase::Idle => Seq::empty(),
        TxPhase::AwaitControl => if flag_set(input, UARTCR_TFBM) {
            Seq::empty()
        } else {
            seq![tx_write(base, ch)]
        },
        TxPhase::FifoPoll { uartcr, polls_left } => if flag_set(uartcr, UARTSR_DTF) {
            seq![tx_write(base, ch)]
        } else {
            Seq::empty()
        },
        TxPhase::BufferDrain { polls_left } => if flag_set(input, UARTSR_DTF) && polls_left != 0 {
            seq![reg_write(base, LINFLEX_UARTSR, input & !UARTSR_DTF)]
        } else {
            Seq::empty()
        },
    }
}

/// What the step of the transmission that gets `input` asks for next.
pub open spec fn tx_next(base: usize, pre: TxPhase, input: u32) -> UartNext {
    match pre {
        TxPhase::Idle => reg_read(base, LINFLEX_UARTCR),
        TxPhase::AwaitControl => reg_read(base, LINFLEX_UARTSR),
        TxPhase::FifoPoll { uartcr, polls_left } => if flag_set(uartcr, UARTSR_DTF) {
            UartNext::Done
        } else if polls_left == 0 {
            UartNext::Failed { error: UartError::Timeout }
        } else {
            reg_read(base, LINFLEX_UARTSR)
        },
        TxPhase::BufferDrain { polls_left } => if !flag_set(input, UARTSR_DTF) {
            UartNext::Done
        } else if polls_left == 0 {
            UartNext::Failed { error: UartError::Timeout }
        } else {
            reg_read(base, LINFLEX_UARTSR)
        },
    }
}

/// What a poll does that has not seen what it waits for: it gives up if
/// no poll is left; else it polls the register at `off` again.
pub open spec fn poll_again(polls_left: u32, off: usize) -> UartNext {
    if polls_left == 0 {
        UartNext::Failed { error: UartError::Timeout }
    } else {
        reg_read(UART_BASE, off)
    }
}

/// The flush after the step that gets `input`.
pub open spec fn flush_after(pre: FlushPhase, input: u32) -> FlushPhase {
    match pre {
        FlushPhase::Idle => FlushPhase::AwaitControl,
        FlushPhase::AwaitControl => if flag_set(input, UARTCR_TFBM) {
            FlushPhase::FifoDrain { polls_left: UART_POLL_LIMIT }
        } else {
            FlushPhase::AwaitMode
        },
        FlushPhase::FifoDrain { polls_left } => if !flag_set(input, UARTCR_TFC) || polls_left == 0 {
            FlushPhase::Idle
        } else {
            FlushPhase::FifoDrain { polls_left: (polls_left - 1) as u32 }
        },
        FlushPhase::AwaitMode => if flag_set(input, UARTCR_TFBM) {
            FlushPhase::AwaitFlagClear { polls_left: UART_POLL_LIMIT }
        } else {
            FlushPhase::AwaitFlagSet { polls_left: UART_POLL_LIMIT }
        },
        FlushPhase::AwaitFlagClear { polls_left } => if !flag_set(input, UARTSR_DTF) || polls_left
            == 0 {
            FlushPhase::Idle
        } else {
            FlushPhase::AwaitFlagClear { polls_left: (polls_left - 1) as u32 }
        },
        FlushPhase::AwaitFlagSet { polls_left } => if flag_set(input, UARTSR_DTF) || polls_left
            == 0 {
            FlushPhase::Idle
        } else {
            FlushPhase::AwaitFlagSet { polls_left: (polls_left - 1) as u32 }
        },
    }
}

/// The stores of the step of the flush that gets `input`: only the step
/// that sees the transmission flag set in buffer mode stores, to clear it.
pub open spec fn flush_ops(pre: FlushPhase, input: u32) -> Seq<HwOp> {
    if pre is AwaitFlagSet && flag_set(input, UARTSR_DTF) {
        seq![reg_write(UART_BASE, LINFLEX_UARTSR, UARTSR_DTF)]
    } else {
        Seq::empty()
    }
}

/// What the step of the flush that gets `input` asks for next.
pub open spec fn flush_next(pre: FlushPhase, input: u32) -> UartNext {
    match pre {
        FlushPhase::Idle => reg_read(UART_BASE, LINFLEX_UARTCR),
        FlushPhase::AwaitControl => reg_read(UART_BASE, LINFLEX_UARTCR),
        FlushPhase::FifoDrain { polls_left } => if !flag_set(input, UARTCR_TFC) {
            UartNext::Done
        } else {
            poll_again(polls_left, LINFLEX_UARTCR)
        },
        FlushPhase::AwaitMode => reg_read(UART_BASE, LINFLEX_UARTSR),
        FlushPhase::AwaitFlagClear { polls_left } => if !flag_set(input, UARTSR_DTF) {
            UartNext::Done
        } else {
            poll_again(polls_left, LINFLEX_UARTSR)
        },
        FlushPhase::AwaitFlagSet { polls_left } => if flag_set(input, UARTSR_DTF) {
            UartNext::Done
        } else {
            poll_again(polls_left, LINFLEX_UARTSR)
        },
    }
}

/// An upper bound on the polls that a transmission still makes.
pub open spec fn tx_polls_left(phase: TxPhase) -> nat {
    match phase {
        TxPhase::Idle => (UART_POLL_LIMIT + 3) as nat,
        TxPhase::AwaitControl => (UART_POLL_LIMIT + 2) as nat,
        TxPhase::FifoPoll { uartcr, polls_left } => (polls_left + 1) as nat,
        TxPhase::BufferDrain { polls_left } => (polls_left + 1) as nat,
    }
}

/// An upper bound on the steps that a flush still takes.
pub open spec fn flush_steps_left(phase: FlushPhase) -> nat {
    match phase {
        FlushPhase::Idle => (UART_POLL_LIMIT + 4) as nat,
        FlushPhase::AwaitControl => (UART_POLL_LIMIT + 3) as nat,
        FlushPhase::AwaitMode => (UART_POLL_LIMIT + 2) as nat,
        FlushPhase::FifoDrain { polls_left } => (polls_left + 1) as nat,
        FlushPhase::AwaitFlagClear { polls_left } => (polls_left + 1) as nat,
        FlushPhase::AwaitFlagSet { polls_left } => (polls_left + 1) as nat,
    }
}

/// An upper bound on the steps that an initialization still takes.
pub open spec fn uart_init_steps_left(phase: UartInitPhase) -> nat {
    match phase {
        UartInitPhase::Idle => (UART_POLL_LIMIT + 4) as nat,
        UartInitPhase::AwaitInitMode { polls_left } => (polls_left + 3) as nat,
        UartInitPhase::AwaitControl => 2,
        UartInitPhase::AwaitLincr1 => 1,
    }
}

/// No phase holds more polls than the limit allows.
pub open spec fn polls_within_limit(polls_left: u32) -> bool {
    polls_left <= UART_POLL_LIMIT
}

/// The operations of a serial device.
pub trait SerialOps {
    /// The device's registers lie within the address space.
    spec fn fits(&self) -> bool;

    /// One step of the transmission of `ch`: from where the transmission
    /// stands and the result of the read that the step before asked for, to
    /// where it stands then and what to do.
    fn putc(&self, phase: TxPhase, ch: u8, input: u32) -> (r: (TxPhase, UartStep))
        requires
            self.fits(),
    ;

    /// Flush the device.
    fn flush(&self);

    /// Whether the device holds received data.
    fn have_rx_data(&self) -> bool;

    /// The next byte received.
    fn getchar(&self) -> u8;
}

impl SerialOps for SerialChip {
    open spec fn fits(&self) -> bool {
        uart_fits(self.data.base)
    }

    /// One step of the transmission of `ch`.
    ///
    /// The first step asks for the control register. In FIFO mode the
    /// status is read, and the byte is written if the transmission flag
    /// position is set in the control value; in buffer mode the byte is
    /// written at once, and the status is read and its transmission flag
    /// cleared until the flag is found clear. A wait gives up with
    /// `Timeout` after `UART_POLL_LIMIT` polls beyond the first.
    fn putc(&self, phase: TxPhase, ch: u8, input: u32) -> (r: (TxPhase, UartStep))
        ensures
            r.0 == tx_after(phase, input),
            r.1.ops@ == tx_ops(self.data.base, phase, ch, input),
            r.1.next == tx_next(self.data.base, phase, input),
    {
        let status = HwRead::Mmio32 { addr: (self.data.base + LINFLEX_UARTSR) as u64 };
        let write = HwOp::Write8 { addr: (self.data.base + LINFLEX_BDRL) as u64, value: ch };
        match phase {
            TxPhase::Idle => (
                TxPhase::AwaitControl,
                UartStep { ops: Vec::new(), next: UartNext::Read { read: self.uart_read32(LINFLEX_UARTCR) } },
            ),
            TxPhase::AwaitControl => {
                if (input & UARTCR_TFBM) != 0 {
                    (
                        TxPhase::FifoPoll { uartcr: input, polls_left: UART_POLL_LIMIT },
                        UartStep { ops: Vec::new(), next: UartNext::Read { read: status } },
                    )
                } else {
                    (
                        TxPhase::BufferDrain { polls_left: UART_POLL_LIMIT },
                        UartStep { ops: vec![write], next: UartNext::Read { read: status } },
                    )
                }
            },
            TxPhase::FifoPoll { uartcr, polls_left } => {
                if (uartcr & UARTSR_DTF) != 0 {
                    (TxPhase::Idle, UartStep { ops: vec![write], next: UartNext::Done })
                } else if polls_left == 0 {
                    (
                        TxPhase::Idle,
                        UartStep {
                            ops: Vec::new(),
                            next: UartNext::Failed { error: UartError::Timeout },
                        },
                    )
                } else {
                    (
                        TxPhase::FifoPoll { uartcr, polls_left: polls_left - 1 },
                        UartStep { ops: Vec::new(), next: UartNext::Read { read: status } },
                    )
                }
            },
            TxPhase::BufferDrain { polls_left } => {
                if (input & UARTSR_DTF) == 0 {
                    (TxPhase::Idle, UartStep { ops: Vec::new(), next: UartNext::Done })
                } else if polls_left == 0 {
                    (
                        TxPhase::Idle,
                        UartStep {
                            ops: Vec::new(),
                            next: UartNext::Failed { error: UartError::Timeout },
                        },
                    )
                } else {
                    (
                        TxPhase::BufferDrain { polls_left: polls_left - 1 },
                        UartStep {
                            ops: vec![self.uart_write32(LINFLEX_UARTSR, input & !UARTSR_DTF)],
                            next: UartNext::Read { read: status },
                        },
                    )
                }
            },
        }
    }

    fn flush(&self) {
    }

    fn have_rx_data(&self) -> (ready: bool)
        ensures
            !ready,
    {
        false
    }

    fn getchar(&self) -> (ch: u8)
        ensures
            ch == 0,
    {
        0
    }
}

impl S32UartData {
    /// Set this UART up at `pbase` for a clock and a baud rate, and begin
    /// its initialization: the sequence enters initialization mode, sets
    /// the baud rate and the control value of normal operation.
    pub fn init(&mut self, pbase: usize, len: usize, clock: u32, baud: u32) -> (init: UartInit)
        ensures
            *final(self) == (S32UartData { base: pbase, len, clock, baud }),
            init == (UartInit { data: *final(self), full: false, phase: UartInitPhase::Idle }),
    {
        self.base = pbase;
        self.len = len;
        self.clock = clock;
        self.baud = baud;
        UartInit { data: *self, full: false, phase: UartInitPhase::Idle }
    }
}

impl UartInit {
    /// One step of the initialization.
    ///
    /// The first call begins the sequence; its `input` is not read. Each
    /// step returns stores to perform in order, and then either a read,
    /// whose result is the `input` of the next call, or the end. In order:
    /// initialization mode is asked for and awaited; UART mode is set; the
    /// baud rate is set from the control value read back; the preset
    /// timeout and the control value of normal operation are written; a
    /// full sequence then leaves initialization mode. The sequence fails
    /// with `Timeout` if initialization mode is not entered within
    /// `UART_POLL_LIMIT` polls after the first, and with `BadBaudRate` if
    /// the baud rate cannot be set.
    pub fn step(&mut self, input: u32) -> (step: UartStep)
        requires
            uart_fits(old(self).data.base),
        ensures
            *final(self) == uart_init_after(*old(self), input),
            step.ops@ == uart_init_ops(*old(self), input),
            step.next == uart_init_next(*old(self), input),
    {
        let base = self.data.base;
        let lincr1: u64 = (base + LINFLEX_LINCR1) as u64;
        let linsr = HwRead::Mmio32 { addr: (base + LINFLEX_LINSR) as u64 };
        let uartcr: u64 = (base + LINFLEX_UARTCR) as u64;
        match self.phase {
            UartInitPhase::Idle => {
                let mut ops: Vec<HwOp> = Vec::new();
                if self.full {
                    ops.push(HwOp::Write32 { addr: lincr1, value: LINCR1_INIT });
                }
                // Set master mode and init mode
                ops.push(HwOp::Write32 { addr: lincr1, value: LINCR1_MME | LINCR1_INIT });
                self.phase = UartInitPhase::AwaitInitMode { polls_left: UART_POLL_LIMIT };
                assert(ops@ =~= init_begin_ops(base, self.full));
                UartStep { ops, next: UartNext::Read { read: linsr } }
            },
            UartInitPhase::AwaitInitMode { polls_left } => {
                // Wait for init mode entry
                if (input & LINSR_LINS_MASK) == LINSR_LINS_INITMODE {
                    self.phase = UartInitPhase::AwaitControl;
                    // Set UART bit
                    UartStep {
                        ops: vec![HwOp::Write32 { addr: uartcr, value: UARTCR_UART }],
                        next: UartNext::Read { read: HwRead::Mmio32 { addr: uartcr } },
                    }
                } else if polls_left == 0 {
                    self.phase = UartInitPhase::Idle;
                    UartStep {
                        ops: Vec::new(),
                        next: UartNext::Failed { error: UartError::Timeout },
                    }
                } else {
                    self.phase = UartInitPhase::AwaitInitMode { polls_left: polls_left - 1 };
                    UartStep { ops: Vec::new(), next: UartNext::Read { read: linsr } }
                }
            },
            UartInitPhase::AwaitControl => {
                // Set baud rate
                match self.data.set_brg(input) {
                    Ok(brg) => {
                        let mut ops = brg;
                        // Set preset timeout register value
                        ops.push(
                            HwOp::Write32 {
                                addr: (base + LINFLEX_UARTPTO) as u64,
                                value: UARTPTO_VALUE,
                            },
                        );
                        // 8-bit data, no parity, Tx/Rx enabled, UART mode, FIFO mode
                        ops.push(HwOp::Write32 { addr: uartcr, value: UARTCR_CONFIG });
                        assert(ops@ =~= init_config_ops(self.data, input));
                        if self.full {
                            self.phase = UartInitPhase::AwaitLincr1;
                            UartStep {
                                ops,
                                next: UartNext::Read { read: HwRead::Mmio32 { addr: lincr1 } },
                            }
                        } else {
                            self.phase = UartInitPhase::Idle;
                            UartStep { ops, next: UartNext::Done }
                        }
                    },
                    Err(error) => {
                        self.phase = UartInitPhase::Idle;
                        UartStep { ops: Vec::new(), next: UartNext::Failed { error } }
                    },
                }
            },
            UartInitPhase::AwaitLincr1 => {
                // End init mode
                self.phase = UartInitPhase::Idle;
                UartStep {
                    ops: vec![HwOp::Write32 { addr: lincr1, value: input & !LINCR1_INIT }],
                    next: UartNext::Done,
                }
            },
        }
    }
}

/// Initialize the LinFLEX UART for console output: the full sequence for
/// the console UART, not yet begun.
pub fn init() -> (init: UartInit)
    ensures
        init == (UartInit {
            data: S32UartData {
                base: UART_BASE,
                len: CONSOLE_UART_SIZE,
                clock: UART_CLOCK_HZ,
                baud: UART_BAUD_RATE,
            },
            full: true,
            phase: UartInitPhase::Idle,
        }),
        uart_fits(init.data.base),
{
    UartInit {
        data: S32UartData::new(UART_BASE, CONSOLE_UART_SIZE, UART_CLOCK_HZ, UART_BAUD_RATE),
        full: true,
        phase: UartInitPhase::Idle,
    }
}

/// Send a single character to UART: one step of its transmission on
/// `chip`.
pub fn putc(chip: &SerialChip, phase: TxPhase, c: u8, input: u32) -> (r: (TxPhase, UartStep))
    requires
        uart_fits(chip.data.base),
    ensures
        r.0 == tx_after(phase, input),
        r.1.ops@ == tx_ops(chip.data.base, phase, c, input),
        r.1.next == tx_next(chip.data.base, phase, input),
{
    chip.putc(phase, c, input)
}

/// What a poll of the console UART does that has not seen what it waits
/// for.
fn uart_poll_again(polls_left: u32, off: usize) -> (next: UartNext)
    requires
        off < CONSOLE_UART_SIZE,
    ensures
        next == poll_again(polls_left, off),
{
    if polls_left == 0 {
        UartNext::Failed { error: UartError::Timeout }
    } else {
        UartNext::Read { read: HwRead::Mmio32 { addr: (UART_BASE + off) as u64 } }
    }
}

/// Wait for the transmit buffer to be empty, one step at a time; the
/// steps of a flush in buffer mode.
///
/// The control register is read. In FIFO mode the status is polled until
/// its transmission flag is clear; in buffer mode until the flag is set,
/// and then the flag is cleared.
fn uart_wait_tx_complete(phase: FlushPhase, input: u32) -> (r: (FlushPhase, UartStep))
    requires
        phase is AwaitMode || phase is AwaitFlagClear || phase is AwaitFlagSet,
    ensures
        r.0 == flush_after(phase, input),
        r.1.ops@ == flush_ops(phase, input),
        r.1.next == flush_next(phase, input),
{
    let status = HwRead::Mmio32 { addr: (UART_BASE + LINFLEX_UARTSR) as u64 };
    match phase {
        FlushPhase::AwaitFlagClear { polls_left } => {
            // FIFO mode - wait for DTF flag to clear
            if (input & UARTSR_DTF) == 0 {
                (FlushPhase::Idle, UartStep { ops: Vec::new(), next: UartNext::Done })
            } else if polls_left == 0 {
                (
                    FlushPhase::Idle,
                    UartStep { ops: Vec::new(), next: uart_poll_again(polls_left, LINFLEX_UARTSR) },
                )
            } else {
                (
                    FlushPhase::AwaitFlagClear { polls_left: polls_left - 1 },
                    UartStep { ops: Vec::new(), next: uart_poll_again(polls_left, LINFLEX_UARTSR) },
                )
            }
        },
        FlushPhase::AwaitFlagSet { polls_left } => {
            // Buffer mode - wait for DTF flag to set, then clear it
            if (input & UARTSR_DTF) != 0 {
                (
                    FlushPhase::Idle,
                    UartStep {
                        ops: vec![
                            HwOp::Write32 {
                                addr: (UART_BASE + LINFLEX_UARTSR) as u64,
                                value: UARTSR_DTF,
                            },
                        ],
                        next: UartNext::Done,
                    },
                )
            } else if polls_left == 0 {
                (
                    FlushPhase::Idle,
                    UartStep { ops: Vec::new(), next: uart_poll_again(polls_left, LINFLEX_UARTSR) },
                )
            } else {
                (
                    FlushPhase::AwaitFlagSet { polls_left: polls_left - 1 },
                    UartStep { ops: Vec::new(), next: uart_poll_again(polls_left, LINFLEX_UARTSR) },
                )
            }
        },
        _ => {
            // Check if FIFO mode or buffer mode
            if (input & UARTCR_TFBM) != 0 {
                (
                    FlushPhase::AwaitFlagClear { polls_left: UART_POLL_LIMIT },
                    UartStep { ops: Vec::new(), next: UartNext::Read { read: status } },
                )
            } else {
                (
                    FlushPhase::AwaitFlagSet { polls_left: UART_POLL_LIMIT },
                    UartStep { ops: Vec::new(), next: UartNext::Read { read: status } },
                )
            }
        },
    }
}

/// Flush the transmit buffer of the console UART, one step at a time.
///
/// The first step asks for the control register. In FIFO mode the control
/// register is polled until the transmit FIFO counter is zero; in buffer
/// mode the control register is read once more and the status is polled:
/// in FIFO mode until its transmission flag is clear, else until the flag
/// is set, and then the flag is cleared. A wait gives up with `Timeout` after
/// `UART_POLL_LIMIT` polls beyond the first.
pub fn flush(phase: FlushPhase, input: u32) -> (r: (FlushPhase, UartStep))
    ensures
        r.0 == flush_after(phase, input),
        r.1.ops@ == flush_ops(phase, input),
        r.1.next == flush_next(phase, input),
{
    let control = HwRead::Mmio32 { addr: (UART_BASE + LINFLEX_UARTCR) as u64 };
    match phase {
        FlushPhase::Idle => (
            FlushPhase::AwaitControl,
            UartStep { ops: Vec::new(), next: UartNext::Read { read: control } },
        ),
        FlushPhase::AwaitControl => {
            // Check if FIFO mode or buffer mode
            if (input & UARTCR_TFBM) != 0 {
                (
                    FlushPhase::FifoDrain { polls_left: UART_POLL_LIMIT },
                    UartStep { ops: Vec::new(), next: UartNext::Read { read: control } },
                )
            } else {
                // In buffer mode, just ensure the last character was sent
                (
                    FlushPhase::AwaitMode,
                    UartStep { ops: Vec::new(), next: UartNext::Read { read: control } },
                )
            }
        },
        FlushPhase::FifoDrain { polls_left } => {
            // In FIFO mode, wait until TFC counter is zero
            if (input & UARTCR_TFC) == 0 {
                (FlushPhase::Idle, UartStep { ops: Vec::new(), next: UartNext::Done })
            } else if polls_left == 0 {
                (
                    FlushPhase::Idle,
                    UartStep { ops: Vec::new(), next: uart_poll_again(polls_left, LINFLEX_UARTCR) },
                )
            } else {
                (
                    FlushPhase::FifoDrain { polls_left: polls_left - 1 },
                    UartStep { ops: Vec::new(), next: uart_poll_again(polls_left, LINFLEX_UARTCR) },
                )
            }
        },
        _ => uart_wait_tx_complete(phase, input),
    }
}

/// Print the banner that the system is initialized.
pub fn print_init_complete() -> (ops: Vec<ConsoleOp>)
    ensures
        ops@ == puts_ops(INIT_COMPLETE_BANNER.spec_bytes()),
{
    puts(INIT_COMPLETE_BANNER)
}

/// A transmission ends: a step that asks for a read leaves fewer polls to
/// make than there were, so no byte takes more than `UART_POLL_LIMIT + 3`
/// steps, whatever the reads return.
pub proof fn lemma_tx_progress(base: usize, phase: TxPhase, input: u32)
    requires
        tx_next(base, phase, input) is Read,
        phase matches TxPhase::FifoPoll { polls_left, .. } ==> polls_left <= UART_POLL_LIMIT,
        phase matches TxPhase::BufferDrain { polls_left } ==> polls_left <= UART_POLL_LIMIT,
    ensures
        tx_polls_left(tx_after(phase, input)) < tx_polls_left(phase),
        tx_polls_left(phase) <= UART_POLL_LIMIT + 3,
{
}

/// A flush ends: a step that asks for a read leaves fewer steps to take
/// than there were, so no flush takes more than `UART_POLL_LIMIT + 4`
/// steps, whatever the reads return.
pub proof fn lemma_flush_progress(phase: FlushPhase, input: u32)
    requires
        flush_next(phase, input) is Read,
        phase matches FlushPhase::FifoDrain { polls_left } ==> polls_within_limit(polls_left),
        phase matches FlushPhase::AwaitFlagClear { polls_left } ==> polls_within_limit(polls_left),
        phase matches FlushPhase::AwaitFlagSet { polls_left } ==> polls_within_limit(polls_left),
    ensures
        flush_steps_left(flush_after(phase, input)) < flush_steps_left(phase),
        flush_steps_left(phase) <= UART_POLL_LIMIT + 4,
{
}

/// An initialization ends: a step that asks for a read leaves fewer steps
/// to take than there were, so no initialization takes more than
/// `UART_POLL_LIMIT + 4` steps, whatever the reads return.
pub proof fn lemma_uart_init_progress(init: UartInit, input: u32)
    requires
        uart_init_next(init, input) is Read,
        init.phase matches UartInitPhase::AwaitInitMode { polls_left } ==> polls_within_limit(
            polls_left,
        ),
    ensures
        uart_init_steps_left(uart_init_after(init, input).phase) < uart_init_steps_left(init.phase),
        uart_init_steps_left(init.phase) <= UART_POLL_LIMIT + 4,
{
}

} // verus!
