//! Privileged-mode core of a multi-core AArch64 bring-up image for the S32G3.
//!
//! The crate holds the decisions of that core as verified functions on plain
//! values: decoding processor affinity, computing the interrupt controller's
//! register accesses, classifying exceptions, and tracking the power state of
//! each core across secure-monitor calls. Nothing here touches the machine.
//! A function that would write a register returns the write as an
//! [`arch::aarch64::HwOp`]; a function that depends on a register's content
//! takes the value read as an argument; a sequence that reads and writes in
//! turn is a step function that is called once for each read.
//!
//! - [`arch`]: processor primitives, the interrupt controller, the exception
//!   dispatcher, the secure-monitor bridge, supervisor calls, the platform's
//!   timer.
//! - [`drivers`]: the console UART.
//! - [`freertos`]: a small scheduler: tasks, ticks and queues.

pub mod arch;
pub mod drivers;
pub mod freertos;
