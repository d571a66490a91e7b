//! System timer of the S32G3: the tick counter and busy delays measured on
//! the free-running counter of STM0.

use crate::arch::aarch64::{HwOp, HwRead};
use crate::arch::s32g3::{S32G_CLOCK_FREQ, S32G_STM0_BASE, S32G_STM_CMP0, S32G_STM_CNT, S32G_STM_CR};
use vstd::prelude::*;

verus! {

/// Counter ticks per microsecond.
pub const TICKS_PER_US: u32 = 80;

/// The longest delay of one round, in microseconds: its ticks still fit
/// the 32-bit counter.
pub const MAX_DELAY_US: u32 = 53_687_091;

/// Microseconds of one round of a delay given in milliseconds.
pub const US_PER_MS: u32 = 1000;

/// System tick counter
pub struct SystemTimer {
    ticks: u64,
}

impl View for SystemTimer {
    type V = u64;

    closed spec fn view(&self) -> u64 {
        self.ticks
    }
}

impl SystemTimer {
    /// A tick counter at zero.
    pub fn new() -> (timer: Self)
        ensures
            timer@ == 0,
    {
        SystemTimer { ticks: 0 }
    }
}

/// A busy delay under way: `rounds_left` rounds of `ticks_per_round`
/// counter ticks each, the current one begun when the counter read
/// `round_start`.
#[derive(Clone, Copy, Debug, PartialEq, Eq, Structural)]
pub struct Delay {
    pub rounds_left: u32,
    pub ticks_per_round: u32,
    pub round_start: u32,
}

/// Counter ticks from `start` to `now` on a counter that wraps at 32 bits.
pub open spec fn elapsed(start: u32, now: u32) -> int {
    if now >= start {
        now - start
    } else {
        now - start + 0x1_0000_0000
    }
}

/// Whether the current round of `delay` is over when the counter reads
/// `now`.
pub open spec fn round_over(delay: Delay, now: u32) -> bool {
    elapsed(delay.round_start, now) >= delay.ticks_per_round
}

/// The delay after it has seen the counter read `now`: if the current
/// round is over, one round fewer is left and the next begins at `now`.
pub open spec fn delay_after(delay: Delay, now: u32) -> Delay {
    if delay.rounds_left > 0 && round_over(delay, now) {
        Delay { rounds_left: (delay.rounds_left - 1) as u32, round_start: now, ..delay }
    } else {
        delay
    }
}

/// Initialize the system timer: enable it free-running, and set the compare
/// value for a tick each millisecond.
pub fn init() -> (ops: Vec<HwOp>)
    ensures
        ops@ == seq![
            HwOp::Write32 { addr: (S32G_STM0_BASE + S32G_STM_CR) as u64, value: 1 },
            HwOp::Write32 {
                addr: (S32G_STM0_BASE + S32G_STM_CMP0) as u64,
                value: (S32G_CLOCK_FREQ / 1000) as u32,
            },
        ],
{
    vec![
        HwOp::Write32 { addr: S32G_STM0_BASE + S32G_STM_CR, value: 0x1 },
        HwOp::Write32 { addr: S32G_STM0_BASE + S32G_STM_CMP0, value: (S32G_CLOCK_FREQ / 1000) as u32 },
    ]
}

/// Read the system timer counter
pub fn get_system_ticks(timer: &SystemTimer) -> (ticks: u64)
    ensures
        ticks == timer@,
{
    timer.ticks
}

/// Update the system timer (would be called by timer interrupt handler)
pub fn update_system_ticks(timer: &mut SystemTimer, ticks: u64)
    ensures
        final(timer)@ == ticks,
{
    timer.ticks = ticks;
}

/// Increment the system timer (called by timer interrupt handler). The
/// counter wraps to zero after its largest value.
pub fn increment_system_ticks(timer: &mut SystemTimer)
    ensures
        final(timer)@ == if old(timer)@ == u64::MAX {
            0
        } else {
            old(timer)@ + 1
        },
{
    timer.ticks = timer.ticks.wrapping_add(1);
}

/// The read of the raw STM counter value.
pub fn get_raw_counter() -> (read: HwRead)
    ensures
        read == (HwRead::Mmio32 { addr: (S32G_STM0_BASE + S32G_STM_CNT) as u64 }),
{
    HwRead::Mmio32 { addr: S32G_STM0_BASE + S32G_STM_CNT }
}

/// Delay for a specified number of microseconds, begun when the raw
/// counter read `now`: one round of eighty ticks for each microsecond.
pub fn delay_us(us: u32, now: u32) -> (delay: Delay)
    requires
        us <= MAX_DELAY_US,
    ensures
        delay == (Delay {
            rounds_left: 1,
            ticks_per_round: (TICKS_PER_US * us) as u32,
            round_start: now,
        }),
{
    let ticks_to_wait: u32 = (S32G_CLOCK_FREQ as u32 / 1_000_000) * us;
    Delay { rounds_left: 1, ticks_per_round: ticks_to_wait, round_start: now }
}

/// Delay for a specified number of milliseconds, begun when the raw
/// counter read `now`: one round of a thousand microseconds for each.
pub fn delay_ms(ms: u32, now: u32) -> (delay: Delay)
    ensures
        delay == (Delay {
            rounds_left: ms,
            ticks_per_round: (TICKS_PER_US * US_PER_MS) as u32,
            round_start: now,
        }),
{
    Delay { rounds_left: ms, ticks_per_round: TICKS_PER_US * US_PER_MS, round_start: now }
}

/// Show a delay the raw counter. Returns whether the delay is over; until
/// then the caller pauses and polls again with a new reading.
pub fn delay_poll(delay: &mut Delay, now: u32) -> (done: bool)
    ensures
        *final(delay) == delay_after(*old(delay), now),
        done == (final(delay).rounds_left == 0),
{
    if delay.rounds_left == 0 {
        return true;
    }
    if now.wrapping_sub(delay.round_start) >= delay.ticks_per_round {
        delay.rounds_left = delay.rounds_left - 1;
        delay.round_start = now;
    }
    delay.rounds_left == 0
}

/// A delay never grows: polling leaves no more rounds than there were, and
/// a round whose ticks have elapsed since its start is taken off.
pub proof fn lemma_delay_progress(delay: Delay, now: u32)
    ensures
        delay_after(delay, now).rounds_left <= delay.rounds_left,
        delay_after(delay, now).ticks_per_round == delay.ticks_per_round,
        delay.rounds_left > 0 && elapsed(delay.round_start, now) >= delay.ticks_per_round
            ==> delay_after(delay, now).rounds_left == delay.rounds_left - 1,
{
}

} // verus!
