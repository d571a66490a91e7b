//! Secure-monitor bridge: the PSCI calls that switch cores on and off, and
//! the table of per-core power states and boot parameters behind them.

use crate::arch::aarch64::{HwOp, DAIF_ALL};
use crate::arch::gic::{resolve, GicV3Driver, InvalidAffinity};
use vstd::prelude::*;

verus! {

// SMC function numbers (ARM PSCI)
pub const SMC_PSCI_VERSION: u64 = 0x84000000;
pub const SMC_CPU_ON: u64 = 0x84000003;
pub const SMC_CPU_OFF: u64 = 0x84000002;
pub const SMC_SYSTEM_RESET: u64 = 0x84000009;
pub const SMC_AFFINITY_INFO: u64 = 0x84000004;

/// Maximum number of cores on S32G3
pub const NUM_CORES: usize = 8;

/// The core that runs from reset and switches the others on.
pub const BOOT_CORE: usize = 0;

/// Result of `SMC_PSCI_VERSION`: PSCI version 1.1.
pub const PSCI_VERSION: u64 = 0x00010001;
/// Result of a call that did what it was asked.
pub const PSCI_SUCCESS: u64 = 0;
/// Result of a call that names a core the platform does not have.
pub const PSCI_INVALID_PARAMETERS: u64 = 0xFFFFFFFF;
/// Result of `SMC_CPU_ON` for a core that is not off.
pub const PSCI_ALREADY_ON: u64 = 0xFFFFFFFE;
/// Result of a call with a function identifier that is not recognized.
pub const PSCI_NOT_SUPPORTED: u64 = 0xFFFFFFFF;
/// Result of `SMC_AFFINITY_INFO` for a core that is on or being switched on.
pub const AFFINITY_INFO_ON: u64 = 0;
/// Result of `SMC_AFFINITY_INFO` for a core that is off.
pub const AFFINITY_INFO_OFF: u64 = 1;

/// Number of times a parked core looks for its release before it gives up.
pub const RELEASE_POLL_LIMIT: u32 = 1_000_000;

/// Power state of one core.
#[derive(Clone, Copy, Debug, PartialEq, Eq, Structural)]
pub enum CorePowerState {
    /// Parked; may be switched on.
    Off,
    /// Switched on, boot parameters recorded, not yet through its startup.
    Pending,
    /// Running.
    On,
}

/// Boot parameters of a secondary core: where it starts and what it is
/// handed.
#[derive(Clone, Copy, Debug, PartialEq, Eq, Structural)]
pub struct CoreBootParams {
    pub entry_point: u64,
    pub context_id: u64,
}

/// How a secure-monitor call ended.
#[derive(Clone, Copy, Debug, PartialEq, Eq, Structural)]
pub enum SmcStatus {
    /// `SMC_PSCI_VERSION`: the version is the result.
    Version,
    /// The call did what it was asked.
    Success,
    /// `SMC_CPU_ON` for a core that is not off.
    AlreadyOn,
    /// The call names a core the platform does not have.
    InvalidTarget,
    /// The function identifier is not recognized.
    NotSupported,
    /// `SMC_AFFINITY_INFO`: the core is on or being switched on.
    CoreOn,
    /// `SMC_AFFINITY_INFO`: the core is off.
    CoreOff,
}

/// What the platform is to do after a secure-monitor call, before the
/// result is returned to the caller.
#[derive(Clone, Copy, Debug, PartialEq, Eq, Structural)]
pub enum PlatformAction {
    /// Nothing.
    Nothing,
    /// Release the core `target` from its wait loop.
    ReleaseCore { target: u64 },
    /// Power the calling core down; this may not return.
    PowerDown,
    /// Reset the system; this does not return.
    SystemReset,
}

/// Result of a secure-monitor call.
#[derive(Clone, Copy, Debug, PartialEq, Eq, Structural)]
pub struct SmcReply {
    /// How the call ended.
    pub status: SmcStatus,
    /// The value for the caller's result register.
    pub result: u64,
    /// What the platform is to do.
    pub action: PlatformAction,
}

/// What a parked core finds when it looks for its release.
#[derive(Clone, Copy, Debug, PartialEq, Eq, Structural)]
pub enum ReleasePoll {
    /// The core was switched on: it starts at `entry_point` with
    /// `context_id`.
    Released { entry_point: u64, context_id: u64 },
    /// Not switched on: wait for an event and look again, at most
    /// `polls_left` more times.
    Wait { polls_left: u32 },
    /// Not switched on, and no poll is left.
    TimedOut,
}

/// A secure-monitor call: the core that makes it, the function identifier
/// and three arguments.
#[derive(Clone, Copy, Debug, PartialEq, Eq, Structural)]
pub struct SmcCall {
    pub caller: u64,
    pub function_id: u64,
    pub arg0: u64,
    pub arg1: u64,
    pub arg2: u64,
}

/// The core lifecycle table as a plain value: the power state and the boot
/// parameters of each core, by core number.
pub struct LifecycleView {
    pub states: Seq<CorePowerState>,
    pub boot_params: Seq<CoreBootParams>,
}

/// The table has one power state and one set of boot parameters per core.
pub open spec fn table_wf(table: LifecycleView) -> bool {
    table.states.len() == NUM_CORES && table.boot_params.len() == NUM_CORES
}

/// The table at reset: the boot core on, every other core off, no boot
/// parameters recorded.
pub open spec fn initial_table() -> LifecycleView {
    LifecycleView {
        states: Seq::new(
            NUM_CORES as nat,
            |i: int|
                if i == BOOT_CORE {
                    CorePowerState::On
                } else {
                    CorePowerState::Off
                },
        ),
        boot_params: Seq::new(
            NUM_CORES as nat,
            |i: int| CoreBootParams { entry_point: 0, context_id: 0 },
        ),
    }
}

/// The value for the result register of a call that ended with `status`.
pub open spec fn status_code(status: SmcStatus) -> u64 {
    match status {
        SmcStatus::Version => PSCI_VERSION,
        SmcStatus::Success => PSCI_SUCCESS,
        SmcStatus::AlreadyOn => PSCI_ALREADY_ON,
        SmcStatus::InvalidTarget => PSCI_INVALID_PARAMETERS,
        SmcStatus::NotSupported => PSCI_NOT_SUPPORTED,
        SmcStatus::CoreOn => AFFINITY_INFO_ON,
        SmcStatus::CoreOff => AFFINITY_INFO_OFF,
    }
}

/// The operations that carry out what the platform is to do after a call,
/// as far as they are the same on every platform: a released core is woken
/// by an event, after a barrier that makes its boot parameters visible to
/// it; a core that powers down masks every exception first. What remains
/// is left to the platform: to wait for the power to go, or for the reset.
pub open spec fn platform_ops(action: PlatformAction) -> Seq<HwOp> {
    match action {
        PlatformAction::Nothing => Seq::empty(),
        PlatformAction::ReleaseCore { target } => seq![HwOp::Dsb, HwOp::Sev],
        PlatformAction::PowerDown => seq![HwOp::DaifSet { mask: DAIF_ALL }, HwOp::Isb, HwOp::Dsb],
        PlatformAction::SystemReset => seq![HwOp::Dsb],
    }
}

/// How `call` ends when made on `table`.
pub open spec fn smc_status(table: LifecycleView, call: SmcCall) -> SmcStatus {
    if call.function_id == SMC_PSCI_VERSION {
        SmcStatus::Version
    } else if call.function_id == SMC_CPU_ON {
        if call.arg0 >= NUM_CORES {
            SmcStatus::InvalidTarget
        } else if table.states[call.arg0 as int] != CorePowerState::Off {
            SmcStatus::AlreadyOn
        } else {
            SmcStatus::Success
        }
    } else if call.function_id == SMC_CPU_OFF {
        if call.caller >= NUM_CORES {
            SmcStatus::InvalidTarget
        } else {
            SmcStatus::Success
        }
    } else if call.function_id == SMC_SYSTEM_RESET {
        SmcStatus::Success
    } else if call.function_id == SMC_AFFINITY_INFO {
        if call.arg0 >= NUM_CORES {
            SmcStatus::InvalidTarget
        } else if table.states[call.arg0 as int] != CorePowerState::Off {
            SmcStatus::CoreOn
        } else {
            SmcStatus::CoreOff
        }
    } else {
        SmcStatus::NotSupported
    }
}

/// What the platform is to do after `call` made on `table`.
pub open spec fn smc_action(table: LifecycleView, call: SmcCall) -> PlatformAction {
    if smc_status(table, call) != SmcStatus::Success {
        PlatformAction::Nothing
    } else if call.function_id == SMC_CPU_ON {
        PlatformAction::ReleaseCore { target: call.arg0 }
    } else if call.function_id == SMC_CPU_OFF {
        PlatformAction::PowerDown
    } else {
        PlatformAction::SystemReset
    }
}

/// The table after `call` made on `table`. Only a successful `SMC_CPU_ON`
/// and a successful `SMC_CPU_OFF` change it: the first records the boot
/// parameters of its target and makes it pending, the second switches the
/// calling core off.
pub open spec fn smc_next(table: LifecycleView, call: SmcCall) -> LifecycleView {
    if smc_status(table, call) != SmcStatus::Success {
        table
    } else if call.function_id == SMC_CPU_ON {
        LifecycleView {
            states: table.states.update(call.arg0 as int, CorePowerState::Pending),
            boot_params: table.boot_params.update(
                call.arg0 as int,
                CoreBootParams { entry_point: call.arg1, context_id: call.arg2 },
            ),
        }
    } else if call.function_id == SMC_CPU_OFF {
        LifecycleView {
            states: table.states.update(call.caller as int, CorePowerState::Off),
            ..table
        }
    } else {
        table
    }
}

/// The whole result of `call` made on `table`.
pub open spec fn smc_reply(table: LifecycleView, call: SmcCall) -> SmcReply {
    SmcReply {
        status: smc_status(table, call),
        result: status_code(smc_status(table, call)),
        action: smc_action(table, call),
    }
}

/// The table after core `core_id` reports that its startup is complete: a
/// pending core is on from then; any other report changes nothing.
pub open spec fn online_next(table: LifecycleView, core_id: u64) -> LifecycleView {
    if core_id < NUM_CORES && table.states[core_id as int] == CorePowerState::Pending {
        LifecycleView { states: table.states.update(core_id as int, CorePowerState::On), ..table }
    } else {
        table
    }
}

/// The boot parameters that core `core_id` reads at its startup: those the
/// table holds for it, and zeros for a core the platform does not have.
pub open spec fn boot_params_of(table: LifecycleView, core_id: u64) -> (u64, u64) {
    if core_id < NUM_CORES {
        (table.boot_params[core_id as int].entry_point, table.boot_params[core_id as int].context_id)
    } else {
        (0, 0)
    }
}

/// What core `core_id` finds when it looks for its release with
/// `polls_left` more polls to go: it is released if it is pending, with the
/// boot parameters recorded for it.
pub open spec fn release_poll_of(table: LifecycleView, core_id: u64, polls_left: u32) -> ReleasePoll {
    if core_id < NUM_CORES && table.states[core_id as int] == CorePowerState::Pending {
        ReleasePoll::Released {
            entry_point: table.boot_params[core_id as int].entry_point,
            context_id: table.boot_params[core_id as int].context_id,
        }
    } else if polls_left == 0 {
        ReleasePoll::TimedOut
    } else {
        ReleasePoll::Wait { polls_left: (polls_left - 1) as u32 }
    }
}

/// Shared table of per-core power state and pending boot parameters.
pub struct CoreLifecycle {
    states: Vec<CorePowerState>,
    boot_params: Vec<CoreBootParams>,
}

impl View for CoreLifecycle {
    type V = LifecycleView;

    closed spec fn view(&self) -> LifecycleView {
        LifecycleView { states: self.states@, boot_params: self.boot_params@ }
    }
}

impl CoreLifecycle {
    /// The table's invariant.
    pub open spec fn wf(&self) -> bool {
        table_wf(self@)
    }

    /// The table at reset.
    pub fn new() -> (table: Self)
        ensures
            table.wf(),
            table@ == initial_table(),
    {
        let mut states: Vec<CorePowerState> = Vec::new();
        let mut boot_params: Vec<CoreBootParams> = Vec::new();
        let mut i: usize = 0;
        while i < NUM_CORES
            invariant
                i <= NUM_CORES,
                states@.len() == i,
                boot_params@.len() == i,
                forall|k: int| 0 <= k < i ==> #[trigger] states@[k] == initial_table().states[k],
                forall|k: int|
                    0 <= k < i ==> #[trigger] boot_params@[k] == initial_table().boot_params[k],
            decreases NUM_CORES - i,
        {
            states.push(
                if i == BOOT_CORE {
                    CorePowerState::On
                } else {
                    CorePowerState::Off
                },
            );
            boot_params.push(CoreBootParams { entry_point: 0, context_id: 0 });
            i = i + 1;
        }
        let table = CoreLifecycle { states, boot_params };
        assert(table@.states =~= initial_table().states);
        assert(table@.boot_params =~= initial_table().boot_params);
        table
    }

    /// The power state of core `core_id`, if the platform has it.
    pub fn power_state(&self, core_id: u64) -> (state: Option<CorePowerState>)
        requires
            self.wf(),
        ensures
            state == if core_id < NUM_CORES {
                Some(self@.states[core_id as int])
            } else {
                None
            },
    {
        if core_id < NUM_CORES as u64 {
            Some(self.states[core_id as usize])
        } else {
            None
        }
    }

    /// Core `core_id` reports that its startup is complete. Returns whether
    /// the core was pending, and so is on from now.
    pub fn core_online(&mut self, core_id: u64) -> (changed: bool)
        requires
            old(self).wf(),
        ensures
            final(self).wf(),
            final(self)@ == online_next(old(self)@, core_id),
            changed == (core_id < NUM_CORES && old(self)@.states[core_id as int]
                == CorePowerState::Pending),
    {
        if core_id < NUM_CORES as u64 {
            let index: usize = core_id as usize;
            match self.states[index] {
                CorePowerState::Pending => {
                    self.states.set(index, CorePowerState::On);
                    true
                },
                _ => false,
            }
        } else {
            false
        }
    }
}

/// The operations that carry out what the platform is to do after a
/// secure-monitor call, as far as they are the same on every platform.
pub fn platform_action_ops(action: PlatformAction) -> (ops: Vec<HwOp>)
    ensures
        ops@ == platform_ops(action),
{
    match action {
        PlatformAction::Nothing => Vec::new(),
        PlatformAction::ReleaseCore { target } => vec![HwOp::Dsb, HwOp::Sev],
        PlatformAction::PowerDown => vec![HwOp::DaifSet { mask: DAIF_ALL }, HwOp::Isb, HwOp::Dsb],
        PlatformAction::SystemReset => vec![HwOp::Dsb],
    }
}

/// A parked core looks for its release. It is released once an
/// `SMC_CPU_ON` has made it pending, and then gets the boot parameters of
/// that call; until then it waits, and gives up when no poll is left.
pub fn poll_release(lifecycle: &CoreLifecycle, core_id: u64, polls_left: u32) -> (poll: ReleasePoll)
    requires
        lifecycle.wf(),
    ensures
        poll == release_poll_of(lifecycle@, core_id, polls_left),
{
    if core_id < NUM_CORES as u64 {
        match lifecycle.states[core_id as usize] {
            CorePowerState::Pending => {
                let params = get_secondary_boot_params(lifecycle, core_id);
                return ReleasePoll::Released { entry_point: params.0, context_id: params.1 };
            },
            _ => {},
        }
    }
    if polls_left == 0 {
        ReleasePoll::TimedOut
    } else {
        ReleasePoll::Wait { polls_left: polls_left - 1 }
    }
}

/// The number of the core with this MPIDR: the core position that the
/// MPIDR resolves to. Refused for an MPIDR that resolves to none.
pub fn get_current_core_id(mpidr: u64) -> (r: Result<u64, InvalidAffinity>)
    ensures
        r == match resolve(mpidr) {
            Ok(pos) => Ok::<u64, InvalidAffinity>(pos as u64),
            Err(e) => Err(e),
        },
{
    match GicV3Driver::plat_my_core_pos(mpidr) {
        Ok(pos) => Ok(pos as u64),
        Err(e) => Err(e),
    }
}

/// The SMC handler called from the exception vector.
///
/// `caller` is the number of the core that made the call. The handler
/// returns how the call ended, the value for the caller's result register
/// and what the platform is to do next; it changes the table as the call
/// asks.
///
/// - `SMC_PSCI_VERSION`: the version.
/// - `SMC_CPU_ON`: the target is `arg0`, the whole value. Refused with
///   `InvalidTarget` if the platform has no such core, with `AlreadyOn` if
///   the core is not off. Else `arg1` and `arg2` are recorded as its entry
///   point and context, the core becomes pending, and it is to be released.
/// - `SMC_CPU_OFF`: the calling core becomes off and is to be powered down.
///   Refused with `InvalidTarget` if the platform has no core `caller`.
/// - `SMC_SYSTEM_RESET`: the system is to be reset.
/// - `SMC_AFFINITY_INFO`: whether the target, `arg0`, is off, or on or
///   pending; `InvalidTarget` if there is no such core.
/// - any other identifier: `NotSupported`.
pub fn handle_smc(
    lifecycle: &mut CoreLifecycle,
    caller: u64,
    function_id: u64,
    arg0: u64,
    arg1: u64,
    arg2: u64,
) -> (reply: SmcReply)
    requires
        old(lifecycle).wf(),
    ensures
        final(lifecycle).wf(),
        final(lifecycle)@ == smc_next(
            old(lifecycle)@,
            SmcCall { caller, function_id, arg0, arg1, arg2 },
        ),
        reply == smc_reply(old(lifecycle)@, SmcCall { caller, function_id, arg0, arg1, arg2 }),
{
    if function_id == SMC_PSCI_VERSION {
        // Return PSCI version 1.1
        SmcReply { status: SmcStatus::Version, result: PSCI_VERSION, action: PlatformAction::Nothing }
    } else if function_id == SMC_CPU_ON {
        let target_cpu: u64 = arg0;
        let entry_point = arg1;
        let context_id = arg2;
        if target_cpu >= NUM_CORES as u64 {
            return SmcReply {
                status: SmcStatus::InvalidTarget,
                result: PSCI_INVALID_PARAMETERS,
                action: PlatformAction::Nothing,
            };
        }
        let index: usize = target_cpu as usize;
        match lifecycle.states[index] {
            CorePowerState::Off => {},
            _ => {
                return SmcReply {
                    status: SmcStatus::AlreadyOn,
                    result: PSCI_ALREADY_ON,
                    action: PlatformAction::Nothing,
                };
            },
        }
        // Store the entry point and context ID
        lifecycle.boot_params.set(index, CoreBootParams { entry_point, context_id });
        lifecycle.states.set(index, CorePowerState::Pending);
        SmcReply {
            status: SmcStatus::Success,
            result: PSCI_SUCCESS,
            action: PlatformAction::ReleaseCore { target: target_cpu },
        }
    } else if function_id == SMC_CPU_OFF {
        let this_cpu = caller;
        if this_cpu >= NUM_CORES as u64 {
            return SmcReply {
                status: SmcStatus::InvalidTarget,
                result: PSCI_INVALID_PARAMETERS,
                action: PlatformAction::Nothing,
            };
        }
        // Mark core as inactive
        lifecycle.states.set(this_cpu as usize, CorePowerState::Off);
        SmcReply {
            status: SmcStatus::Success,
            result: PSCI_SUCCESS,
            action: PlatformAction::PowerDown,
        }
    } else if function_id == SMC_SYSTEM_RESET {
        SmcReply {
            status: SmcStatus::Success,
            result: PSCI_SUCCESS,
            action: PlatformAction::SystemReset,
        }
    } else if function_id == SMC_AFFINITY_INFO {
        let target_cpu: u64 = arg0;
        if target_cpu >= NUM_CORES as u64 {
            return SmcReply {
                status: SmcStatus::InvalidTarget,
                result: PSCI_INVALID_PARAMETERS,
                action: PlatformAction::Nothing,
            };
        }
        match lifecycle.states[target_cpu as usize] {
            CorePowerState::Off => SmcReply {
                status: SmcStatus::CoreOff,
                result: AFFINITY_INFO_OFF,
                action: PlatformAction::Nothing,
            },
            _ => SmcReply {
                status: SmcStatus::CoreOn,
                result: AFFINITY_INFO_ON,
                action: PlatformAction::Nothing,
            },
        }
    } else {
        SmcReply {
            status: SmcStatus::NotSupported,
            result: PSCI_NOT_SUPPORTED,
            action: PlatformAction::Nothing,
        }
    }
}

/// Function to get secondary core boot parameters.
/// Called during secondary core boot process.
pub fn get_secondary_boot_params(lifecycle: &CoreLifecycle, core_id: u64) -> (params: (u64, u64))
    requires
        lifecycle.wf(),
    ensures
        params == boot_params_of(lifecycle@, core_id),
{
    if core_id < NUM_CORES as u64 {
        let params = &lifecycle.boot_params[core_id as usize];
        (params.entry_point, params.context_id)
    } else {
        (0, 0)
    }
}

/// Something that changes the core lifecycle table, or may.
pub enum LifecycleEvent {
    /// A secure-monitor call.
    Smc { call: SmcCall },
    /// Core `core_id` reports that its startup is complete.
    Online { core_id: u64 },
}

/// The table after `event`.
pub open spec fn apply(table: LifecycleView, event: LifecycleEvent) -> LifecycleView {
    match event {
        LifecycleEvent::Smc { call } => smc_next(table, call),
        LifecycleEvent::Online { core_id } => online_next(table, core_id),
    }
}

/// The table after `events`, in order.
pub open spec fn run(table: LifecycleView, events: Seq<LifecycleEvent>) -> LifecycleView
    decreases events.len(),
{
    if events.len() == 0 {
        table
    } else {
        apply(run(table, events.drop_last()), events.last())
    }
}

/// `event` is an `SMC_CPU_OFF` made by core `core`.
pub open spec fn is_cpu_off_by(event: LifecycleEvent, core: int) -> bool {
    event matches LifecycleEvent::Smc { call } && call.function_id == SMC_CPU_OFF && call.caller
        == core
}

/// `event` is an `SMC_CPU_ON` for core `core`.
pub open spec fn is_cpu_on_for(event: LifecycleEvent, core: int) -> bool {
    event matches LifecycleEvent::Smc { call } && call.function_id == SMC_CPU_ON && call.arg0 == core
}

/// No event of `events`, run from `table`, is an `SMC_CPU_ON` for `core`
/// that succeeds.
pub open spec fn no_successful_cpu_on(
    table: LifecycleView,
    events: Seq<LifecycleEvent>,
    core: int,
) -> bool
    decreases events.len(),
{
    events.len() == 0 || {
        &&& no_successful_cpu_on(table, events.drop_last(), core)
        &&& !(is_cpu_on_for(events.last(), core) && smc_status(
            run(table, events.drop_last()),
            events.last()->call,
        ) == SmcStatus::Success)
    }
}

/// Every event leaves the table with one entry per core.
pub proof fn lemma_run_wf(table: LifecycleView, events: Seq<LifecycleEvent>)
    requires
        table_wf(table),
    ensures
        table_wf(run(table, events)),
    decreases events.len(),
{
    if events.len() > 0 {
        lemma_run_wf(table, events.drop_last());
    }
}

/// A core that is not off stays so until it switches itself off.
pub proof fn lemma_stays_on(table: LifecycleView, events: Seq<LifecycleEvent>, core: int)
    requires
        table_wf(table),
        0 <= core < NUM_CORES,
        table.states[core] != CorePowerState::Off,
        forall|i: int| 0 <= i < events.len() ==> !is_cpu_off_by(#[trigger] events[i], core),
    ensures
        run(table, events).states[core] != CorePowerState::Off,
    decreases events.len(),
{
    if events.len() > 0 {
        lemma_run_wf(table, events.drop_last());
        lemma_stays_on(table, events.drop_last(), core);
        assert(!is_cpu_off_by(events[events.len() - 1], core));
    }
}

/// A core that is off stays so until an `SMC_CPU_ON` names it.
pub proof fn lemma_stays_off(table: LifecycleView, events: Seq<LifecycleEvent>, core: int)
    requires
        table_wf(table),
        0 <= core < NUM_CORES,
        table.states[core] == CorePowerState::Off,
        forall|i: int| 0 <= i < events.len() ==> !is_cpu_on_for(#[trigger] events[i], core),
    ensures
        run(table, events).states[core] == CorePowerState::Off,
    decreases events.len(),
{
    if events.len() > 0 {
        lemma_run_wf(table, events.drop_last());
        lemma_stays_off(table, events.drop_last(), core);
        assert(!is_cpu_on_for(events[events.len() - 1], core));
    }
}

/// The boot parameters of a core change only by an `SMC_CPU_ON` for it
/// that succeeds.
pub proof fn lemma_boot_params_kept(table: LifecycleView, events: Seq<LifecycleEvent>, core: int)
    requires
        table_wf(table),
        0 <= core < NUM_CORES,
        no_successful_cpu_on(table, events, core),
    ensures
        run(table, events).boot_params[core] == table.boot_params[core],
    decreases events.len(),
{
    if events.len() > 0 {
        lemma_run_wf(table, events.drop_last());
        lemma_boot_params_kept(table, events.drop_last(), core);
    }
}

/// `SMC_CPU_ON` guards against a second request: for a core that is off
/// the call succeeds, and as long as that core does not switch itself off,
/// whatever else happens, a further `SMC_CPU_ON` for it from any core ends
/// with `AlreadyOn` and changes nothing.
pub proof fn lemma_cpu_on_guard(
    table: LifecycleView,
    first: SmcCall,
    events: Seq<LifecycleEvent>,
    second: SmcCall,
)
    requires
        table_wf(table),
        first.function_id == SMC_CPU_ON,
        second.function_id == SMC_CPU_ON,
        first.arg0 < NUM_CORES,
        second.arg0 == first.arg0,
        table.states[first.arg0 as int] == CorePowerState::Off,
        forall|i: int|
            0 <= i < events.len() ==> !is_cpu_off_by(#[trigger] events[i], first.arg0 as int),
    ensures
        smc_reply(table, first).status == SmcStatus::Success,
        smc_reply(table, first).result == PSCI_SUCCESS,
        smc_reply(run(smc_next(table, first), events), second).status == SmcStatus::AlreadyOn,
        smc_reply(run(smc_next(table, first), events), second).result == PSCI_ALREADY_ON,
        smc_next(run(smc_next(table, first), events), second) == run(
            smc_next(table, first),
            events,
        ),
{
    lemma_stays_on(smc_next(table, first), events, first.arg0 as int);
}

/// `SMC_AFFINITY_INFO` follows the lifecycle: after an `SMC_CPU_ON` that
/// succeeded, and as long as its target does not switch itself off, the
/// target is reported on.
pub proof fn lemma_affinity_info_on(
    table: LifecycleView,
    on: SmcCall,
    events: Seq<LifecycleEvent>,
    query: SmcCall,
)
    requires
        table_wf(table),
        on.function_id == SMC_CPU_ON,
        smc_status(table, on) == SmcStatus::Success,
        query.function_id == SMC_AFFINITY_INFO,
        query.arg0 == on.arg0,
        forall|i: int|
            0 <= i < events.len() ==> !is_cpu_off_by(#[trigger] events[i], on.arg0 as int),
    ensures
        smc_reply(run(smc_next(table, on), events), query).status == SmcStatus::CoreOn,
        smc_reply(run(smc_next(table, on), events), query).result == AFFINITY_INFO_ON,
{
    lemma_stays_on(smc_next(table, on), events, on.arg0 as int);
}

/// `SMC_AFFINITY_INFO` follows the lifecycle: a core other than the boot
/// core is reported off from reset until an `SMC_CPU_ON` names it.
pub proof fn lemma_affinity_info_off_at_reset(events: Seq<LifecycleEvent>, query: SmcCall)
    requires
        query.function_id == SMC_AFFINITY_INFO,
        query.arg0 < NUM_CORES,
        query.arg0 != BOOT_CORE,
        forall|i: int|
            0 <= i < events.len() ==> !is_cpu_on_for(#[trigger] events[i], query.arg0 as int),
    ensures
        smc_reply(run(initial_table(), events), query).status == SmcStatus::CoreOff,
        smc_reply(run(initial_table(), events), query).result == AFFINITY_INFO_OFF,
{
    lemma_stays_off(initial_table(), events, query.arg0 as int);
}

/// `SMC_AFFINITY_INFO` follows the lifecycle: after a core switched itself
/// off it is reported off until an `SMC_CPU_ON` names it.
pub proof fn lemma_affinity_info_off_after_cpu_off(
    table: LifecycleView,
    off: SmcCall,
    events: Seq<LifecycleEvent>,
    query: SmcCall,
)
    requires
        table_wf(table),
        off.function_id == SMC_CPU_OFF,
        off.caller < NUM_CORES,
        query.function_id == SMC_AFFINITY_INFO,
        query.arg0 == off.caller,
        forall|i: int|
            0 <= i < events.len() ==> !is_cpu_on_for(#[trigger] events[i], off.caller as int),
    ensures
        smc_reply(table, off).status == SmcStatus::Success,
        smc_reply(run(smc_next(table, off), events), query).status == SmcStatus::CoreOff,
        smc_reply(run(smc_next(table, off), events), query).result == AFFINITY_INFO_OFF,
{
    lemma_stays_off(smc_next(table, off), events, off.caller as int);
}

/// A core reads the boot parameters of the most recent `SMC_CPU_ON` for it
/// that succeeded: the entry point and context of that call, whatever
/// happened since, short of another such call.
pub proof fn lemma_boot_params_latest(
    table: LifecycleView,
    on: SmcCall,
    events: Seq<LifecycleEvent>,
)
    requires
        table_wf(table),
        on.function_id == SMC_CPU_ON,
        smc_status(table, on) == SmcStatus::Success,
        no_successful_cpu_on(smc_next(table, on), events, on.arg0 as int),
    ensures
        boot_params_of(run(smc_next(table, on), events), on.arg0) == (
            on.arg1,
            on.arg2,
        ),
{
    lemma_boot_params_kept(smc_next(table, on), events, on.arg0 as int);
}

/// A core for which no `SMC_CPU_ON` has succeeded since reset reads zeros
/// as its boot parameters, and so does a core the platform does not have.
pub proof fn lemma_boot_params_unset(events: Seq<LifecycleEvent>, core_id: u64)
    requires
        core_id < NUM_CORES ==> no_successful_cpu_on(initial_table(), events, core_id as int),
    ensures
        boot_params_of(run(initial_table(), events), core_id) == (0u64, 0u64),
{
    if core_id < NUM_CORES {
        lemma_boot_params_kept(initial_table(), events, core_id as int);
    }
}

/// A core is released once for each `SMC_CPU_ON`: the call releases its
/// target with the parameters of the call, and once the target has
/// reported its startup complete it is not released again, whatever else
/// happens, until another `SMC_CPU_ON` for it succeeds.
pub proof fn lemma_released_once(
    table: LifecycleView,
    on: SmcCall,
    events: Seq<LifecycleEvent>,
    polls_left: u32,
)
    requires
        table_wf(table),
        on.function_id == SMC_CPU_ON,
        smc_status(table, on) == SmcStatus::Success,
        no_successful_cpu_on(
            online_next(smc_next(table, on), on.arg0),
            events,
            on.arg0 as int,
        ),
    ensures
        release_poll_of(smc_next(table, on), on.arg0, polls_left) == (
        ReleasePoll::Released { entry_point: on.arg1, context_id: on.arg2 }),
        !(release_poll_of(
            run(online_next(smc_next(table, on), on.arg0), events),
            on.arg0,
            polls_left,
        ) is Released),
{
    let core = on.arg0 as int;
    lemma_not_pending_kept(online_next(smc_next(table, on), core as u64), events, core);
}

/// A core that is not pending stays so until an `SMC_CPU_ON` for it
/// succeeds.
pub proof fn lemma_not_pending_kept(table: LifecycleView, events: Seq<LifecycleEvent>, core: int)
    requires
        table_wf(table),
        0 <= core < NUM_CORES,
        table.states[core] != CorePowerState::Pending,
        no_successful_cpu_on(table, events, core),
    ensures
        run(table, events).states[core] != CorePowerState::Pending,
    decreases events.len(),
{
    if events.len() > 0 {
        lemma_run_wf(table, events.drop_last());
        lemma_not_pending_kept(table, events.drop_last(), core);
    }
}

/// A core number is never wrapped: `SMC_CPU_ON` and `SMC_AFFINITY_INFO`
/// for a target that the platform does not have, and `SMC_CPU_OFF` from
/// such a caller, end with `InvalidTarget` and change nothing, whatever the
/// low bits of the number are.
pub proof fn lemma_out_of_range_core_refused(table: LifecycleView, call: SmcCall)
    requires
        (call.function_id == SMC_CPU_ON || call.function_id == SMC_AFFINITY_INFO) && call.arg0
            >= NUM_CORES || call.function_id == SMC_CPU_OFF && call.caller >= NUM_CORES,
    ensures
        smc_reply(table, call) == (SmcReply {
            status: SmcStatus::InvalidTarget,
            result: PSCI_INVALID_PARAMETERS,
            action: PlatformAction::Nothing,
        }),
        smc_next(table, call) == table,
{
}

/// A call that does not succeed changes neither power states nor boot
/// parameters, and asks nothing of the platform.
pub proof fn lemma_refused_call_changes_nothing(table: LifecycleView, call: SmcCall)
    requires
        smc_status(table, call) != SmcStatus::Success,
    ensures
        smc_next(table, call) == table,
        smc_action(table, call) == PlatformAction::Nothing,
{
}

} // verus!
