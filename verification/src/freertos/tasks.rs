//! Task list and tick count of the scheduler.

use vstd::prelude::*;

verus! {

/// Priority given to a new task.
pub const DEFAULT_TASK_PRIORITY: u8 = 1;

/// Simplified task control block
#[derive(Clone, Copy, Debug)]
pub struct TCB {
    /// Address of the task's stack.
    pub stack_pointer: usize,
    pub priority: u8,
    pub name: &'static str,
    pub state: TaskState,
    pub stack_size: usize,
    /// Address of the task's entry function.
    pub function: usize,
}

/// Task states
#[derive(Copy, Clone, Debug, PartialEq, Eq, Structural)]
pub enum TaskState {
    Ready,
    Running,
    Blocked,
    Suspended,
}

/// Task handle type
pub type TaskHandle = usize;

/// The scheduler's state as a plain value.
pub struct SchedulerView {
    /// System tick counter
    pub tick_count: u64,
    /// Current running task
    pub current_task: usize,
    /// Task list
    pub tasks: Seq<TCB>,
}

/// The scheduler's state: the tick count, the running task and the tasks
/// created so far.
pub struct Scheduler {
    tick_count: u64,
    current_task: usize,
    tasks: Vec<TCB>,
}

impl View for Scheduler {
    type V = SchedulerView;

    closed spec fn view(&self) -> SchedulerView {
        SchedulerView {
            tick_count: self.tick_count,
            current_task: self.current_task,
            tasks: self.tasks@,
        }
    }
}

/// The tick count that follows `tick`: it wraps to zero after the largest
/// value.
pub open spec fn next_tick(tick: u64) -> u64 {
    if tick == u64::MAX {
        0
    } else {
        (tick + 1) as u64
    }
}

/// The task control block of a task as it is created.
pub open spec fn new_task(
    stack_pointer: usize,
    function: usize,
    name: &'static str,
    stack_size: usize,
) -> TCB {
    TCB {
        stack_pointer,
        priority: DEFAULT_TASK_PRIORITY,
        name,
        state: TaskState::Ready,
        stack_size,
        function,
    }
}

/// Initialize the task subsystem: no task, tick count zero.
pub fn init() -> (scheduler: Scheduler)
    ensures
        scheduler@ == (SchedulerView { tick_count: 0, current_task: 0, tasks: Seq::empty() }),
{
    Scheduler { tick_count: 0, current_task: 0, tasks: Vec::new() }
}

/// Create a new task that runs `function` on the stack of `stack_size`
/// bytes at `stack_pointer`. The task is ready, has the default priority
/// and comes last in the task list; its handle is its place there.
pub fn create_task(
    scheduler: &mut Scheduler,
    stack_pointer: usize,
    function: usize,
    name: &'static str,
    stack_size: usize,
) -> (task_id: TaskHandle)
    ensures
        task_id == old(scheduler)@.tasks.len(),
        final(scheduler)@ == (SchedulerView {
            tasks: old(scheduler)@.tasks.push(new_task(stack_pointer, function, name, stack_size)),
            ..old(scheduler)@
        }),
{
    // Create TCB
    let tcb = TCB {
        stack_pointer,
        priority: DEFAULT_TASK_PRIORITY,
        name,
        state: TaskState::Ready,
        stack_size,
        function,
    };
    // Add to task list
    let task_id: usize = scheduler.tasks.len();
    scheduler.tasks.push(tcb);
    task_id
}

/// Start the scheduler: the first task becomes the current one, and the
/// address of its entry function is returned for the caller to run.
/// Nothing happens if no task was created.
pub fn start_scheduler(scheduler: &mut Scheduler) -> (entry: Option<usize>)
    ensures
        old(scheduler)@.tasks.len() == 0 ==> entry is None && final(scheduler)@ == old(scheduler)@,
        old(scheduler)@.tasks.len() > 0 ==> entry == Some(old(scheduler)@.tasks[0].function)
            && final(scheduler)@ == (SchedulerView { current_task: 0, ..old(scheduler)@ }),
{
    if scheduler.tasks.len() == 0 {
        // No tasks created
        return None;
    }
    // Set first task as current
    scheduler.current_task = 0;
    // Start first task
    Some(scheduler.tasks[0].function)
}

/// Get current task handle
pub fn get_current_task(scheduler: &Scheduler) -> (task: TaskHandle)
    ensures
        task == scheduler@.current_task,
{
    scheduler.current_task
}

/// Increment system tick
pub fn increment_tick(scheduler: &mut Scheduler)
    ensures
        final(scheduler)@ == (SchedulerView {
            tick_count: next_tick(old(scheduler)@.tick_count),
            ..old(scheduler)@
        }),
{
    scheduler.tick_count = scheduler.tick_count.wrapping_add(1);
    check_delayed_tasks(scheduler);
}

/// Increment system tick from ISR
pub fn increment_tick_from_isr(scheduler: &mut Scheduler)
    ensures
        final(scheduler)@ == (SchedulerView {
            tick_count: next_tick(old(scheduler)@.tick_count),
            ..old(scheduler)@
        }),
{
    scheduler.tick_count = scheduler.tick_count.wrapping_add(1);
}

/// Get current tick count
pub fn get_tick_count(scheduler: &Scheduler) -> (ticks: u64)
    ensures
        ticks == scheduler@.tick_count,
{
    scheduler.tick_count
}

/// Delay the current task by `ticks` ticks from now: the tick count at
/// which the delay is over. Until [`delay_over`] the caller waits for the
/// next interrupt and looks again.
pub fn delay(scheduler: &Scheduler, ticks: u32) -> (target: u64)
    requires
        scheduler@.tick_count + ticks <= u64::MAX,
    ensures
        target == scheduler@.tick_count + ticks,
{
    let start = get_tick_count(scheduler);
    start + ticks as u64
}

/// Whether a delay up to tick count `target` is over.
pub fn delay_over(scheduler: &Scheduler, target: u64) -> (over: bool)
    ensures
        over == (scheduler@.tick_count >= target),
{
    get_tick_count(scheduler) >= target
}

/// Check for tasks that should be unblocked. No task is ever blocked on a
/// delay, so there is nothing to unblock.
fn check_delayed_tasks(scheduler: &mut Scheduler)
    ensures
        final(scheduler)@ == old(scheduler)@,
{
}

} // verus!
