use s32g3_kernel::arch::aarch64::HwOp;
use s32g3_kernel::arch::s32g3::timer;
use s32g3_kernel::freertos;
use s32g3_kernel::freertos::port;
use s32g3_kernel::freertos::queue;
use s32g3_kernel::freertos::queue::{Queue, ReceiveStep, SendStep};
use s32g3_kernel::freertos::tasks;

#[test]
fn isr_flag_is_set_and_cleared() {
    let mut p = port::init();
    assert!(!port::is_inside_isr(&p));
    port::enter_isr(&mut p);
    assert!(port::is_inside_isr(&p));
    port::exit_isr(&mut p);
    assert!(!port::is_inside_isr(&p));
    assert_eq!(port::yield_task(), HwOp::Wfi);
}

#[test]
fn critical_sections_mask_and_unmask_interrupts() {
    assert_eq!(freertos::enter_critical_section(), HwOp::DaifSet { mask: 2 });
    assert_eq!(freertos::exit_critical_section(), HwOp::DaifClr { mask: 2 });
}

#[test]
fn tick_handler_advances_the_tick_inside_and_outside_an_isr() {
    let mut kernel = freertos::init();
    assert_eq!(tasks::get_tick_count(&kernel.scheduler), 0);
    freertos::tick_handler(&kernel.port, &mut kernel.scheduler);
    assert_eq!(tasks::get_tick_count(&kernel.scheduler), 1);
    port::enter_isr(&mut kernel.port);
    freertos::tick_handler(&kernel.port, &mut kernel.scheduler);
    assert_eq!(tasks::get_tick_count(&kernel.scheduler), 2);
    tasks::increment_tick(&mut kernel.scheduler);
    tasks::increment_tick_from_isr(&mut kernel.scheduler);
    assert_eq!(tasks::get_tick_count(&kernel.scheduler), 4);
}

#[test]
fn tasks_are_numbered_in_order_of_creation() {
    let mut s = tasks::init();
    assert_eq!(tasks::start_scheduler(&mut s), None);
    assert_eq!(tasks::create_task(&mut s, 0x9000, 0x100, "idle", 4096), 0);
    assert_eq!(tasks::create_task(&mut s, 0xA000, 0x200, "worker", 8192), 1);
    assert_eq!(tasks::get_current_task(&s), 0);
    assert_eq!(tasks::start_scheduler(&mut s), Some(0x100));
    assert_eq!(tasks::get_current_task(&s), 0);
}

#[test]
fn delay_is_over_when_the_tick_reaches_the_target() {
    let mut s = tasks::init();
    tasks::increment_tick(&mut s);
    let target = tasks::delay(&s, 3);
    assert_eq!(target, 4);
    assert!(!tasks::delay_over(&s, target));
    tasks::increment_tick(&mut s);
    tasks::increment_tick(&mut s);
    assert!(!tasks::delay_over(&s, target));
    tasks::increment_tick(&mut s);
    assert!(tasks::delay_over(&s, target));
    assert!(tasks::delay_over(&s, tasks::delay(&s, 0)));
}

#[test]
fn queue_is_first_in_first_out() {
    queue::init();
    let mut q: Queue<u32> = Queue::new(3, 0);
    assert!(q.is_empty());
    assert!(!q.is_full());
    assert_eq!(q.len(), 0);
    assert!(q.try_send(10));
    assert!(q.try_send(20));
    assert_eq!(q.len(), 2);
    assert_eq!(q.try_receive(), Some(10));
    assert!(q.try_send(30));
    assert!(q.try_send(40));
    assert!(q.is_full());
    assert!(!q.try_send(50));
    assert_eq!(q.try_receive(), Some(20));
    assert_eq!(q.try_receive(), Some(30));
    assert_eq!(q.try_receive(), Some(40));
    assert_eq!(q.try_receive(), None);
    assert!(q.is_empty());
}

#[test]
fn queue_wraps_around_many_times() {
    let mut q: Queue<u64> = Queue::new(2, 0);
    for i in 0..100u64 {
        assert!(q.try_send(i));
        assert_eq!(q.try_receive(), Some(i));
    }
    assert!(q.is_empty());
}

#[test]
fn queue_of_capacity_zero_is_always_full_and_empty() {
    let mut q: Queue<u8> = Queue::new(0, 0);
    assert!(q.is_empty());
    assert!(q.is_full());
    assert!(!q.try_send(1));
    assert_eq!(q.try_receive(), None);
}

#[test]
fn send_waits_then_times_out_on_a_full_queue() {
    let mut q: Queue<u8> = Queue::new(1, 0);
    assert_eq!(q.send(1, Some(5), 100, 100), SendStep::Sent);
    assert_eq!(q.send(2, Some(5), 100, 100), SendStep::Wait);
    assert_eq!(q.send(2, Some(5), 100, 104), SendStep::Wait);
    assert_eq!(q.send(2, Some(5), 100, 105), SendStep::TimedOut);
    assert_eq!(q.send(2, None, 100, u64::MAX), SendStep::Wait);
    assert_eq!(q.send(2, Some(0), 100, 100), SendStep::TimedOut);
    assert_eq!(q.len(), 1);
    assert_eq!(q.try_receive(), Some(1));
    assert_eq!(q.send(2, Some(5), 100, 200), SendStep::Sent);
}

#[test]
fn receive_waits_then_times_out_on_an_empty_queue() {
    let mut q: Queue<u8> = Queue::new(1, 0);
    assert_eq!(q.receive(Some(3), 10, 12), ReceiveStep::Wait);
    assert_eq!(q.receive(Some(3), 10, 13), ReceiveStep::TimedOut);
    assert_eq!(q.receive(None, 10, 1000), ReceiveStep::Wait);
    assert!(q.try_send(9));
    assert_eq!(q.receive(Some(3), 10, 99), ReceiveStep::Received(9));
    assert!(q.is_empty());
}

#[test]
fn timer_interrupt_advances_both_ticks() {
    let mut kernel = freertos::init();
    let mut system = timer::SystemTimer::new();
    freertos::tick_isr(&mut kernel, &mut system);
    freertos::tick_isr(&mut kernel, &mut system);
    assert_eq!(tasks::get_tick_count(&kernel.scheduler), 2);
    assert_eq!(timer::get_system_ticks(&system), 2);
    assert!(!port::is_inside_isr(&kernel.port));
}
