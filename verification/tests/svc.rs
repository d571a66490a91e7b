use s32g3_kernel::arch::exceptions::TrapFrame;
use s32g3_kernel::arch::svc::{
    handle_el0_sync, handle_svc, init_memory_allocator, mem_alloc, mem_free, BumpHeap, SvcReply,
    SvcRequest, SVC_MEM_ALLOC, SVC_MEM_FREE, SVC_MUTEX_LOCK, SVC_MUTEX_UNLOCK, SVC_PRINT,
    SVC_THREAD_CREATE,
};

fn frame(x0: u64, x1: u64, x2: u64, x8: u64) -> TrapFrame {
    let mut regs = [0u64; 31];
    regs[0] = x0;
    regs[1] = x1;
    regs[2] = x2;
    regs[8] = x8;
    TrapFrame { regs, elr: 0, spsr: 0 }
}

#[test]
fn allocator_starts_empty() {
    assert_eq!(
        init_memory_allocator(0x1000, 0x3000),
        BumpHeap { start: 0x1000, size: 0x2000, next: 0x1000 }
    );
}

#[test]
fn allocations_are_rounded_up_to_eight_bytes() {
    let mut heap = init_memory_allocator(0x1000, 0x1040);
    assert_eq!(mem_alloc(&mut heap, 1), 0x1000);
    assert_eq!(mem_alloc(&mut heap, 8), 0x1008);
    assert_eq!(mem_alloc(&mut heap, 9), 0x1010);
    assert_eq!(heap.next, 0x1020);
    assert_eq!(mem_alloc(&mut heap, 0), 0x1020);
    assert_eq!(heap.next, 0x1020);
}

#[test]
fn allocation_that_does_not_fit_returns_zero() {
    let mut heap = init_memory_allocator(0x1000, 0x1010);
    assert_eq!(mem_alloc(&mut heap, 17), 0);
    assert_eq!(heap.next, 0x1000);
    assert_eq!(mem_alloc(&mut heap, 16), 0x1000);
    assert_eq!(mem_alloc(&mut heap, 1), 0);
    assert_eq!(mem_alloc(&mut heap, u64::MAX), 0);
    assert_eq!(mem_alloc(&mut heap, u64::MAX - 7), 0);
    assert_eq!(heap, BumpHeap { start: 0x1000, size: 0x10, next: 0x1010 });
}

#[test]
fn free_gives_nothing_back() {
    assert_eq!(mem_free(0x1000), 0);
}

#[test]
fn supervisor_calls_by_function_number() {
    let mut heap = init_memory_allocator(0x2000, 0x2100);
    assert_eq!(
        handle_svc(&mut heap, SVC_PRINT, 0x5000, 0, 0),
        SvcReply { result: 0, request: SvcRequest::Print { ptr: 0x5000 } }
    );
    assert_eq!(
        handle_svc(&mut heap, SVC_MEM_ALLOC, 12, 0, 0),
        SvcReply { result: 0x2000, request: SvcRequest::Nothing }
    );
    assert_eq!(heap.next, 0x2010);
    assert_eq!(
        handle_svc(&mut heap, SVC_MEM_FREE, 0x2000, 0, 0),
        SvcReply { result: 0, request: SvcRequest::Nothing }
    );
    assert_eq!(
        handle_svc(&mut heap, SVC_THREAD_CREATE, 0x8000, 0x99, 0),
        SvcReply {
            result: 0,
            request: SvcRequest::ThreadCreate { entry_point: 0x8000, argument: 0x99 }
        }
    );
    assert_eq!(
        handle_svc(&mut heap, SVC_MUTEX_LOCK, 0x40, 0, 0).request,
        SvcRequest::MutexLock { mutex_addr: 0x40 }
    );
    assert_eq!(
        handle_svc(&mut heap, SVC_MUTEX_UNLOCK, 0x40, 0, 0).request,
        SvcRequest::MutexUnlock { mutex_addr: 0x40 }
    );
    assert_eq!(heap.next, 0x2010);
}

#[test]
fn unknown_supervisor_call_returns_all_ones() {
    let mut heap = init_memory_allocator(0x2000, 0x2100);
    for id in [0u64, 7, 0x100, u64::MAX] {
        assert_eq!(
            handle_svc(&mut heap, id, 1, 2, 3),
            SvcReply { result: u64::MAX, request: SvcRequest::Nothing }
        );
    }
    assert_eq!(heap.next, 0x2000);
}

#[test]
fn el0_sync_handles_supervisor_calls_from_the_frame() {
    let mut heap = init_memory_allocator(0x2000, 0x2100);
    let reply = handle_el0_sync(&mut heap, 0x15 << 26, 0, &frame(24, 0, 0, SVC_MEM_ALLOC));
    assert_eq!(reply, SvcReply { result: 0x2000, request: SvcRequest::Nothing });
    assert_eq!(heap.next, 0x2018);
    let reply = handle_el0_sync(&mut heap, (0x15 << 26) | 0x42, 0, &frame(0x77, 5, 0, SVC_THREAD_CREATE));
    assert_eq!(reply.request, SvcRequest::ThreadCreate { entry_point: 0x77, argument: 5 });
}

#[test]
fn el0_sync_leaves_other_exceptions_alone() {
    let mut heap = init_memory_allocator(0x2000, 0x2100);
    let reply = handle_el0_sync(&mut heap, 0x24 << 26, 0x1234, &frame(24, 0, 0, SVC_MEM_ALLOC));
    assert_eq!(reply, SvcReply { result: 0, request: SvcRequest::Nothing });
    assert_eq!(heap.next, 0x2000);
}
