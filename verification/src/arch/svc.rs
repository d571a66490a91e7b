//! Supervisor-call handler and the bump allocator behind its memory calls.

use crate::arch::exceptions::{exception_class, exception_class_of, TrapFrame, EC_SVC};
use vstd::prelude::*;

verus! {

// SVC function numbers
pub const SVC_PRINT: u64 = 0x01;
pub const SVC_MEM_ALLOC: u64 = 0x02;
pub const SVC_MEM_FREE: u64 = 0x03;
pub const SVC_THREAD_CREATE: u64 = 0x04;
pub const SVC_MUTEX_LOCK: u64 = 0x05;
pub const SVC_MUTEX_UNLOCK: u64 = 0x06;

/// Result of a supervisor call with an unknown function number.
pub const SVC_UNKNOWN: u64 = u64::MAX;

/// Simple memory allocator state: a region and the first address of it
/// that has not been handed out.
#[derive(Clone, Copy, Debug, PartialEq, Eq, Structural)]
pub struct BumpHeap {
    pub start: u64,
    pub size: u64,
    pub next: u64,
}

/// What is left for the caller of the handler to do for a supervisor call.
#[derive(Clone, Copy, Debug, PartialEq, Eq, Structural)]
pub enum SvcRequest {
    /// Nothing.
    Nothing,
    /// Print the NUL-terminated string at `ptr`, then a line feed.
    Print { ptr: u64 },
    /// Create a thread that starts at `entry_point` with `argument`.
    ThreadCreate { entry_point: u64, argument: u64 },
    /// Lock the mutex at `mutex_addr`.
    MutexLock { mutex_addr: u64 },
    /// Unlock the mutex at `mutex_addr`.
    MutexUnlock { mutex_addr: u64 },
}

/// Result of a supervisor call.
#[derive(Clone, Copy, Debug, PartialEq, Eq, Structural)]
pub struct SvcReply {
    /// The value for the caller's result register.
    pub result: u64,
    /// What is left to do.
    pub request: SvcRequest,
}

/// A heap's invariant: the next free address lies within the region, and
/// the region within the address space.
pub open spec fn heap_wf(heap: BumpHeap) -> bool {
    &&& heap.start + heap.size <= u64::MAX
    &&& heap.start <= heap.next <= heap.start + heap.size
}

/// `size` rounded up to a multiple of eight.
pub open spec fn align8(size: u64) -> int {
    ((size + 7) / 8) * 8
}

/// Whether an allocation of `size` bytes fits in what is left of `heap`.
pub open spec fn alloc_fits(heap: BumpHeap, size: u64) -> bool {
    heap.next + align8(size) <= heap.start + heap.size
}

/// The heap after an allocation of `size` bytes is asked for.
pub open spec fn heap_after_alloc(heap: BumpHeap, size: u64) -> BumpHeap {
    if alloc_fits(heap, size) {
        BumpHeap { next: (heap.next + align8(size)) as u64, ..heap }
    } else {
        heap
    }
}

/// The address that an allocation of `size` bytes returns: the next free
/// address if the allocation fits, zero if it does not.
pub open spec fn alloc_result(heap: BumpHeap, size: u64) -> u64 {
    if alloc_fits(heap, size) {
        heap.next
    } else {
        0
    }
}

/// The result of the supervisor call `function_id` on `heap`.
pub open spec fn svc_result(heap: BumpHeap, function_id: u64, arg0: u64) -> u64 {
    if function_id == SVC_MEM_ALLOC {
        alloc_result(heap, arg0)
    } else if SVC_PRINT <= function_id <= SVC_MUTEX_UNLOCK {
        0
    } else {
        SVC_UNKNOWN
    }
}

/// What the supervisor call `function_id` leaves to do.
pub open spec fn svc_request(function_id: u64, arg0: u64, arg1: u64) -> SvcRequest {
    if function_id == SVC_PRINT {
        SvcRequest::Print { ptr: arg0 }
    } else if function_id == SVC_THREAD_CREATE {
        SvcRequest::ThreadCreate { entry_point: arg0, argument: arg1 }
    } else if function_id == SVC_MUTEX_LOCK {
        SvcRequest::MutexLock { mutex_addr: arg0 }
    } else if function_id == SVC_MUTEX_UNLOCK {
        SvcRequest::MutexUnlock { mutex_addr: arg0 }
    } else {
        SvcRequest::Nothing
    }
}

/// The heap after the supervisor call `function_id`.
pub open spec fn svc_heap(heap: BumpHeap, function_id: u64, arg0: u64) -> BumpHeap {
    if function_id == SVC_MEM_ALLOC {
        heap_after_alloc(heap, arg0)
    } else {
        heap
    }
}

/// Basic memory allocation system: the heap over the region from
/// `heap_start` up to `heap_end`, with nothing handed out.
pub fn init_memory_allocator(heap_start: u64, heap_end: u64) -> (heap: BumpHeap)
    requires
        heap_start <= heap_end,
    ensures
        heap_wf(heap),
        heap == (BumpHeap {
            start: heap_start,
            size: (heap_end - heap_start) as u64,
            next: heap_start,
        }),
{
    BumpHeap { start: heap_start, size: heap_end - heap_start, next: heap_start }
}

/// Simple memory allocation: `size` bytes, rounded up to a multiple of
/// eight, from the start of what is left. Returns the address, or zero if
/// that much is not left; then the heap is unchanged.
pub fn mem_alloc(heap: &mut BumpHeap, size: u64) -> (addr: u64)
    requires
        heap_wf(*old(heap)),
    ensures
        heap_wf(*final(heap)),
        *final(heap) == heap_after_alloc(*old(heap), size),
        addr == alloc_result(*old(heap), size),
{
    if size > u64::MAX - 7 {
        // Out of memory
        return 0;
    }
    // Align to 8 bytes
    let aligned_size: u64 = (size + 7) & !7;
    assert(aligned_size == align8(size)) by {
        let padded: u64 = (size + 7) as u64;
        assert(padded & !7u64 == (padded / 8) * 8) by (bit_vector);
    }
    if aligned_size > heap.start + heap.size - heap.next {
        // Out of memory
        return 0;
    }
    let allocation = heap.next;
    heap.next = heap.next + aligned_size;
    allocation
}

/// Free memory: nothing is given back, and the result is zero.
pub fn mem_free(addr: u64) -> (result: u64)
    ensures
        result == 0,
{
    0
}

/// Handle SVC calls.
///
/// `SVC_MEM_ALLOC` allocates `arg0` bytes from `heap` and returns the
/// address, or zero. Every other known call returns zero and leaves the
/// heap alone; printing, creating a thread and the mutex calls are handed
/// back as requests. An unknown function number returns `SVC_UNKNOWN`.
pub fn handle_svc(heap: &mut BumpHeap, function_id: u64, arg0: u64, arg1: u64, arg2: u64) -> (reply:
    SvcReply)
    requires
        heap_wf(*old(heap)),
    ensures
        heap_wf(*final(heap)),
        *final(heap) == svc_heap(*old(heap), function_id, arg0),
        reply.result == svc_result(*old(heap), function_id, arg0),
        reply.request == svc_request(function_id, arg0, arg1),
{
    if function_id == SVC_PRINT {
        // Print a null-terminated string
        SvcReply { result: 0, request: SvcRequest::Print { ptr: arg0 } }
    } else if function_id == SVC_MEM_ALLOC {
        // Allocate memory
        let size = arg0;
        SvcReply { result: mem_alloc(heap, size), request: SvcRequest::Nothing }
    } else if function_id == SVC_MEM_FREE {
        // Free memory
        let addr = arg0;
        SvcReply { result: mem_free(addr), request: SvcRequest::Nothing }
    } else if function_id == SVC_THREAD_CREATE {
        // Create a thread (simplified)
        let entry_point = arg0;
        let argument = arg1;
        SvcReply { result: 0, request: SvcRequest::ThreadCreate { entry_point, argument } }
    } else if function_id == SVC_MUTEX_LOCK {
        // Lock a mutex
        SvcReply { result: 0, request: SvcRequest::MutexLock { mutex_addr: arg0 } }
    } else if function_id == SVC_MUTEX_UNLOCK {
        // Unlock a mutex
        SvcReply { result: 0, request: SvcRequest::MutexUnlock { mutex_addr: arg0 } }
    } else {
        SvcReply { result: SVC_UNKNOWN, request: SvcRequest::Nothing }  // Return error code
    }
}

/// The actual SVC handler called from the exception vector, for a
/// synchronous exception from a lower level.
///
/// If the syndrome's exception class is that of a supervisor call, the
/// call is handled with the function number from the saved x8 and the
/// arguments from the saved x0 to x2. Any other exception is left
/// unhandled: the result is zero and nothing changes.
pub fn handle_el0_sync(heap: &mut BumpHeap, esr: u64, far: u64, frame: &TrapFrame) -> (reply:
    SvcReply)
    requires
        heap_wf(*old(heap)),
    ensures
        heap_wf(*final(heap)),
        exception_class_of(esr) == EC_SVC ==> {
            &&& *final(heap) == svc_heap(*old(heap), frame.regs[8], frame.regs[0])
            &&& reply.result == svc_result(*old(heap), frame.regs[8], frame.regs[0])
            &&& reply.request == svc_request(frame.regs[8], frame.regs[0], frame.regs[1])
        },
        exception_class_of(esr) != EC_SVC ==> {
            &&& *final(heap) == *old(heap)
            &&& reply == (SvcReply { result: 0, request: SvcRequest::Nothing })
        },
{
    // Extract the EC (Exception Class) from ESR
    let ec = exception_class(esr);
    // Check if this is an SVC call (EC = 0x15 for SVC from AArch64)
    if ec == EC_SVC {
        let function_id: u64 = frame.regs[8];
        let arg0: u64 = frame.regs[0];
        let arg1: u64 = frame.regs[1];
        let arg2: u64 = frame.regs[2];
        // Now handle the SVC call
        handle_svc(heap, function_id, arg0, arg1, arg2)
    } else {
        // Not an SVC, handle other synchronous exceptions
        SvcReply { result: 0, request: SvcRequest::Nothing }
    }
}

/// Allocations do not overlap and stay inside the heap: the bytes that an
/// allocation returns lie between the heap's old and new next free address,
/// eight-byte granular in size.
pub proof fn lemma_alloc_disjoint(heap: BumpHeap, size: u64)
    requires
        heap_wf(heap),
        alloc_fits(heap, size),
    ensures
        heap_wf(heap_after_alloc(heap, size)),
        alloc_result(heap, size) == heap.next,
        heap.next + size <= heap_after_alloc(heap, size).next <= heap.start + heap.size,
        (heap_after_alloc(heap, size).next - heap.next) % 8 == 0,
{
}

} // verus!
