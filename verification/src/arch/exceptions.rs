//! Exception dispatcher: the vector table, the decoding of the exception
//! syndrome, and what each class of trap leads to.

use crate::arch::aarch64::{HwOp, SysReg, DAIF_ALL};
use crate::arch::gic::{
    is_ppi, is_sgi, is_spi, is_spurious, synced_write, GicError, GicV3Driver,
};
use crate::arch::gic::{INTERRUPT_ID_LIMIT, PPI_ID_LIMIT, SGI_ID_LIMIT, SPURIOUS_ID_BASE};
use vstd::prelude::*;

verus! {

/// Exception classes of the syndrome register that get a handler of their
/// own.
pub const EC_SVC: u64 = 0x15;
pub const EC_SMC: u64 = 0x17;
pub const EC_INSTRUCTION_ABORT: u64 = 0x21;
pub const EC_DATA_ABORT: u64 = 0x25;

/// Number of entries of the vector table, and the bytes between two.
pub const VECTOR_ENTRIES: usize = 16;
pub const VECTOR_ENTRY_SIZE: u64 = 0x80;

/// Number of general-purpose registers saved at exception entry (x0 to x30).
pub const TRAP_FRAME_REGS: usize = 31;

/// Words of a trap frame on the stack: the general-purpose registers, the
/// saved return address, the saved processor state, and one word that
/// keeps the stack sixteen-byte aligned.
pub const TRAP_FRAME_WORDS: usize = 34;

/// The word of a trap frame that holds the saved return address.
pub const TRAP_FRAME_ELR: usize = 31;

/// The word of a trap frame that holds the saved processor state.
pub const TRAP_FRAME_SPSR: usize = 32;

/// Where an exception was taken from.
#[derive(Clone, Copy, Debug, PartialEq, Eq, Structural)]
pub enum SourceContext {
    /// The current exception level, running on SP_EL0.
    CurrentSp0,
    /// The current exception level, running on its own stack pointer.
    CurrentSpx,
    /// A lower exception level in AArch64 state.
    LowerAarch64,
    /// A lower exception level in AArch32 state.
    LowerAarch32,
}

/// The four classes of exception.
#[derive(Clone, Copy, Debug, PartialEq, Eq, Structural)]
pub enum ExceptionKind {
    Synchronous,
    Irq,
    Fiq,
    SError,
}

/// The handlers that the vector table routes to.
#[derive(Clone, Copy, Debug, PartialEq, Eq, Structural)]
pub enum Handler {
    El1Sync,
    El1Irq,
    El1Fiq,
    El1SError,
    El0Sync,
    El0Irq,
    El0Fiq,
    El0SError,
    El0SyncA32,
    El0IrqA32,
    El0FiqA32,
    El0SErrorA32,
}

/// One entry of the vector table.
#[derive(Clone, Copy, Debug, PartialEq, Eq, Structural)]
pub struct VectorEntry {
    /// Offset of the entry from the table's base.
    pub offset: u64,
    pub context: SourceContext,
    pub kind: ExceptionKind,
    pub handler: Handler,
}

/// Sub-classes of a synchronous exception.
#[derive(Clone, Copy, Debug, PartialEq, Eq, Structural)]
pub enum SyncClass {
    /// Supervisor call.
    Svc,
    /// Secure-monitor call.
    Smc,
    InstructionAbort,
    DataAbort,
    /// Any other exception class.
    Unknown,
}

/// What follows a trap once it is classified.
#[derive(Clone, Copy, Debug, PartialEq, Eq, Structural)]
pub enum TrapAction {
    /// Restore the trap frame and resume.
    Resume,
    /// Hand the call to the secure-monitor bridge, then resume.
    HandleSmc,
    /// No recovery: report, mask interrupts and halt.
    Halt,
}

/// A synchronous exception, decoded.
#[derive(Clone, Copy, Debug, PartialEq, Eq, Structural)]
pub struct SyncTrap {
    /// The exception class field of the syndrome.
    pub ec: u64,
    /// The instruction-specific field of the syndrome.
    pub iss: u64,
    /// The fault address.
    pub far: u64,
    pub class: SyncClass,
    pub action: TrapAction,
}

/// Which range an acknowledged interrupt id lies in.
#[derive(Clone, Copy, Debug, PartialEq, Eq, Structural)]
pub enum IrqKind {
    /// Software-generated interrupt (0 to 15).
    Sgi,
    /// Private peripheral interrupt (16 to 31).
    Ppi,
    /// Shared peripheral interrupt (32 to 1019).
    Spi,
    /// An id that is neither an interrupt nor spurious (1020 and 1021).
    Reserved,
    /// Nothing to handle (1022 and above).
    Spurious,
}

/// What an interrupt can be registered to.
#[derive(Clone, Copy, Debug, PartialEq, Eq, Structural)]
pub enum IrqHandler {
    /// Report the interrupt and do nothing else: the default.
    LogAndIgnore,
    /// Advance the system tick.
    SystemTick,
    /// Serve the console.
    Console,
}

/// The handler registered for each interrupt id.
pub struct IrqTable {
    handlers: Vec<IrqHandler>,
}

/// What to do about an acknowledged interrupt.
pub struct IrqDispatch {
    /// The interrupt id that was acknowledged.
    pub id: u32,
    pub kind: IrqKind,
    /// The handler to run before the interrupt is ended; none for a
    /// spurious id.
    pub handler: Option<IrqHandler>,
    /// The operations that end the interrupt, to perform after its handler
    /// has run; empty for a spurious id.
    pub end: Vec<HwOp>,
}

/// The register state saved at exception entry.
pub struct TrapFrame {
    /// x0 to x30.
    pub regs: [u64; 31],
    /// Saved return address (ELR_EL1).
    pub elr: u64,
    /// Saved processor state (SPSR_EL1).
    pub spsr: u64,
}

/// One step of what happens between a trap and the return from it.
#[derive(Clone, Copy, Debug, PartialEq, Eq, Structural)]
pub enum EntryStep {
    /// Save x0 to x30 into the trap frame.
    SaveGeneralRegisters,
    /// Save the return address and the processor state into the trap frame.
    SaveReturnState,
    /// Call the handler.
    Invoke { handler: Handler },
    /// Restore the return address and the processor state from the trap
    /// frame.
    RestoreReturnState,
    /// Restore x0 to x30 from the trap frame.
    RestoreGeneralRegisters,
    /// Return from the exception.
    Resume,
}

/// What happens between a trap that `handler` handles and the return from
/// it: the whole register state is saved before the handler runs, and on
/// return the return address and processor state are restored first, then
/// the general-purpose registers.
pub open spec fn entry_protocol_of(handler: Handler) -> Seq<EntryStep> {
    seq![
        EntryStep::SaveGeneralRegisters,
        EntryStep::SaveReturnState,
        EntryStep::Invoke { handler },
        EntryStep::RestoreReturnState,
        EntryStep::RestoreGeneralRegisters,
        EntryStep::Resume,
    ]
}

/// The words of a trap frame as it lies on the stack.
pub open spec fn frame_words(frame: TrapFrame) -> Seq<u64> {
    Seq::new(
        TRAP_FRAME_WORDS as nat,
        |i: int|
            if i < TRAP_FRAME_REGS {
                frame.regs@[i]
            } else if i == TRAP_FRAME_ELR {
                frame.elr
            } else if i == TRAP_FRAME_SPSR {
                frame.spsr
            } else {
                0
            },
    )
}

/// Whether `frame` is what the words of a trap frame on the stack hold.
pub open spec fn frame_holds(frame: TrapFrame, words: Seq<u64>) -> bool {
    &&& words.len() == TRAP_FRAME_WORDS
    &&& frame.regs@ == words.subrange(0, TRAP_FRAME_REGS as int)
    &&& frame.elr == words[TRAP_FRAME_ELR as int]
    &&& frame.spsr == words[TRAP_FRAME_SPSR as int]
}

/// Position of a source context in the vector table.
pub open spec fn context_index(context: SourceContext) -> int {
    match context {
        SourceContext::CurrentSp0 => 0,
        SourceContext::CurrentSpx => 1,
        SourceContext::LowerAarch64 => 2,
        SourceContext::LowerAarch32 => 3,
    }
}

/// Position of an exception class within a source context's entries.
pub open spec fn kind_index(kind: ExceptionKind) -> int {
    match kind {
        ExceptionKind::Synchronous => 0,
        ExceptionKind::Irq => 1,
        ExceptionKind::Fiq => 2,
        ExceptionKind::SError => 3,
    }
}

/// Offset of the vector table entry of a source context and class.
pub open spec fn vector_offset_of(context: SourceContext, kind: ExceptionKind) -> int {
    (context_index(context) * 4 + kind_index(kind)) * VECTOR_ENTRY_SIZE
}

/// The handler of a source context and class. Exceptions from the current
/// level share one handler per class, whichever stack pointer was in use.
pub open spec fn handler_of(context: SourceContext, kind: ExceptionKind) -> Handler {
    match (context, kind) {
        (SourceContext::CurrentSp0, ExceptionKind::Synchronous) => Handler::El1Sync,
        (SourceContext::CurrentSp0, ExceptionKind::Irq) => Handler::El1Irq,
        (SourceContext::CurrentSp0, ExceptionKind::Fiq) => Handler::El1Fiq,
        (SourceContext::CurrentSp0, ExceptionKind::SError) => Handler::El1SError,
        (SourceContext::CurrentSpx, ExceptionKind::Synchronous) => Handler::El1Sync,
        (SourceContext::CurrentSpx, ExceptionKind::Irq) => Handler::El1Irq,
        (SourceContext::CurrentSpx, ExceptionKind::Fiq) => Handler::El1Fiq,
        (SourceContext::CurrentSpx, ExceptionKind::SError) => Handler::El1SError,
        (SourceContext::LowerAarch64, ExceptionKind::Synchronous) => Handler::El0Sync,
        (SourceContext::LowerAarch64, ExceptionKind::Irq) => Handler::El0Irq,
        (SourceContext::LowerAarch64, ExceptionKind::Fiq) => Handler::El0Fiq,
        (SourceContext::LowerAarch64, ExceptionKind::SError) => Handler::El0SError,
        (SourceContext::LowerAarch32, ExceptionKind::Synchronous) => Handler::El0SyncA32,
        (SourceContext::LowerAarch32, ExceptionKind::Irq) => Handler::El0IrqA32,
        (SourceContext::LowerAarch32, ExceptionKind::Fiq) => Handler::El0FiqA32,
        (SourceContext::LowerAarch32, ExceptionKind::SError) => Handler::El0SErrorA32,
    }
}

/// The source context at position `index` of the vector table.
pub open spec fn context_at(index: int) -> SourceContext {
    if index == 0 {
        SourceContext::CurrentSp0
    } else if index == 1 {
        SourceContext::CurrentSpx
    } else if index == 2 {
        SourceContext::LowerAarch64
    } else {
        SourceContext::LowerAarch32
    }
}

/// The exception class at position `index` of a source context's entries.
pub open spec fn kind_at(index: int) -> ExceptionKind {
    if index == 0 {
        ExceptionKind::Synchronous
    } else if index == 1 {
        ExceptionKind::Irq
    } else if index == 2 {
        ExceptionKind::Fiq
    } else {
        ExceptionKind::SError
    }
}

/// Entry `index` of the vector table.
pub open spec fn vector_entry_at(index: int) -> VectorEntry {
    VectorEntry {
        offset: (index * VECTOR_ENTRY_SIZE) as u64,
        context: context_at(index / 4),
        kind: kind_at(index % 4),
        handler: handler_of(context_at(index / 4), kind_at(index % 4)),
    }
}

/// The exception class field of a syndrome value: bits 31 to 26.
pub open spec fn exception_class_of(esr: u64) -> int {
    (esr as int / 0x400_0000) % 0x40
}

/// The instruction-specific field of a syndrome value: bits 24 to 0.
pub open spec fn iss_of(esr: u64) -> int {
    esr as int % 0x200_0000
}

/// The sub-class of a synchronous exception with exception class `ec`.
pub open spec fn sync_class_of(ec: int) -> SyncClass {
    if ec == EC_SVC {
        SyncClass::Svc
    } else if ec == EC_SMC {
        SyncClass::Smc
    } else if ec == EC_INSTRUCTION_ABORT {
        SyncClass::InstructionAbort
    } else if ec == EC_DATA_ABORT {
        SyncClass::DataAbort
    } else {
        SyncClass::Unknown
    }
}

/// What follows a synchronous exception taken at the kernel's own level: a
/// secure-monitor call goes to the bridge; an exception of unknown class
/// is fatal, since resuming would raise it again; everything else is
/// reported and resumed.
pub open spec fn el1_sync_action(class: SyncClass) -> TrapAction {
    match class {
        SyncClass::Smc => TrapAction::HandleSmc,
        SyncClass::Unknown => TrapAction::Halt,
        _ => TrapAction::Resume,
    }
}

/// The range that an interrupt id lies in.
pub open spec fn irq_kind_of(id: u32) -> IrqKind {
    if is_sgi(id) {
        IrqKind::Sgi
    } else if is_ppi(id) {
        IrqKind::Ppi
    } else if is_spi(id) {
        IrqKind::Spi
    } else if is_spurious(id) {
        IrqKind::Spurious
    } else {
        IrqKind::Reserved
    }
}

/// The handler that runs for an acknowledged id, given the handler of each
/// interrupt: none for a spurious id, the interrupt's own for the id of an
/// interrupt, the default for the two reserved ids.
pub open spec fn handler_of_irq(handlers: Seq<IrqHandler>, id: u32) -> Option<IrqHandler> {
    if is_spurious(id) {
        None
    } else if id < INTERRUPT_ID_LIMIT {
        Some(handlers[id as int])
    } else {
        Some(IrqHandler::LogAndIgnore)
    }
}

/// The operations that halt a core: all exceptions masked.
pub open spec fn halt_ops() -> Seq<HwOp> {
    seq![HwOp::DaifSet { mask: DAIF_ALL }, HwOp::Isb]
}

proof fn lemma_syndrome_fields(esr: u64)
    ensures
        (esr >> 26) & 0x3F == exception_class_of(esr),
        esr & 0x1FFFFFF == iss_of(esr),
{
    assert((esr >> 26u64) & 0x3F == (esr / 0x400_0000) % 0x40 && esr & 0x1FFFFFF == esr
        % 0x200_0000) by (bit_vector);
}

impl TrapFrame {
    /// The trap frame that lies on the stack as `words`; none if `words`
    /// is not as long as a trap frame.
    pub fn from_words(words: &[u64]) -> (frame: Option<TrapFrame>)
        ensures
            match frame {
                Some(frame) => frame_holds(frame, words@),
                None => words@.len() != TRAP_FRAME_WORDS,
            },
    {
        if words.len() != TRAP_FRAME_WORDS {
            return None;
        }
        let mut regs: [u64; 31] = [0; 31];
        let mut i: usize = 0;
        while i < TRAP_FRAME_REGS
            invariant
                i <= TRAP_FRAME_REGS,
                words@.len() == TRAP_FRAME_WORDS,
                forall|k: int| 0 <= k < i ==> regs@[k] == words@[k],
            decreases TRAP_FRAME_REGS - i,
        {
            regs[i] = words[i];
            i = i + 1;
        }
        assert(regs@ =~= words@.subrange(0, TRAP_FRAME_REGS as int));
        Some(TrapFrame { regs, elr: words[TRAP_FRAME_ELR], spsr: words[TRAP_FRAME_SPSR] })
    }

    /// The words of the trap frame as it lies on the stack.
    pub fn to_words(&self) -> (words: Vec<u64>)
        ensures
            words@ == frame_words(*self),
    {
        let mut words: Vec<u64> = Vec::new();
        let mut i: usize = 0;
        while i < TRAP_FRAME_REGS
            invariant
                i <= TRAP_FRAME_REGS,
                words@.len() == i,
                forall|k: int| 0 <= k < i ==> words@[k] == self.regs@[k],
            decreases TRAP_FRAME_REGS - i,
        {
            words.push(self.regs[i]);
            i = i + 1;
        }
        words.push(self.elr);
        words.push(self.spsr);
        words.push(0);
        assert(words@ =~= frame_words(*self));
        words
    }
}

/// What happens between a trap from `context` of class `kind` and the
/// return from it.
pub fn entry_protocol(context: SourceContext, kind: ExceptionKind) -> (steps: Vec<EntryStep>)
    ensures
        steps@ == entry_protocol_of(handler_of(context, kind)),
{
    vec![
        EntryStep::SaveGeneralRegisters,
        EntryStep::SaveReturnState,
        EntryStep::Invoke { handler: handler_for(context, kind) },
        EntryStep::RestoreReturnState,
        EntryStep::RestoreGeneralRegisters,
        EntryStep::Resume,
    ]
}

/// The exception class field of a syndrome value.
pub fn exception_class(esr: u64) -> (ec: u64)
    ensures
        ec == exception_class_of(esr),
{
    proof {
        lemma_syndrome_fields(esr);
    }
    (esr >> 26) & 0x3F
}

/// The sub-class of the synchronous exception with syndrome `esr`.
pub fn classify_sync(esr: u64) -> (class: SyncClass)
    ensures
        class == sync_class_of(exception_class_of(esr)),
{
    let ec = exception_class(esr);
    if ec == EC_SVC {
        SyncClass::Svc
    } else if ec == EC_SMC {
        SyncClass::Smc
    } else if ec == EC_INSTRUCTION_ABORT {
        SyncClass::InstructionAbort
    } else if ec == EC_DATA_ABORT {
        SyncClass::DataAbort
    } else {
        SyncClass::Unknown
    }
}

/// Offset of the vector table entry of a source context and class.
pub fn vector_offset(context: SourceContext, kind: ExceptionKind) -> (offset: u64)
    ensures
        offset == vector_offset_of(context, kind),
        offset < VECTOR_ENTRIES * VECTOR_ENTRY_SIZE,
        offset % VECTOR_ENTRY_SIZE == 0,
{
    let c: u64 = match context {
        SourceContext::CurrentSp0 => 0,
        SourceContext::CurrentSpx => 1,
        SourceContext::LowerAarch64 => 2,
        SourceContext::LowerAarch32 => 3,
    };
    let k: u64 = match kind {
        ExceptionKind::Synchronous => 0,
        ExceptionKind::Irq => 1,
        ExceptionKind::Fiq => 2,
        ExceptionKind::SError => 3,
    };
    (c * 4 + k) * VECTOR_ENTRY_SIZE
}

/// The source context at position `index` of the vector table; the last
/// one for any position from 3 on.
fn context_by_index(index: u64) -> (context: SourceContext)
    ensures
        context == context_at(index as int),
{
    match index {
        0 => SourceContext::CurrentSp0,
        1 => SourceContext::CurrentSpx,
        2 => SourceContext::LowerAarch64,
        _ => SourceContext::LowerAarch32,
    }
}

/// The exception class at position `index` of a source context's entries;
/// the last one for any position from 3 on.
fn kind_by_index(index: u64) -> (kind: ExceptionKind)
    ensures
        kind == kind_at(index as int),
{
    match index {
        0 => ExceptionKind::Synchronous,
        1 => ExceptionKind::Irq,
        2 => ExceptionKind::Fiq,
        _ => ExceptionKind::SError,
    }
}

/// The source context and class whose vector table entry lies at `offset`,
/// if any does.
pub fn vector_slot(offset: u64) -> (slot: Option<(SourceContext, ExceptionKind)>)
    ensures
        match slot {
            Some((context, kind)) => vector_offset_of(context, kind) == offset,
            None => forall|context: SourceContext, kind: ExceptionKind|
                vector_offset_of(context, kind) != offset,
        },
{
    if offset % VECTOR_ENTRY_SIZE != 0 || offset >= (VECTOR_ENTRIES as u64) * VECTOR_ENTRY_SIZE {
        return None;
    }
    let index: u64 = offset / VECTOR_ENTRY_SIZE;
    Some((context_by_index(index / 4), kind_by_index(index % 4)))
}

/// The handler that the vector table routes a source context and class to.
pub fn handler_for(context: SourceContext, kind: ExceptionKind) -> (handler: Handler)
    ensures
        handler == handler_of(context, kind),
{
    match context {
        SourceContext::CurrentSp0 | SourceContext::CurrentSpx => match kind {
            ExceptionKind::Synchronous => Handler::El1Sync,
            ExceptionKind::Irq => Handler::El1Irq,
            ExceptionKind::Fiq => Handler::El1Fiq,
            ExceptionKind::SError => Handler::El1SError,
        },
        SourceContext::LowerAarch64 => match kind {
            ExceptionKind::Synchronous => Handler::El0Sync,
            ExceptionKind::Irq => Handler::El0Irq,
            ExceptionKind::Fiq => Handler::El0Fiq,
            ExceptionKind::SError => Handler::El0SError,
        },
        SourceContext::LowerAarch32 => match kind {
            ExceptionKind::Synchronous => Handler::El0SyncA32,
            ExceptionKind::Irq => Handler::El0IrqA32,
            ExceptionKind::Fiq => Handler::El0FiqA32,
            ExceptionKind::SError => Handler::El0SErrorA32,
        },
    }
}

/// The vector table: sixteen entries, `VECTOR_ENTRY_SIZE` bytes apart, four
/// classes for each of four source contexts.
pub fn vector_table() -> (table: Vec<VectorEntry>)
    ensures
        table@.len() == VECTOR_ENTRIES,
        forall|i: int| 0 <= i < VECTOR_ENTRIES ==> #[trigger] table@[i] == vector_entry_at(i),
{
    let mut table: Vec<VectorEntry> = Vec::new();
    let mut index: u64 = 0;
    while index < VECTOR_ENTRIES as u64
        invariant
            index <= VECTOR_ENTRIES,
            table@.len() == index,
            forall|i: int| 0 <= i < index ==> #[trigger] table@[i] == vector_entry_at(i),
        decreases VECTOR_ENTRIES - index,
    {
        let context = context_by_index(index / 4);
        let kind = kind_by_index(index % 4);
        table.push(
            VectorEntry {
                offset: index * VECTOR_ENTRY_SIZE,
                context,
                kind,
                handler: handler_for(context, kind),
            },
        );
        index = index + 1;
    }
    table
}

/// Handler of a synchronous exception taken at the kernel's own level,
/// given the syndrome and the fault address.
pub fn handle_el1_sync_exception(esr: u64, far: u64) -> (trap: SyncTrap)
    ensures
        trap.ec == exception_class_of(esr),
        trap.iss == iss_of(esr),
        trap.far == far,
        trap.class == sync_class_of(exception_class_of(esr)),
        trap.action == el1_sync_action(trap.class),
{
    proof {
        lemma_syndrome_fields(esr);
    }
    let ec: u64 = (esr >> 26) & 0x3F;
    let iss: u64 = esr & 0x1FFFFFF;
    let class = classify_sync(esr);
    // Handle specific exception types
    let action = match class {
        // SMC instruction: call the SMC handler
        SyncClass::Smc => TrapAction::HandleSmc,
        // SVC from the same level is not supported; aborts are reported
        SyncClass::Svc | SyncClass::InstructionAbort | SyncClass::DataAbort => TrapAction::Resume,
        SyncClass::Unknown => TrapAction::Halt,
    };
    SyncTrap { ec, iss, far, class, action }
}

/// The range that an acknowledged interrupt id lies in.
pub fn irq_kind(id: u32) -> (kind: IrqKind)
    ensures
        kind == irq_kind_of(id),
{
    if id < SGI_ID_LIMIT {
        IrqKind::Sgi
    } else if id < PPI_ID_LIMIT {
        IrqKind::Ppi
    } else if id < INTERRUPT_ID_LIMIT {
        IrqKind::Spi
    } else if id >= SPURIOUS_ID_BASE {
        IrqKind::Spurious
    } else {
        IrqKind::Reserved
    }
}

impl View for IrqTable {
    type V = Seq<IrqHandler>;

    closed spec fn view(&self) -> Seq<IrqHandler> {
        self.handlers@
    }
}

impl IrqTable {
    /// The table's invariant: one handler for each interrupt id.
    pub open spec fn wf(&self) -> bool {
        self@.len() == INTERRUPT_ID_LIMIT
    }

    /// A table in which every interrupt has the default handler.
    pub fn new() -> (table: Self)
        ensures
            table.wf(),
            forall|id: int| 0 <= id < INTERRUPT_ID_LIMIT ==> table@[id] == IrqHandler::LogAndIgnore,
    {
        let mut handlers: Vec<IrqHandler> = Vec::new();
        let mut id: u32 = 0;
        while id < INTERRUPT_ID_LIMIT
            invariant
                id <= INTERRUPT_ID_LIMIT,
                handlers@.len() == id,
                forall|k: int| 0 <= k < id ==> handlers@[k] == IrqHandler::LogAndIgnore,
            decreases INTERRUPT_ID_LIMIT - id,
        {
            handlers.push(IrqHandler::LogAndIgnore);
            id = id + 1;
        }
        IrqTable { handlers }
    }

    /// Register `handler` for interrupt `id`, in place of the handler it
    /// had. Refused for an id that is not that of an interrupt; then the
    /// table is unchanged.
    pub fn register(&mut self, id: u32, handler: IrqHandler) -> (r: Result<(), GicError>)
        requires
            old(self).wf(),
        ensures
            final(self).wf(),
            id < INTERRUPT_ID_LIMIT ==> r is Ok && final(self)@ == old(self)@.update(
                id as int,
                handler,
            ),
            id >= INTERRUPT_ID_LIMIT ==> r == Err::<(), GicError>(GicError::InvalidInterruptId)
                && final(self)@ == old(self)@,
    {
        if id >= INTERRUPT_ID_LIMIT {
            return Err(GicError::InvalidInterruptId);
        }
        self.handlers.set(id as usize, handler);
        Ok(())
    }

    /// The handler that runs for an acknowledged id.
    pub fn lookup(&self, id: u32) -> (handler: Option<IrqHandler>)
        requires
            self.wf(),
        ensures
            handler == handler_of_irq(self@, id),
    {
        if id >= SPURIOUS_ID_BASE {
            None
        } else if id < INTERRUPT_ID_LIMIT {
            Some(self.handlers[id as usize])
        } else {
            Some(IrqHandler::LogAndIgnore)
        }
    }
}

/// Handler of an IRQ, given the value read from the acknowledge register
/// and the registered handlers.
///
/// A spurious id (1022 or more) means that there is nothing to do: no
/// handler runs and the interrupt is never ended. For any other id the
/// handler registered for it runs, the default if none was, and then the
/// interrupt is ended, once.
pub fn handle_el1_irq(table: &IrqTable, iar: u64) -> (dispatch: IrqDispatch)
    requires
        table.wf(),
    ensures
        dispatch.id == iar % 0x100_0000,
        dispatch.kind == irq_kind_of(dispatch.id),
        dispatch.handler == handler_of_irq(table@, dispatch.id),
        is_spurious(dispatch.id) ==> dispatch.end@ == Seq::<HwOp>::empty(),
        !is_spurious(dispatch.id) ==> dispatch.end@ == synced_write(
            SysReg::IccEoir1El1,
            dispatch.id as u64,
        ),
{
    let id = GicV3Driver::acknowledge_interrupt(iar);
    let kind = irq_kind(id);
    let handler = table.lookup(id);
    let end = match kind {
        IrqKind::Spurious => Vec::new(),
        _ => GicV3Driver::end_interrupt(id),
    };
    IrqDispatch { id, kind, handler, end }
}

/// Handler of an FIQ taken at the kernel's own level: no recovery.
pub fn handle_el1_fiq() -> (action: TrapAction)
    ensures
        action == TrapAction::Halt,
{
    TrapAction::Halt
}

/// Handler of an SError taken at the kernel's own level: no recovery.
pub fn handle_el1_serror(esr: u64) -> (action: TrapAction)
    ensures
        action == TrapAction::Halt,
{
    TrapAction::Halt
}

/// Handler of an IRQ taken from a lower level: as at the kernel's own.
pub fn handle_el0_irq(table: &IrqTable, iar: u64) -> (dispatch: IrqDispatch)
    requires
        table.wf(),
    ensures
        dispatch.id == iar % 0x100_0000,
        dispatch.kind == irq_kind_of(dispatch.id),
        dispatch.handler == handler_of_irq(table@, dispatch.id),
        is_spurious(dispatch.id) ==> dispatch.end@ == Seq::<HwOp>::empty(),
        !is_spurious(dispatch.id) ==> dispatch.end@ == synced_write(
            SysReg::IccEoir1El1,
            dispatch.id as u64,
        ),
{
    handle_el1_irq(table, iar)
}

/// Handler of an FIQ taken from a lower level: no recovery.
pub fn handle_el0_fiq() -> (action: TrapAction)
    ensures
        action == TrapAction::Halt,
{
    TrapAction::Halt
}

/// Handler of an SError taken from a lower level: no recovery.
pub fn handle_el0_serror(esr: u64) -> (action: TrapAction)
    ensures
        action == TrapAction::Halt,
{
    TrapAction::Halt
}

/// Handler of a synchronous exception from AArch32 state, which is not
/// supported: reported and resumed.
pub fn handle_el0_sync_a32() -> (action: TrapAction)
    ensures
        action == TrapAction::Resume,
{
    TrapAction::Resume
}

/// Handler of an IRQ taken from AArch32 state: an interrupt is
/// acknowledged, dispatched and ended whatever code it interrupted.
pub fn handle_el0_irq_a32(table: &IrqTable, iar: u64) -> (dispatch: IrqDispatch)
    requires
        table.wf(),
    ensures
        dispatch.id == iar % 0x100_0000,
        dispatch.kind == irq_kind_of(dispatch.id),
        dispatch.handler == handler_of_irq(table@, dispatch.id),
        is_spurious(dispatch.id) ==> dispatch.end@ == Seq::<HwOp>::empty(),
        !is_spurious(dispatch.id) ==> dispatch.end@ == synced_write(
            SysReg::IccEoir1El1,
            dispatch.id as u64,
        ),
{
    handle_el1_irq(table, iar)
}

/// Handler of an FIQ from AArch32 state: no recovery.
pub fn handle_el0_fiq_a32() -> (action: TrapAction)
    ensures
        action == TrapAction::Halt,
{
    TrapAction::Halt
}

/// Handler of an SError from AArch32 state: no recovery.
pub fn handle_el0_serror_a32() -> (action: TrapAction)
    ensures
        action == TrapAction::Halt,
{
    TrapAction::Halt
}

/// The operations that halt the core after a fatal trap: every exception
/// masked, so that nothing runs on it again.
pub fn halt() -> (ops: Vec<HwOp>)
    ensures
        ops@ == halt_ops(),
{
    vec![HwOp::DaifSet { mask: DAIF_ALL }, HwOp::Isb]
}

/// The vector table has one entry for each source context and class, at
/// that pair's offset, and no two pairs share an entry.
pub proof fn lemma_vector_table_exact(context: SourceContext, kind: ExceptionKind)
    ensures
        0 <= context_index(context) * 4 + kind_index(kind) < VECTOR_ENTRIES,
        vector_entry_at(context_index(context) * 4 + kind_index(kind)) == (VectorEntry {
            offset: vector_offset_of(context, kind) as u64,
            context,
            kind,
            handler: handler_of(context, kind),
        }),
        forall|c: SourceContext, k: ExceptionKind|
            vector_offset_of(c, k) == vector_offset_of(context, kind) ==> c == context && k
                == kind,
{
}

/// A trap frame survives the stack: the words that a frame is stored as
/// hold that frame, whole.
pub proof fn lemma_frame_round_trip(frame: TrapFrame)
    ensures
        frame_holds(frame, frame_words(frame)),
{
    assert(frame.regs@ =~= frame_words(frame).subrange(0, TRAP_FRAME_REGS as int));
}

/// A spurious id is no interrupt: it has its own kind and no handler,
/// whatever is registered; an id below 1020 always lies in exactly one of
/// the three ranges of interrupts.
pub proof fn lemma_spurious_is_no_interrupt(handlers: Seq<IrqHandler>, id: u32)
    ensures
        is_spurious(id) <==> irq_kind_of(id) == IrqKind::Spurious,
        is_spurious(id) <==> handler_of_irq(handlers, id) is None,
        id < INTERRUPT_ID_LIMIT <==> irq_kind_of(id) == IrqKind::Sgi || irq_kind_of(id)
            == IrqKind::Ppi || irq_kind_of(id) == IrqKind::Spi,
{
}

} // verus!
