use s32g3_kernel::arch::aarch64::{HwOp, SysReg};
use s32g3_kernel::arch::exceptions::{
    classify_sync, entry_protocol, exception_class, halt, handle_el0_fiq, handle_el0_fiq_a32, handle_el0_irq,
    handle_el0_irq_a32, handle_el0_serror, handle_el0_serror_a32, handle_el0_sync_a32,
    handle_el1_fiq, handle_el1_irq, handle_el1_serror, handle_el1_sync_exception, handler_for,
    irq_kind, vector_offset, vector_slot, vector_table, EntryStep, ExceptionKind, Handler,
    IrqHandler, IrqKind, IrqTable, SourceContext, SyncClass, SyncTrap, TrapAction, TrapFrame,
};

const CONTEXTS: [SourceContext; 4] = [
    SourceContext::CurrentSp0,
    SourceContext::CurrentSpx,
    SourceContext::LowerAarch64,
    SourceContext::LowerAarch32,
];
const KINDS: [ExceptionKind; 4] =
    [ExceptionKind::Synchronous, ExceptionKind::Irq, ExceptionKind::Fiq, ExceptionKind::SError];

#[test]
fn vector_table_has_sixteen_entries_with_fixed_spacing() {
    let table = vector_table();
    assert_eq!(table.len(), 16);
    for (i, entry) in table.iter().enumerate() {
        assert_eq!(entry.offset, i as u64 * 0x80);
        assert_eq!(entry.context, CONTEXTS[i / 4]);
        assert_eq!(entry.kind, KINDS[i % 4]);
        assert_eq!(entry.handler, handler_for(entry.context, entry.kind));
        assert_eq!(vector_offset(entry.context, entry.kind), entry.offset);
        assert_eq!(vector_slot(entry.offset), Some((entry.context, entry.kind)));
    }
}

#[test]
fn vector_offsets_of_known_entries() {
    assert_eq!(vector_offset(SourceContext::CurrentSp0, ExceptionKind::Synchronous), 0x000);
    assert_eq!(vector_offset(SourceContext::CurrentSpx, ExceptionKind::Irq), 0x280);
    assert_eq!(vector_offset(SourceContext::LowerAarch64, ExceptionKind::Synchronous), 0x400);
    assert_eq!(vector_offset(SourceContext::LowerAarch32, ExceptionKind::SError), 0x780);
}

#[test]
fn offsets_that_are_no_entry_have_no_slot() {
    assert_eq!(vector_slot(0x800), None);
    assert_eq!(vector_slot(0x40), None);
    assert_eq!(vector_slot(0x281), None);
    assert_eq!(vector_slot(u64::MAX), None);
}

#[test]
fn handlers_by_context_and_class() {
    assert_eq!(handler_for(SourceContext::CurrentSp0, ExceptionKind::Synchronous), Handler::El1Sync);
    assert_eq!(handler_for(SourceContext::CurrentSpx, ExceptionKind::Irq), Handler::El1Irq);
    assert_eq!(handler_for(SourceContext::CurrentSpx, ExceptionKind::Fiq), Handler::El1Fiq);
    assert_eq!(handler_for(SourceContext::CurrentSp0, ExceptionKind::SError), Handler::El1SError);
    assert_eq!(handler_for(SourceContext::LowerAarch64, ExceptionKind::Synchronous), Handler::El0Sync);
    assert_eq!(handler_for(SourceContext::LowerAarch64, ExceptionKind::Irq), Handler::El0Irq);
    assert_eq!(handler_for(SourceContext::LowerAarch64, ExceptionKind::Fiq), Handler::El0Fiq);
    assert_eq!(handler_for(SourceContext::LowerAarch64, ExceptionKind::SError), Handler::El0SError);
    assert_eq!(handler_for(SourceContext::LowerAarch32, ExceptionKind::Synchronous), Handler::El0SyncA32);
    assert_eq!(handler_for(SourceContext::LowerAarch32, ExceptionKind::Irq), Handler::El0IrqA32);
    assert_eq!(handler_for(SourceContext::LowerAarch32, ExceptionKind::Fiq), Handler::El0FiqA32);
    assert_eq!(handler_for(SourceContext::LowerAarch32, ExceptionKind::SError), Handler::El0SErrorA32);
}

#[test]
fn exception_class_is_bits_31_to_26() {
    assert_eq!(exception_class(0x5600_0000), 0x15);
    assert_eq!(exception_class(0x5E00_0000), 0x17);
    assert_eq!(exception_class(0xFFFF_FFFF_03FF_FFFF), 0);
    assert_eq!(exception_class(0xFC00_0000), 0x3F);
}

#[test]
fn synchronous_exceptions_are_classified() {
    assert_eq!(classify_sync(0x15 << 26), SyncClass::Svc);
    assert_eq!(classify_sync(0x17 << 26), SyncClass::Smc);
    assert_eq!(classify_sync(0x21 << 26), SyncClass::InstructionAbort);
    assert_eq!(classify_sync(0x25 << 26), SyncClass::DataAbort);
    assert_eq!(classify_sync(0x00), SyncClass::Unknown);
    assert_eq!(classify_sync(0x3C << 26), SyncClass::Unknown);
}

#[test]
fn el1_sync_handler_decodes_and_decides() {
    assert_eq!(
        handle_el1_sync_exception(0x5E12_3456, 0xDEAD),
        SyncTrap {
            ec: 0x17,
            iss: 0x12_3456,
            far: 0xDEAD,
            class: SyncClass::Smc,
            action: TrapAction::HandleSmc
        }
    );
    assert_eq!(handle_el1_sync_exception(0x15 << 26, 0).action, TrapAction::Resume);
    assert_eq!(handle_el1_sync_exception(0x21 << 26, 0).action, TrapAction::Resume);
    assert_eq!(handle_el1_sync_exception(0x25 << 26, 0).action, TrapAction::Resume);
    let unknown = handle_el1_sync_exception(0x0200_0000, 0x10);
    assert_eq!(unknown.class, SyncClass::Unknown);
    assert_eq!(unknown.action, TrapAction::Halt);
    assert_eq!(unknown.iss, 0);
    assert_eq!(handle_el1_sync_exception(0x03FF_FFFF, 0).iss, 0x1FF_FFFF);
}

#[test]
fn spurious_acknowledge_is_never_ended() {
    let mut table = IrqTable::new();
    table.register(30, IrqHandler::SystemTick).unwrap();
    for id in [1022u64, 1023, 1024, 0xFF_FFFF] {
        let dispatch = handle_el1_irq(&table, id);
        assert_eq!(dispatch.id as u64, id);
        assert_eq!(dispatch.kind, IrqKind::Spurious);
        assert_eq!(dispatch.handler, None);
        assert!(dispatch.end.is_empty());
        assert!(handle_el0_irq(&table, id).end.is_empty());
        assert!(handle_el0_irq_a32(&table, id).end.is_empty());
    }
}

#[test]
fn acknowledged_interrupt_is_ended_once() {
    let table = IrqTable::new();
    for id in [0u64, 15, 16, 31, 32, 1019, 1020, 1021] {
        let dispatch = handle_el1_irq(&table, 0xAA00_0000 | id);
        assert_eq!(dispatch.id as u64, id);
        assert_eq!(dispatch.handler, Some(IrqHandler::LogAndIgnore));
        assert_eq!(
            dispatch.end,
            vec![HwOp::WriteSysReg { reg: SysReg::IccEoir1El1, value: id }, HwOp::Isb]
        );
    }
}

#[test]
fn interrupt_ids_fall_into_ranges() {
    assert_eq!(irq_kind(0), IrqKind::Sgi);
    assert_eq!(irq_kind(15), IrqKind::Sgi);
    assert_eq!(irq_kind(16), IrqKind::Ppi);
    assert_eq!(irq_kind(31), IrqKind::Ppi);
    assert_eq!(irq_kind(32), IrqKind::Spi);
    assert_eq!(irq_kind(1019), IrqKind::Spi);
    assert_eq!(irq_kind(1020), IrqKind::Reserved);
    assert_eq!(irq_kind(1021), IrqKind::Reserved);
    assert_eq!(irq_kind(1022), IrqKind::Spurious);
    assert_eq!(irq_kind(u32::MAX), IrqKind::Spurious);
}

#[test]
fn fiq_and_serror_are_fatal() {
    assert_eq!(handle_el1_fiq(), TrapAction::Halt);
    assert_eq!(handle_el1_serror(0xBE00_0000), TrapAction::Halt);
    assert_eq!(handle_el0_fiq(), TrapAction::Halt);
    assert_eq!(handle_el0_serror(0), TrapAction::Halt);
    assert_eq!(handle_el0_fiq_a32(), TrapAction::Halt);
    assert_eq!(handle_el0_serror_a32(), TrapAction::Halt);
    assert_eq!(handle_el0_sync_a32(), TrapAction::Resume);
    assert_eq!(halt(), vec![HwOp::DaifSet { mask: 0xF }, HwOp::Isb]);
}

#[test]
fn registered_handlers_are_dispatched_by_id() {
    let mut table = IrqTable::new();
    assert_eq!(table.register(30, IrqHandler::SystemTick), Ok(()));
    assert_eq!(table.register(114, IrqHandler::Console), Ok(()));
    assert_eq!(table.lookup(30), Some(IrqHandler::SystemTick));
    assert_eq!(table.lookup(114), Some(IrqHandler::Console));
    assert_eq!(table.lookup(31), Some(IrqHandler::LogAndIgnore));
    assert_eq!(handle_el1_irq(&table, 30).handler, Some(IrqHandler::SystemTick));
    assert_eq!(handle_el0_irq(&table, 114).handler, Some(IrqHandler::Console));
    let dispatch = handle_el0_irq_a32(&table, 114);
    assert_eq!(dispatch.handler, Some(IrqHandler::Console));
    assert_eq!(
        dispatch.end,
        vec![HwOp::WriteSysReg { reg: SysReg::IccEoir1El1, value: 114 }, HwOp::Isb]
    );
    // A later registration replaces the earlier one.
    assert_eq!(table.register(30, IrqHandler::LogAndIgnore), Ok(()));
    assert_eq!(table.lookup(30), Some(IrqHandler::LogAndIgnore));
}

#[test]
fn handlers_cannot_be_registered_for_ids_that_are_no_interrupt() {
    let mut table = IrqTable::new();
    for id in [1020u32, 1021, 1022, 1023, u32::MAX] {
        assert_eq!(
            table.register(id, IrqHandler::Console),
            Err(s32g3_kernel::arch::gic::GicError::InvalidInterruptId)
        );
    }
    assert_eq!(table.lookup(1020), Some(IrqHandler::LogAndIgnore));
    assert_eq!(table.lookup(1021), Some(IrqHandler::LogAndIgnore));
    assert_eq!(table.lookup(1022), None);
    assert_eq!(table.register(1019, IrqHandler::Console), Ok(()));
    assert_eq!(table.lookup(1019), Some(IrqHandler::Console));
}

#[test]
fn trap_frame_round_trips_through_its_words() {
    let mut regs = [0u64; 31];
    for (i, reg) in regs.iter_mut().enumerate() {
        *reg = 0x1000 + i as u64;
    }
    let frame = TrapFrame { regs, elr: 0x8000_0000, spsr: 0x3C5 };
    let words = frame.to_words();
    assert_eq!(words.len(), 34);
    assert_eq!(words[0], 0x1000);
    assert_eq!(words[30], 0x101E);
    assert_eq!(words[31], 0x8000_0000);
    assert_eq!(words[32], 0x3C5);
    assert_eq!(words[33], 0);
    let back = TrapFrame::from_words(&words).unwrap();
    assert_eq!(back.regs, frame.regs);
    assert_eq!(back.elr, frame.elr);
    assert_eq!(back.spsr, frame.spsr);
}

#[test]
fn trap_frame_needs_all_its_words() {
    assert!(TrapFrame::from_words(&[0u64; 33]).is_none());
    assert!(TrapFrame::from_words(&[0u64; 35]).is_none());
    assert!(TrapFrame::from_words(&[]).is_none());
    assert!(TrapFrame::from_words(&[7u64; 34]).is_some());
}

#[test]
fn return_state_is_restored_before_the_general_registers() {
    for context in CONTEXTS {
        for kind in KINDS {
            let steps = entry_protocol(context, kind);
            assert_eq!(
                steps,
                vec![
                    EntryStep::SaveGeneralRegisters,
                    EntryStep::SaveReturnState,
                    EntryStep::Invoke { handler: handler_for(context, kind) },
                    EntryStep::RestoreReturnState,
                    EntryStep::RestoreGeneralRegisters,
                    EntryStep::Resume
                ]
            );
        }
    }
}
