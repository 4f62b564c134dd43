use nezha_runtime::dispatch::{
    advance, classify_trap, complete_call, is_recognized_call, step, Action, DispatchState, Event,
    ResetDirective, SavedRegs, TrapCause, ECALL_LENGTH, EXTENSION_BASE, EXTENSION_SRST,
    EXTENSION_TIMER, SBI_ERR_NOT_SUPPORTED,
};
use nezha_runtime::power::{finish, PowerAction, ResetKind};

fn regs(extension: usize, function: usize, a0: usize, a1: usize) -> SavedRegs {
    SavedRegs { a0, a1, a2: 12, a3: 13, a4: 14, a5: 15, a6: function, a7: extension, pc: 0x4000_0100 }
}

fn call(r: SavedRegs) -> Event {
    Event::Trap { cause: TrapCause::FirmwareCall, regs: r }
}

#[test]
fn launch_enters_the_supervisor() {
    let (state, action) =
        step(DispatchState::Idle, Event::Launch { entry: 0x4000_0000, arg0: 0, arg1: 0 });
    assert_eq!(state, DispatchState::Running);
    assert_eq!(action, Action::Enter { entry: 0x4000_0000, arg0: 0, arg1: 0 });
}

#[test]
fn launch_passes_both_argument_words() {
    let (_, action) =
        step(DispatchState::Idle, Event::Launch { entry: 0x8020_0000, arg0: 7, arg1: 0x1400_0000 });
    assert_eq!(action, Action::Enter { entry: 0x8020_0000, arg0: 7, arg1: 0x1400_0000 });
}

#[test]
fn reset_request_round_trips_each_kind() {
    let kinds = [
        (0usize, ResetKind::Shutdown),
        (1usize, ResetKind::ColdReboot),
        (2usize, ResetKind::WarmReboot),
    ];
    for (code, kind) in kinds {
        let (state, action) = step(DispatchState::Running, call(regs(EXTENSION_SRST, 0, code, 1)));
        let directive = ResetDirective { kind, reason: 1 };
        assert_eq!(state, DispatchState::Exited(directive));
        assert_eq!(action, Action::Return(directive));
    }
}

#[test]
fn shutdown_request_ends_in_idle_halt() {
    let (state, _) = step(DispatchState::Running, call(regs(EXTENSION_SRST, 0, 0, 0)));
    match state {
        DispatchState::Exited(directive) => {
            assert_eq!(finish(directive.kind.encode()), PowerAction::IdleHalt);
        }
        other => panic!("not exited: {:?}", other),
    }
}

#[test]
fn reset_request_with_unknown_kind_is_fatal() {
    let (state, action) = step(DispatchState::Running, call(regs(EXTENSION_SRST, 0, 3, 0)));
    assert_eq!(state, DispatchState::Fatal);
    assert_eq!(action, Action::Halt);
}

#[test]
fn unsupported_extension_returns_not_supported() {
    let r = regs(0x0BAD_CA11, 0, 5, 6);
    let (state, action) = step(DispatchState::Running, call(r));
    assert_eq!(state, DispatchState::Running);
    let expected = SavedRegs { a0: usize::MAX - 1, a1: 0, pc: 0x4000_0104, ..r };
    assert_eq!(action, Action::Resume(expected));
}

#[test]
fn unsupported_reset_function_returns_not_supported() {
    let r = regs(EXTENSION_SRST, 1, 0, 0);
    let (state, action) = step(DispatchState::Running, call(r));
    assert_eq!(state, DispatchState::Running);
    assert_eq!(
        action,
        Action::Resume(SavedRegs { a0: SBI_ERR_NOT_SUPPORTED, a1: 0, pc: r.pc + 4, ..r })
    );
}

#[test]
fn recognized_call_is_forwarded_then_resumed() {
    let r = regs(EXTENSION_TIMER, 0, 1000, 0);
    let (state, action) = step(DispatchState::Running, call(r));
    assert_eq!(state, DispatchState::Trapped { cause: TrapCause::FirmwareCall, regs: r });
    assert_eq!(action, Action::Forward(r));
    let (state, action) = step(state, Event::CallHandled { error: 0, value: 42 });
    assert_eq!(state, DispatchState::Running);
    assert_eq!(action, Action::Resume(SavedRegs { a0: 0, a1: 42, pc: r.pc + 4, ..r }));
}

#[test]
fn illegal_instruction_is_emulated_and_skipped() {
    let r = regs(0, 0, 1, 2);
    let trap = Event::Trap { cause: TrapCause::IllegalInstruction, regs: r };
    let (state, action) = step(DispatchState::Running, trap);
    assert_eq!(state, DispatchState::Trapped { cause: TrapCause::IllegalInstruction, regs: r });
    assert_eq!(action, Action::Emulate(r));
    let after = SavedRegs { a0: 99, pc: 0, ..r };
    let (state, action) = step(state, Event::Emulated { regs: after, length: 2 });
    assert_eq!(state, DispatchState::Running);
    assert_eq!(action, Action::Resume(SavedRegs { a0: 99, pc: r.pc + 2, ..r }));
}

#[test]
fn instruction_that_cannot_be_emulated_is_reflected_unchanged() {
    let r = regs(0, 0, 1, 2);
    let trap = Event::Trap { cause: TrapCause::IllegalInstruction, regs: r };
    let (state, _) = step(DispatchState::Running, trap);
    let (state, action) = step(state, Event::NotEmulated);
    assert_eq!(state, DispatchState::Running);
    assert_eq!(action, Action::Reflect(r));
}

#[test]
fn unknown_trap_cause_is_fatal_and_stays_fatal() {
    let r = regs(0, 0, 0, 0);
    let trap = Event::Trap { cause: TrapCause::Other(7), regs: r };
    let (state, action) = step(DispatchState::Running, trap);
    assert_eq!((state, action), (DispatchState::Fatal, Action::Halt));
    let later = [
        Event::Launch { entry: 1, arg0: 2, arg1: 3 },
        call(regs(EXTENSION_SRST, 0, 0, 0)),
        Event::CallHandled { error: 0, value: 0 },
        Event::Emulated { regs: r, length: 4 },
        Event::NotEmulated,
    ];
    for event in later {
        assert_eq!(step(DispatchState::Fatal, event), (DispatchState::Fatal, Action::Halt));
    }
}

#[test]
fn events_out_of_turn_are_fatal() {
    let r = regs(EXTENSION_BASE, 0, 0, 0);
    assert_eq!(step(DispatchState::Idle, call(r)), (DispatchState::Fatal, Action::Halt));
    assert_eq!(
        step(DispatchState::Running, Event::Launch { entry: 0, arg0: 0, arg1: 0 }),
        (DispatchState::Fatal, Action::Halt)
    );
    assert_eq!(
        step(DispatchState::Running, Event::CallHandled { error: 0, value: 0 }),
        (DispatchState::Fatal, Action::Halt)
    );
    let waiting = DispatchState::Trapped { cause: TrapCause::FirmwareCall, regs: r };
    assert_eq!(step(waiting, Event::NotEmulated), (DispatchState::Fatal, Action::Halt));
}

#[test]
fn exit_is_terminal() {
    let directive = ResetDirective { kind: ResetKind::WarmReboot, reason: 9 };
    let exited = DispatchState::Exited(directive);
    assert_eq!(step(exited, Event::NotEmulated), (exited, Action::Return(directive)));
    assert_eq!(
        step(exited, call(regs(EXTENSION_SRST, 0, 0, 0))),
        (exited, Action::Return(directive))
    );
}

#[test]
fn recognized_set() {
    assert!(is_recognized_call(EXTENSION_SRST, 0));
    assert!(!is_recognized_call(EXTENSION_SRST, 1));
    assert!(is_recognized_call(EXTENSION_BASE, 3));
    assert!(is_recognized_call(0x5449_4D45, 0));
    assert!(is_recognized_call(0x73_5049, 0));
    assert!(is_recognized_call(0x5246_4E43, 6));
    assert!(is_recognized_call(0x48_534D, 2));
    assert!(is_recognized_call(0x50_4D55, 0));
    for legacy in [0usize, 1, 2, 4, 8] {
        assert!(is_recognized_call(legacy, 0));
    }
    for other in [3usize, 5, 6, 7, 9, 0x11, 0x0BAD_CA11, usize::MAX] {
        assert!(!is_recognized_call(other, 0));
    }
}

#[test]
fn advance_wraps_at_the_end_of_the_address_space() {
    assert_eq!(advance(0x1000, 4), 0x1004);
    assert_eq!(advance(usize::MAX - 3, 4), 0);
    assert_eq!(advance(usize::MAX, 4), 3);
    assert_eq!(advance(usize::MAX, 0), usize::MAX);
    assert_eq!(advance(5, usize::MAX), 4);
}

#[test]
fn complete_call_writes_both_results() {
    let r = regs(EXTENSION_BASE, 0, 1, 2);
    let after = complete_call(r, 0, 0x0100_0000);
    assert_eq!(after, SavedRegs { a0: 0, a1: 0x0100_0000, pc: r.pc + ECALL_LENGTH, ..r });
    assert_ne!(after, r);
}

#[test]
fn cause_register_is_classified() {
    assert_eq!(classify_trap(9), TrapCause::FirmwareCall);
    assert_eq!(classify_trap(2), TrapCause::IllegalInstruction);
    assert_eq!(classify_trap(8), TrapCause::Other(8));
    assert_eq!(classify_trap(11), TrapCause::Other(11));
    assert_eq!(classify_trap(0), TrapCause::Other(0));
    let interrupt = 1usize << (usize::BITS - 1);
    assert_eq!(classify_trap(interrupt | 9), TrapCause::Other(interrupt | 9));
    assert_eq!(classify_trap(interrupt | 2), TrapCause::Other(interrupt | 2));
}

#[test]
fn unclassified_cause_halts_the_dispatcher() {
    let r = regs(0, 0, 0, 0);
    for mcause in [0usize, 1, 3, 5, 7, 8, 11, 13, 15] {
        let trap = Event::Trap { cause: classify_trap(mcause), regs: r };
        assert_eq!(step(DispatchState::Running, trap), (DispatchState::Fatal, Action::Halt));
    }
}
