//! The supervisor dispatch state machine.
//!
//! The hart enters the supervisor once and comes back only through traps.
//! Each trap is a fresh event with the saved registers as its input; the
//! machine answers with the next state and the one action to carry out.

use vstd::prelude::*;
use crate::power::ResetKind;

verus! {

pub const EXTENSION_BASE: usize = 0x10;

pub const EXTENSION_TIMER: usize = 0x54494D45;

pub const EXTENSION_IPI: usize = 0x735049;

pub const EXTENSION_RFENCE: usize = 0x52464E43;

pub const EXTENSION_HSM: usize = 0x48534D;

pub const EXTENSION_SRST: usize = 0x53525354;

pub const EXTENSION_PMU: usize = 0x504D55;

/// The one function of the system reset extension.
pub const FUNCTION_SYSTEM_RESET: usize = 0;

/// Error value of a firmware call that is not supported: -2 as a register
/// value.
pub const SBI_ERR_NOT_SUPPORTED: usize = usize::MAX - 1;

/// Value of the cause register for an illegal instruction.
pub const CAUSE_ILLEGAL_INSTRUCTION: usize = 2;

/// Value of the cause register for an environment call from supervisor
/// mode.
pub const CAUSE_SUPERVISOR_ENV_CALL: usize = 9;

/// Length in bytes of the environment call instruction.
pub const ECALL_LENGTH: usize = 4;

/// The supervisor's registers as the trap saved them.
#[derive(Clone, Copy, Debug, PartialEq, Eq, Structural)]
pub struct SavedRegs {
    pub a0: usize,
    pub a1: usize,
    pub a2: usize,
    pub a3: usize,
    pub a4: usize,
    pub a5: usize,
    /// Function number of a firmware call.
    pub a6: usize,
    /// Extension number of a firmware call.
    pub a7: usize,
    /// Address of the trapping instruction.
    pub pc: usize,
}

/// Why the hart came back to machine mode.
#[derive(Clone, Copy, Debug, PartialEq, Eq, Structural)]
pub enum TrapCause {
    /// Environment call from supervisor mode.
    FirmwareCall,
    /// An instruction that machine mode may emulate.
    IllegalInstruction,
    /// Any other cause, by its number.
    Other(usize),
}

/// The outcome of a supervisor run.
#[derive(Clone, Copy, Debug, PartialEq, Eq, Structural)]
pub struct ResetDirective {
    pub kind: ResetKind,
    pub reason: usize,
}

#[derive(Clone, Copy, Debug, PartialEq, Eq, Structural)]
pub enum DispatchState {
    Idle,
    Running,
    /// Waiting for the handler of this trap to finish.
    Trapped { cause: TrapCause, regs: SavedRegs },
    Exited(ResetDirective),
    /// The unrecoverable-fault sink.
    Fatal,
}

#[derive(Clone, Copy, Debug, PartialEq, Eq, Structural)]
pub enum Event {
    /// Start the supervisor at `entry` with two argument words.
    Launch { entry: usize, arg0: usize, arg1: usize },
    /// The hart trapped.
    Trap { cause: TrapCause, regs: SavedRegs },
    /// The firmware-call handler finished.
    CallHandled { error: usize, value: usize },
    /// The emulator ran the instruction: the registers with its result, and
    /// the instruction's length in bytes.
    Emulated { regs: SavedRegs, length: usize },
    /// The emulator cannot run the instruction.
    NotEmulated,
}

#[derive(Clone, Copy, Debug, PartialEq, Eq, Structural)]
pub enum Action {
    /// Switch to supervisor mode at `entry`, the two words in the argument
    /// registers.
    Enter { entry: usize, arg0: usize, arg1: usize },
    /// Hand the call in these registers to the firmware-call handler.
    Forward(SavedRegs),
    /// Hand the instruction at `pc` to the emulator.
    Emulate(SavedRegs),
    /// Restore these registers and continue the supervisor.
    Resume(SavedRegs),
    /// Raise the fault in the supervisor, registers unchanged.
    Reflect(SavedRegs),
    /// Leave the dispatcher with this directive.
    Return(ResetDirective),
    /// Stop in the unrecoverable-fault handler.
    Halt,
}

/// The cause that a value of the cause register stands for. An interrupt
/// has the top bit set, so it is never one of the two exceptions.
pub open spec fn cause_of(mcause: usize) -> TrapCause {
    if mcause == CAUSE_SUPERVISOR_ENV_CALL {
        TrapCause::FirmwareCall
    } else if mcause == CAUSE_ILLEGAL_INSTRUCTION {
        TrapCause::IllegalInstruction
    } else {
        TrapCause::Other(mcause)
    }
}

/// An extension that the firmware-call interface serves.
pub open spec fn recognized_extension(extension: usize) -> bool {
    ||| extension == EXTENSION_BASE
    ||| extension == EXTENSION_TIMER
    ||| extension == EXTENSION_IPI
    ||| extension == EXTENSION_RFENCE
    ||| extension == EXTENSION_HSM
    ||| extension == EXTENSION_SRST
    ||| extension == EXTENSION_PMU
    ||| extension == 0
    ||| extension == 1
    ||| extension == 2
    ||| extension == 4
    ||| extension == 8
}

/// A call that the firmware-call interface serves. The system reset
/// extension has one function; the functions of the others are the
/// handler's business.
pub open spec fn recognized_call(extension: usize, function: usize) -> bool {
    recognized_extension(extension) && (extension == EXTENSION_SRST ==> function
        == FUNCTION_SYSTEM_RESET)
}

/// The address `length` bytes after `pc`, wrapping at the end of the address
/// space.
pub open spec fn advanced(pc: usize, length: usize) -> usize {
    if pc + length > usize::MAX {
        (pc + length - usize::MAX - 1) as usize
    } else {
        (pc + length) as usize
    }
}

/// The registers after a firmware call returned `error` and `value`.
pub open spec fn call_result(regs: SavedRegs, error: usize, value: usize) -> SavedRegs {
    SavedRegs { a0: error, a1: value, pc: advanced(regs.pc, ECALL_LENGTH), ..regs }
}

/// What a firmware call does.
pub open spec fn firmware_call(regs: SavedRegs) -> (DispatchState, Action) {
    if !recognized_call(regs.a7, regs.a6) {
        (DispatchState::Running, Action::Resume(call_result(regs, SBI_ERR_NOT_SUPPORTED, 0)))
    } else if regs.a7 == EXTENSION_SRST {
        match ResetKind::from_code(regs.a0) {
            Some(kind) => {
                let directive = ResetDirective { kind, reason: regs.a1 };
                (DispatchState::Exited(directive), Action::Return(directive))
            },
            None => (DispatchState::Fatal, Action::Halt),
        }
    } else {
        (
            DispatchState::Trapped { cause: TrapCause::FirmwareCall, regs },
            Action::Forward(regs),
        )
    }
}

/// The transition relation: the next state and the action for every state
/// and event. An event that the state does not expect is fatal; the two
/// terminal states absorb every event.
pub open spec fn transition(state: DispatchState, event: Event) -> (DispatchState, Action) {
    match (state, event) {
        (DispatchState::Fatal, _) => (DispatchState::Fatal, Action::Halt),
        (DispatchState::Exited(directive), _) => (
            DispatchState::Exited(directive),
            Action::Return(directive),
        ),
        (DispatchState::Idle, Event::Launch { entry, arg0, arg1 }) => (
            DispatchState::Running,
            Action::Enter { entry, arg0, arg1 },
        ),
        (DispatchState::Running, Event::Trap { cause: TrapCause::FirmwareCall, regs }) => {
            firmware_call(regs)
        },
        (DispatchState::Running, Event::Trap { cause: TrapCause::IllegalInstruction, regs }) => (
            DispatchState::Trapped { cause: TrapCause::IllegalInstruction, regs },
            Action::Emulate(regs),
        ),
        (
            DispatchState::Trapped { cause: TrapCause::FirmwareCall, regs },
            Event::CallHandled { error, value },
        ) => (DispatchState::Running, Action::Resume(call_result(regs, error, value))),
        (
            DispatchState::Trapped { cause: TrapCause::IllegalInstruction, regs },
            Event::Emulated { regs: after, length },
        ) => (
            DispatchState::Running,
            Action::Resume(SavedRegs { pc: advanced(regs.pc, length), ..after }),
        ),
        (
            DispatchState::Trapped { cause: TrapCause::IllegalInstruction, regs },
            Event::NotEmulated,
        ) => (DispatchState::Running, Action::Reflect(regs)),
        _ => (DispatchState::Fatal, Action::Halt),
    }
}

/// Inspects the cause register.
pub fn classify_trap(mcause: usize) -> (cause: TrapCause)
    ensures
        cause == cause_of(mcause),
{
    if mcause == CAUSE_SUPERVISOR_ENV_CALL {
        TrapCause::FirmwareCall
    } else if mcause == CAUSE_ILLEGAL_INSTRUCTION {
        TrapCause::IllegalInstruction
    } else {
        TrapCause::Other(mcause)
    }
}

/// Reads `rustsbi::spec::srst::EID_SRST`. Not proved: that the
/// firmware-call crate numbers the system reset extension 0x53525354, the
/// letters "SRST".
#[verifier::external_body]
fn srst_extension() -> (extension: usize)
    ensures
        extension == EXTENSION_SRST,
{
    rustsbi::spec::srst::EID_SRST
}

/// Calls `rustsbi::spec::binary::SbiRet::not_supported` and gives its two
/// fields, error first. Not proved: that the error is -2 as a register
/// value and the value 0.
#[verifier::external_body]
fn not_supported() -> (ret: (usize, usize))
    ensures
        ret == (SBI_ERR_NOT_SUPPORTED, 0usize),
{
    let ret = rustsbi::spec::binary::SbiRet::not_supported();
    (ret.error, ret.value)
}

/// Decides whether the firmware-call interface serves this call.
pub fn is_recognized_call(extension: usize, function: usize) -> (known: bool)
    ensures
        known == recognized_call(extension, function),
{
    if extension == srst_extension() {
        function == FUNCTION_SYSTEM_RESET
    } else {
        extension == EXTENSION_BASE || extension == EXTENSION_TIMER || extension == EXTENSION_IPI
            || extension == EXTENSION_RFENCE || extension == EXTENSION_HSM || extension
            == EXTENSION_PMU || extension == 0 || extension == 1 || extension == 2 || extension
            == 4 || extension == 8
    }
}

/// Writes the result of a firmware call into the saved registers and moves
/// past the call instruction.
pub fn complete_call(regs: SavedRegs, error: usize, value: usize) -> (after: SavedRegs)
    ensures
        after == call_result(regs, error, value),
{
    SavedRegs { a0: error, a1: value, pc: advance(regs.pc, ECALL_LENGTH), ..regs }
}

/// The address `length` bytes after `pc`.
pub fn advance(pc: usize, length: usize) -> (next: usize)
    ensures
        next == advanced(pc, length),
{
    if pc > usize::MAX - length {
        pc - (usize::MAX - length) - 1
    } else {
        pc + length
    }
}

fn handle_firmware_call(regs: SavedRegs) -> (next: (DispatchState, Action))
    ensures
        next == firmware_call(regs),
{
    if !is_recognized_call(regs.a7, regs.a6) {
        let (error, value) = not_supported();
        (DispatchState::Running, Action::Resume(complete_call(regs, error, value)))
    } else if regs.a7 == srst_extension() {
        match ResetKind::decode(regs.a0) {
            Some(kind) => {
                let directive = ResetDirective { kind, reason: regs.a1 };
                (DispatchState::Exited(directive), Action::Return(directive))
            },
            None => (DispatchState::Fatal, Action::Halt),
        }
    } else {
        (
            DispatchState::Trapped { cause: TrapCause::FirmwareCall, regs },
            Action::Forward(regs),
        )
    }
}

/// One step of the dispatcher.
pub fn step(state: DispatchState, event: Event) -> (next: (DispatchState, Action))
    ensures
        next == transition(state, event),
{
    match state {
        DispatchState::Fatal => (DispatchState::Fatal, Action::Halt),
        DispatchState::Exited(directive) => (
            DispatchState::Exited(directive),
            Action::Return(directive),
        ),
        DispatchState::Idle => match event {
            Event::Launch { entry, arg0, arg1 } => (
                DispatchState::Running,
                Action::Enter { entry, arg0, arg1 },
            ),
            _ => (DispatchState::Fatal, Action::Halt),
        },
        DispatchState::Running => match event {
            Event::Trap { cause: TrapCause::FirmwareCall, regs } => handle_firmware_call(regs),
            Event::Trap { cause: TrapCause::IllegalInstruction, regs } => (
                DispatchState::Trapped { cause: TrapCause::IllegalInstruction, regs },
                Action::Emulate(regs),
            ),
            _ => (DispatchState::Fatal, Action::Halt),
        },
        DispatchState::Trapped { cause, regs } => match (cause, event) {
            (TrapCause::FirmwareCall, Event::CallHandled { error, value }) => (
                DispatchState::Running,
                Action::Resume(complete_call(regs, error, value)),
            ),
            (TrapCause::IllegalInstruction, Event::Emulated { regs: after, length }) => (
                DispatchState::Running,
                Action::Resume(SavedRegs { pc: advance(regs.pc, length), ..after }),
            ),
            (TrapCause::IllegalInstruction, Event::NotEmulated) => (
                DispatchState::Running,
                Action::Reflect(regs),
            ),
            _ => (DispatchState::Fatal, Action::Halt),
        },
    }
}

/// Whether an action hands registers back to the hart or to a handler.
pub open spec fn touches_registers(action: Action) -> bool {
    !(action is Halt || action is Return)
}

/// A reset request with one of the three kinds ends the run with exactly
/// that kind and the reason the supervisor gave.
pub proof fn law_reset_round_trip(kind: ResetKind, regs: SavedRegs)
    requires
        regs.a7 == EXTENSION_SRST,
        regs.a6 == FUNCTION_SYSTEM_RESET,
        regs.a0 == kind.code(),
    ensures
        transition(
            DispatchState::Running,
            Event::Trap { cause: TrapCause::FirmwareCall, regs },
        ) == (
            DispatchState::Exited(ResetDirective { kind, reason: regs.a1 }),
            Action::Return(ResetDirective { kind, reason: regs.a1 }),
        ),
        crate::power::power_action(kind.code()) == kind.action(),
{
}

/// A reset request whose type is none of the three kinds is fatal.
pub proof fn law_unknown_reset_kind_fatal(regs: SavedRegs)
    requires
        regs.a7 == EXTENSION_SRST,
        regs.a6 == FUNCTION_SYSTEM_RESET,
        ResetKind::from_code(regs.a0) is None,
    ensures
        transition(
            DispatchState::Running,
            Event::Trap { cause: TrapCause::FirmwareCall, regs },
        ) == (DispatchState::Fatal, Action::Halt),
{
}

/// A call outside the recognized set gets the not-supported error in `a0`,
/// zero in `a1`, resumes after the call instruction, and leaves the
/// dispatcher running.
pub proof fn law_unsupported_call(regs: SavedRegs)
    requires
        !recognized_call(regs.a7, regs.a6),
    ensures
        transition(
            DispatchState::Running,
            Event::Trap { cause: TrapCause::FirmwareCall, regs },
        ) == (
            DispatchState::Running,
            Action::Resume(
                SavedRegs {
                    a0: SBI_ERR_NOT_SUPPORTED,
                    a1: 0,
                    pc: advanced(regs.pc, ECALL_LENGTH),
                    ..regs
                },
            ),
        ),
{
}

/// A trap that is neither a firmware call nor an instruction to emulate
/// halts the dispatcher, and once halted every event halts it again
/// without touching a register.
pub proof fn law_fatal_trap(number: usize, regs: SavedRegs, later: Event)
    ensures
        transition(
            DispatchState::Running,
            Event::Trap { cause: TrapCause::Other(number), regs },
        ) == (DispatchState::Fatal, Action::Halt),
        transition(DispatchState::Fatal, later) == (DispatchState::Fatal, Action::Halt),
        !touches_registers(transition(DispatchState::Fatal, later).1),
{
}

/// An exit is terminal: every later event gives the same directive back.
pub proof fn law_exit_is_terminal(directive: ResetDirective, later: Event)
    ensures
        transition(DispatchState::Exited(directive), later) == (
            DispatchState::Exited(directive),
            Action::Return(directive),
        ),
{
}

/// No transition leads to `Idle`: there is no way back into initialisation.
pub proof fn law_no_return_to_idle(state: DispatchState, event: Event)
    ensures
        !(transition(state, event).0 is Idle),
{
}

} // verus!
