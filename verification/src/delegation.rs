//! Which traps machine mode hands to the supervisor, and which it keeps.
//!
//! Policy: misaligned accesses are delegated. Illegal instructions are kept
//! so that machine mode can emulate them, and environment calls from
//! supervisor or machine mode are kept because they are the firmware-call
//! interface itself.

use vstd::prelude::*;

verus! {

/// Synchronous exceptions, named as the delegation register names them.
#[derive(Clone, Copy, Debug, PartialEq, Eq, Structural)]
pub enum Exception {
    InstructionMisaligned,
    InstructionFault,
    IllegalInstruction,
    Breakpoint,
    LoadMisaligned,
    LoadFault,
    StoreMisaligned,
    StoreFault,
    UserEnvCall,
    SupervisorEnvCall,
    MachineEnvCall,
    InstructionPageFault,
    LoadPageFault,
    StorePageFault,
}

/// Interrupts, named as the delegation register names them.
#[derive(Clone, Copy, Debug, PartialEq, Eq, Structural)]
pub enum Interrupt {
    UserSoft,
    SupervisorSoft,
    UserTimer,
    SupervisorTimer,
    UserExternal,
    SupervisorExternal,
}

impl Exception {
    /// The bit of this exception in the exception delegation register.
    pub open spec fn bit(self) -> u64 {
        match self {
            Exception::InstructionMisaligned => 0,
            Exception::InstructionFault => 1,
            Exception::IllegalInstruction => 2,
            Exception::Breakpoint => 3,
            Exception::LoadMisaligned => 4,
            Exception::LoadFault => 5,
            Exception::StoreMisaligned => 6,
            Exception::StoreFault => 7,
            Exception::UserEnvCall => 8,
            Exception::SupervisorEnvCall => 9,
            Exception::MachineEnvCall => 11,
            Exception::InstructionPageFault => 12,
            Exception::LoadPageFault => 13,
            Exception::StorePageFault => 15,
        }
    }

    /// Whether the supervisor handles this exception itself.
    pub open spec fn delegated(self) -> bool {
        !(self == Exception::IllegalInstruction || self == Exception::SupervisorEnvCall || self
            == Exception::MachineEnvCall)
    }

    #[verifier::when_used_as_spec(bit)]
    pub fn position(self) -> (bit: u64)
        ensures
            bit == self.bit(),
            bit < 16,
    {
        match self {
            Exception::InstructionMisaligned => 0,
            Exception::InstructionFault => 1,
            Exception::IllegalInstruction => 2,
            Exception::Breakpoint => 3,
            Exception::LoadMisaligned => 4,
            Exception::LoadFault => 5,
            Exception::StoreMisaligned => 6,
            Exception::StoreFault => 7,
            Exception::UserEnvCall => 8,
            Exception::SupervisorEnvCall => 9,
            Exception::MachineEnvCall => 11,
            Exception::InstructionPageFault => 12,
            Exception::LoadPageFault => 13,
            Exception::StorePageFault => 15,
        }
    }
}

impl Interrupt {
    /// The bit of this interrupt in the interrupt delegation register.
    pub open spec fn bit(self) -> u64 {
        match self {
            Interrupt::UserSoft => 0,
            Interrupt::SupervisorSoft => 1,
            Interrupt::UserTimer => 4,
            Interrupt::SupervisorTimer => 5,
            Interrupt::UserExternal => 8,
            Interrupt::SupervisorExternal => 9,
        }
    }

    /// Whether the supervisor receives this interrupt.
    pub open spec fn delegated(self) -> bool {
        self == Interrupt::SupervisorSoft || self == Interrupt::SupervisorTimer || self
            == Interrupt::SupervisorExternal
    }

    #[verifier::when_used_as_spec(bit)]
    pub fn position(self) -> (bit: u64)
        ensures
            bit == self.bit(),
            bit < 16,
    {
        match self {
            Interrupt::UserSoft => 0,
            Interrupt::SupervisorSoft => 1,
            Interrupt::UserTimer => 4,
            Interrupt::SupervisorTimer => 5,
            Interrupt::UserExternal => 8,
            Interrupt::SupervisorExternal => 9,
        }
    }
}

/// Bit of the machine software interrupt in the interrupt-enable register.
pub const MACHINE_SOFT_ENABLE: u64 = 0x8;

/// Whether bit `bit` of `word` is set.
pub open spec fn bit_set(word: u64, bit: u64) -> bool {
    (word >> bit) & 1 == 1
}

/// The values of the two delegation registers and of the machine
/// interrupt-enable register.
#[derive(Clone, Copy, Debug, PartialEq, Eq, Structural)]
pub struct DelegationMask {
    pub exceptions: u64,
    pub interrupts: u64,
    pub machine_enable: u64,
}

impl DelegationMask {
    pub open spec fn delegates_exception(self, exception: Exception) -> bool {
        bit_set(self.exceptions, exception.bit())
    }

    pub open spec fn delegates_interrupt(self, interrupt: Interrupt) -> bool {
        bit_set(self.interrupts, interrupt.bit())
    }

    /// The mask matches the policy on every named cause and sets no other
    /// bit.
    pub open spec fn follows_policy(self) -> bool {
        &&& forall|e: Exception| #[trigger] self.delegates_exception(e) == e.delegated()
        &&& forall|i: Interrupt| #[trigger] self.delegates_interrupt(i) == i.delegated()
        &&& self.exceptions == 0xb1fb
        &&& self.interrupts == 0x222
        &&& self.machine_enable == MACHINE_SOFT_ENABLE
    }

    /// Reads the mask: is this exception handed to the supervisor?
    pub fn exception_delegated(&self, exception: Exception) -> (yes: bool)
        ensures
            yes == self.delegates_exception(exception),
    {
        (self.exceptions >> exception.position()) & 1 == 1
    }

    /// Reads the mask: is this interrupt handed to the supervisor?
    pub fn interrupt_delegated(&self, interrupt: Interrupt) -> (yes: bool)
        ensures
            yes == self.delegates_interrupt(interrupt),
    {
        (self.interrupts >> interrupt.position()) & 1 == 1
    }
}

/// The delegation that is written once before the supervisor first runs.
pub fn delegate_interrupt_exception() -> (mask: DelegationMask)
    ensures
        mask.follows_policy(),
{
    let mask = DelegationMask {
        exceptions: 0xb1fb,
        interrupts: 0x222,
        machine_enable: MACHINE_SOFT_ENABLE,
    };
    proof {
        assert forall|e: Exception| mask.delegates_exception(e) == e.delegated() by {
            law_exception_policy(e);
        }
        assert forall|i: Interrupt| mask.delegates_interrupt(i) == i.delegated() by {
            law_interrupt_policy(i);
        }
    }
    mask
}

/// The exception mask has the bit of an exception exactly when the policy
/// delegates it.
pub proof fn law_exception_policy(e: Exception)
    ensures
        bit_set(0xb1fb, e.bit()) == e.delegated(),
{
    assert((0xb1fbu64 >> 0) & 1 == 1) by (bit_vector);
    assert((0xb1fbu64 >> 1) & 1 == 1) by (bit_vector);
    assert((0xb1fbu64 >> 2) & 1 == 0) by (bit_vector);
    assert((0xb1fbu64 >> 3) & 1 == 1) by (bit_vector);
    assert((0xb1fbu64 >> 4) & 1 == 1) by (bit_vector);
    assert((0xb1fbu64 >> 5) & 1 == 1) by (bit_vector);
    assert((0xb1fbu64 >> 6) & 1 == 1) by (bit_vector);
    assert((0xb1fbu64 >> 7) & 1 == 1) by (bit_vector);
    assert((0xb1fbu64 >> 8) & 1 == 1) by (bit_vector);
    assert((0xb1fbu64 >> 9) & 1 == 0) by (bit_vector);
    assert((0xb1fbu64 >> 11) & 1 == 0) by (bit_vector);
    assert((0xb1fbu64 >> 12) & 1 == 1) by (bit_vector);
    assert((0xb1fbu64 >> 13) & 1 == 1) by (bit_vector);
    assert((0xb1fbu64 >> 15) & 1 == 1) by (bit_vector);
}

/// The interrupt mask has the bit of an interrupt exactly when the policy
/// delegates it.
pub proof fn law_interrupt_policy(i: Interrupt)
    ensures
        bit_set(0x222, i.bit()) == i.delegated(),
{
    assert((0x222u64 >> 0) & 1 == 0) by (bit_vector);
    assert((0x222u64 >> 1) & 1 == 1) by (bit_vector);
    assert((0x222u64 >> 4) & 1 == 0) by (bit_vector);
    assert((0x222u64 >> 5) & 1 == 1) by (bit_vector);
    assert((0x222u64 >> 8) & 1 == 0) by (bit_vector);
    assert((0x222u64 >> 9) & 1 == 1) by (bit_vector);
}

} // verus!
