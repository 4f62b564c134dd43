//! Reset classification and the power action it selects.

use vstd::prelude::*;

verus! {

/// Reset type code for a shutdown.
pub const RESET_TYPE_SHUTDOWN: usize = 0;

/// Reset type code for a cold reboot.
pub const RESET_TYPE_COLD_REBOOT: usize = 1;

/// Reset type code for a warm reboot.
pub const RESET_TYPE_WARM_REBOOT: usize = 2;

/// What the supervisor asked the platform to do when it stopped.
#[derive(Clone, Copy, Debug, PartialEq, Eq, Structural)]
pub enum ResetKind {
    Shutdown,
    ColdReboot,
    WarmReboot,
}

/// The irreversible step that ends a boot.
#[derive(Clone, Copy, Debug, PartialEq, Eq, Structural)]
pub enum PowerAction {
    /// Wait for interrupts forever.
    IdleHalt,
    /// The platform reset sequence for this kind does not exist yet: stop
    /// with a diagnostic that says so.
    NotImplemented(ResetKind),
    /// The code names no reset kind: an internal consistency failure.
    Inconsistent,
}

/// Reads `rustsbi::spec::srst::RESET_TYPE_SHUTDOWN`, widened to a register
/// word. Not proved: that the firmware-call crate gives a shutdown the
/// code 0.
#[verifier::external_body]
fn shutdown_code() -> (code: usize)
    ensures
        code == RESET_TYPE_SHUTDOWN,
{
    rustsbi::spec::srst::RESET_TYPE_SHUTDOWN as usize
}

/// Reads `rustsbi::spec::srst::RESET_TYPE_COLD_REBOOT`, widened to a
/// register word. Not proved: that the firmware-call crate gives a cold
/// reboot the code 1.
#[verifier::external_body]
fn cold_reboot_code() -> (code: usize)
    ensures
        code == RESET_TYPE_COLD_REBOOT,
{
    rustsbi::spec::srst::RESET_TYPE_COLD_REBOOT as usize
}

/// Reads `rustsbi::spec::srst::RESET_TYPE_WARM_REBOOT`, widened to a
/// register word. Not proved: that the firmware-call crate gives a warm
/// reboot the code 2.
#[verifier::external_body]
fn warm_reboot_code() -> (code: usize)
    ensures
        code == RESET_TYPE_WARM_REBOOT,
{
    rustsbi::spec::srst::RESET_TYPE_WARM_REBOOT as usize
}

impl ResetKind {
    /// The reset type code of this kind.
    pub open spec fn code(self) -> usize {
        match self {
            ResetKind::Shutdown => RESET_TYPE_SHUTDOWN,
            ResetKind::ColdReboot => RESET_TYPE_COLD_REBOOT,
            ResetKind::WarmReboot => RESET_TYPE_WARM_REBOOT,
        }
    }

    /// The kind that a reset type code names, if any.
    pub open spec fn from_code(code: usize) -> Option<ResetKind> {
        if code == RESET_TYPE_SHUTDOWN {
            Some(ResetKind::Shutdown)
        } else if code == RESET_TYPE_COLD_REBOOT {
            Some(ResetKind::ColdReboot)
        } else if code == RESET_TYPE_WARM_REBOOT {
            Some(ResetKind::WarmReboot)
        } else {
            None
        }
    }

    /// The action that this kind selects.
    pub open spec fn action(self) -> PowerAction {
        match self {
            ResetKind::Shutdown => PowerAction::IdleHalt,
            ResetKind::ColdReboot => PowerAction::NotImplemented(ResetKind::ColdReboot),
            ResetKind::WarmReboot => PowerAction::NotImplemented(ResetKind::WarmReboot),
        }
    }

    /// The code of this kind, as the firmware-call interface writes it.
    pub fn encode(self) -> (code: usize)
        ensures
            code == self.code(),
    {
        match self {
            ResetKind::Shutdown => shutdown_code(),
            ResetKind::ColdReboot => cold_reboot_code(),
            ResetKind::WarmReboot => warm_reboot_code(),
        }
    }

    /// The kind that `code` names; `None` for any other number.
    pub fn decode(code: usize) -> (kind: Option<ResetKind>)
        ensures
            kind == ResetKind::from_code(code),
    {
        if code == shutdown_code() {
            Some(ResetKind::Shutdown)
        } else if code == cold_reboot_code() {
            Some(ResetKind::ColdReboot)
        } else if code == warm_reboot_code() {
            Some(ResetKind::WarmReboot)
        } else {
            None
        }
    }
}

/// The action for a raw reset type code.
pub open spec fn power_action(reset_type: usize) -> PowerAction {
    match ResetKind::from_code(reset_type) {
        Some(kind) => kind.action(),
        None => PowerAction::Inconsistent,
    }
}

/// Chooses the power action for the reset type that the main routine
/// returned. The caller carries the action out and never comes back.
pub fn finish(reset_type: usize) -> (action: PowerAction)
    ensures
        action == power_action(reset_type),
{
    match ResetKind::decode(reset_type) {
        Some(ResetKind::Shutdown) => PowerAction::IdleHalt,
        Some(ResetKind::ColdReboot) => PowerAction::NotImplemented(ResetKind::ColdReboot),
        Some(ResetKind::WarmReboot) => PowerAction::NotImplemented(ResetKind::WarmReboot),
        None => PowerAction::Inconsistent,
    }
}

/// Decoding undoes encoding: every reset kind survives the trip through its
/// code, and no two kinds share a code.
pub proof fn law_code_round_trip(kind: ResetKind)
    ensures
        ResetKind::from_code(kind.code()) == Some(kind),
        power_action(kind.code()) == kind.action(),
{
}

/// Only a shutdown ends in the idle halt.
pub proof fn law_idle_halt_only_on_shutdown(reset_type: usize)
    ensures
        power_action(reset_type) == PowerAction::IdleHalt <==> reset_type
            == RESET_TYPE_SHUTDOWN,
{
}

} // verus!
