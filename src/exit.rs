//! The exit neutralizer's decisions: where the process-termination routine's
//! code lies, and the protect / overwrite / restore sequence that turns its
//! first instruction into an immediate return.

use vstd::prelude::*;
use crate::error::ClrError;
use crate::variant::{DynValue, Variant};

verus! {

/// The immediate-return instruction written over the routine's first byte.
pub const RET_OPCODE: u8 = 0xc3;

/// Page protection that allows execution, reading and writing.
pub const PAGE_EXECUTE_READWRITE: u32 = 0x40;

/// Whether a native status reports success (it is not negative).
pub fn nt_success(status: i32) -> (r: bool)
    ensures
        r == (status >= 0),
{
    status >= 0
}

/// The native address held by the function-pointer accessor's result.
pub open spec fn exit_address_spec(v: DynValue) -> Result<usize, ClrError> {
    let a: Option<usize> = match v {
        DynValue::I64(x) => Some(x as usize),
        DynValue::U64(x) => Some(x as usize),
        DynValue::Object(p) => Some(p),
        DynValue::Pointer(p) => Some(p),
        _ => None,
    };
    match a {
        None => Err(ClrError::VariantUnsupported),
        Some(p) => if p == 0 {
            Err(ClrError::NullPointerError("GetFunctionPointer"))
        } else {
            Ok(p)
        },
    }
}

/// Reads the native address from the function-pointer accessor's result: a
/// pointer-sized integer or reference that is not null.
pub fn exit_address(pointer: &Variant) -> (r: Result<usize, ClrError>)
    ensures
        r == exit_address_spec(pointer@),
{
    let a: Option<usize> = match pointer {
        Variant::I64(x) => Some(*x as usize),
        Variant::U64(x) => Some(*x as usize),
        Variant::Object(p) => Some(*p),
        Variant::Pointer(p) => Some(*p),
        _ => None,
    };
    match a {
        None => Err(ClrError::VariantUnsupported),
        Some(p) => if p == 0 {
            Err(ClrError::NullPointerError("GetFunctionPointer"))
        } else {
            Ok(p)
        },
    }
}

/// Where the patch stands.
#[derive(Debug, Clone, Copy, PartialEq, Eq, Structural)]
pub enum PatchPhase {
    /// Waiting for the page to become writable.
    Protecting,
    /// Waiting for the return instruction to be written.
    Writing,
    /// Waiting for the earlier protection to come back.
    Restoring,
    /// Finished, one way or the other.
    Done,
}

/// What the caller must do next.
#[derive(Debug, PartialEq)]
pub enum PatchAction {
    /// Change the protection of the byte at `address`.
    Protect { address: usize, protection: u32 },
    /// Write `opcode` at `address`.
    Write { address: usize, opcode: u8 },
    /// Put back the protection the byte had.
    Restore { address: usize, protection: u32 },
    /// Stop, with this outcome.
    Finish(Result<(), ClrError>),
}

/// The patch of the termination routine at one address.
#[derive(Debug, Clone, Copy)]
pub struct ExitPatch {
    pub address: usize,
    pub phase: PatchPhase,
    /// The protection the page had before it was made writable.
    pub saved_protection: u32,
}

impl ExitPatch {
    /// Starts the patch: the first step makes the byte writable.
    pub fn new(address: usize) -> (r: (ExitPatch, PatchAction))
        ensures
            r.0.address == address,
            r.0.phase == PatchPhase::Protecting,
            r.1 == (PatchAction::Protect { address, protection: PAGE_EXECUTE_READWRITE }),
    {
        (
            ExitPatch { address, phase: PatchPhase::Protecting, saved_protection: 0 },
            PatchAction::Protect { address, protection: PAGE_EXECUTE_READWRITE },
        )
    }

    /// Takes the outcome of the last action: `status` of a protection change
    /// and the protection it reports as `previous`. The byte is written only
    /// once the page is writable, and the earlier protection is always put
    /// back after a write, so no page is left partly protected.
    pub fn step(&mut self, status: i32, previous: u32) -> (r: PatchAction)
        ensures
            final(self).address == old(self).address,
            old(self).phase == PatchPhase::Protecting && status >= 0 ==> final(self).phase
                == PatchPhase::Writing && final(self).saved_protection == previous && r == (PatchAction::Write {
                address: old(self).address,
                opcode: RET_OPCODE,
            }),
            old(self).phase == PatchPhase::Protecting && status < 0 ==> final(self).phase
                == PatchPhase::Done && r == PatchAction::Finish(
                Err(ClrError::GenericError("Failed to change memory protection to RWX")),
            ),
            old(self).phase == PatchPhase::Writing ==> final(self).phase == PatchPhase::Restoring
                && final(self).saved_protection == old(self).saved_protection && r == (PatchAction::Restore {
                address: old(self).address,
                protection: old(self).saved_protection,
            }),
            old(self).phase == PatchPhase::Restoring && status >= 0 ==> final(self).phase
                == PatchPhase::Done && r == PatchAction::Finish(Ok(())),
            old(self).phase == PatchPhase::Restoring && status < 0 ==> final(self).phase
                == PatchPhase::Done && r == PatchAction::Finish(
                Err(ClrError::GenericError("Failed to restore memory protection")),
            ),
            old(self).phase == PatchPhase::Done ==> final(self).phase == PatchPhase::Done && r
                == PatchAction::Finish(Err(ClrError::GenericError("patch already finished"))),
    {
        match self.phase {
            PatchPhase::Protecting => {
                if nt_success(status) {
                    self.phase = PatchPhase::Writing;
                    self.saved_protection = previous;
                    PatchAction::Write { address: self.address, opcode: RET_OPCODE }
                } else {
                    self.phase = PatchPhase::Done;
                    PatchAction::Finish(
                        Err(ClrError::GenericError("Failed to change memory protection to RWX")),
                    )
                }
            },
            PatchPhase::Writing => {
                self.phase = PatchPhase::Restoring;
                PatchAction::Restore { address: self.address, protection: self.saved_protection }
            },
            PatchPhase::Restoring => {
                self.phase = PatchPhase::Done;
                if nt_success(status) {
                    PatchAction::Finish(Ok(()))
                } else {
                    PatchAction::Finish(
                        Err(ClrError::GenericError("Failed to restore memory protection")),
                    )
                }
            },
            PatchPhase::Done => PatchAction::Finish(
                Err(ClrError::GenericError("patch already finished")),
            ),
        }
    }
}

} // verus!
