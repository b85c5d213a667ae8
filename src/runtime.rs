//! Runtime services: resetting the machine.
use vstd::prelude::*;
use crate::status::{Status, UefiResult, unit_outcome};

verus! {

/// The header of a firmware table.
#[derive(Clone, Copy, Debug, PartialEq, Eq, Structural)]
pub struct TableHeader {
    pub signature: u64,
    pub revision: u32,
    pub header_size: u32,
    pub crc32: u32,
    pub reserved: u32,
}

/// The kinds of reset.
#[derive(Clone, Copy, Debug, PartialEq, Eq, Structural)]
pub enum ResetType {
    EfiResetCold,
    EfiResetWarm,
    EfiResetShutdown,
}

/// The raw entry of the runtime services table that this library calls.
///
/// The spec functions describe the answers of an implementation, which
/// defines them; their defaults name no particular value.
pub trait RuntimeTable: Sized {
    /// The resets asked for so far, with the status each was given.
    closed spec fn resets(&self) -> Seq<(ResetType, Status)> {
        arbitrary()
    }

    /// What a reset reports, where it returns at all.
    closed spec fn reset_response(&self, reset_type: ResetType, reset_status: Status) -> Status {
        arbitrary()
    }

    fn reset_system_raw(&mut self, reset_type: ResetType, reset_status: Status) -> (r: Status)
        ensures
            r == old(self).reset_response(reset_type, reset_status),
            final(self).resets() == old(self).resets().push((reset_type, reset_status)),
    ;
}

/// The runtime services.
pub struct RuntimeServices<R> {
    pub table: R,
}

impl<R: RuntimeTable> RuntimeServices<R> {
    /// Resets the machine, reporting `reset_status` as the reason.
    pub fn reset_system(&mut self, reset_type: ResetType, reset_status: Status) -> (r: UefiResult<()>)
        ensures
            r == unit_outcome(old(self).table.reset_response(reset_type, reset_status)),
            final(self).table.resets() == old(self).table.resets().push((reset_type, reset_status)),
    {
        self.table.reset_system_raw(reset_type, reset_status).into_result()
    }
}

/// Asks the firmware to switch the machine off.
pub fn shutdown<R: RuntimeTable>(runtime: &mut RuntimeServices<R>) -> (r: ())
    ensures
        final(runtime).table.resets() == old(runtime).table.resets().push((ResetType::EfiResetShutdown, Status::Success)),
{
    let _ = runtime.reset_system(ResetType::EfiResetShutdown, Status::Success);
}

} // verus!
