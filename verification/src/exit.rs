//! The exit code that a run leaves behind.

use vstd::prelude::*;

verus! {

/// Exit code of a run that ended in good order.
pub const EXIT_OK: i32 = 0;

/// Exit code of a run that a failure ended: the `sysexits` code for an
/// internal software error.
pub const EXIT_SOFTWARE: i32 = 70;

/// Reads `exitcode::SOFTWARE`, which that crate defines as the constant 70.
#[verifier::external_body]
fn software_failure() -> (code: i32)
    ensures
        code == EXIT_SOFTWARE,
{
    exitcode::SOFTWARE
}

/// The exit code of a run, given whether it ended in good order.
///
/// A run that was interrupted and wound down, or that stopped after a dry
/// run, exits with zero. A run that any failure ended, be it a refused
/// parameter or a failure of the device, exits with [`EXIT_SOFTWARE`].
pub fn exit_code(ended_well: bool) -> (code: i32)
    ensures
        ended_well ==> code == EXIT_OK,
        !ended_well ==> code == EXIT_SOFTWARE,
{
    if ended_well {
        EXIT_OK
    } else {
        software_failure()
    }
}

} // verus!
