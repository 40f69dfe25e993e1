//! What the launcher of a redirected program and the interceptors inside
//! that program agree on, and the one decision the launcher makes itself.

use vstd::prelude::*;

verus! {

/// Name of the environment variable that carries the port to take over.
pub const PORT_VARIABLE: &'static str = "PORROCKET_PORT";

/// Name of the environment variable that carries the socket path.
pub const SOCKET_VARIABLE: &'static str = "PORROCKET_SOCKET";

/// File name of the shared object that holds the interceptors; the launcher
/// looks for it beside its own executable.
pub const HOOK_LIBRARY_NAME: &'static str = "libporrocket_hook.so";

/// Exit status of a launcher that was told to terminate.
pub const INTERRUPTED_STATUS: i32 = 130;

/// Exit status for a program that ended without an exit code of its own.
pub const UNKNOWN_STATUS: i32 = 1;

/// The launcher's exit status: the reserved one where it was told to
/// terminate, else the program's own exit code, else the fallback.
pub open spec fn spec_exit_status(interrupted: bool, code: Option<i32>) -> i32 {
    if interrupted {
        INTERRUPTED_STATUS
    } else {
        match code {
            Some(code) => code,
            None => UNKNOWN_STATUS,
        }
    }
}

/// Chooses the launcher's exit status once the program has ended. `code` is
/// the program's exit code, absent where a signal ended it.
pub fn exit_status(interrupted: bool, code: Option<i32>) -> (status: i32)
    ensures
        status == spec_exit_status(interrupted, code),
{
    if interrupted {
        INTERRUPTED_STATUS
    } else {
        match code {
            Some(code) => code,
            None => UNKNOWN_STATUS,
        }
    }
}

} // verus!
