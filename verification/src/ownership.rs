use vstd::prelude::*;

use crate::errors::Error;

verus! {

/// Effective user id of the superuser account, the only caller allowed to
/// transfer ownership and the account ownership is transferred to.
pub const ROOT_UID: u32 = 0;

/// Decides whether an ownership transfer to root may proceed: only a
/// caller whose effective uid is the superuser's passes. Everyone else is
/// refused with a Permission error, before any filesystem work is done —
/// the check precedes every side effect, and there is no degraded mode.
pub fn chownroot_precheck(euid: u32) -> (r: Result<(), Error>)
    ensures
        match r {
            Ok(_) => euid == ROOT_UID,
            Err(e) => euid != ROOT_UID && (e matches Error::Permission),
        },
{
    if euid != ROOT_UID {
        Err(Error::Permission)
    } else {
        Ok(())
    }
}

/// Folds the return code of the ownership-transfer system call into the
/// caller's result: code zero means the transfer succeeded and hands the
/// same path back so calls can be chained; any other code is a Permission
/// failure, and the path's ownership is whatever the call left it as — the
/// operation is atomic at the OS level, so no rollback is attempted.
pub fn chownroot_outcome(path: String, chown_ret: i32) -> (r: Result<String, Error>)
    ensures
        match r {
            Ok(p) => chown_ret == 0 && p == path,
            Err(e) => chown_ret != 0 && (e matches Error::Permission),
        },
{
    if chown_ret == 0 {
        Ok(path)
    } else {
        Err(Error::Permission)
    }
}

} // verus!
