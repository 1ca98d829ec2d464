//! Telling whether another instance of the client is running.
use vstd::prelude::*;

verus! {

/// Whether another instance runs. Each instance holds a lock on the
/// ".running" file of the configuration folder: when the file does not
/// exist yet (`running_file_exists`), it is created and no other instance
/// runs; otherwise another instance runs exactly when the lock cannot be
/// taken (`lock_taken`).
pub fn process_already_exists(running_file_exists: bool, lock_taken: bool) -> (b: bool)
    ensures
        b == (running_file_exists && !lock_taken),
{
    if !running_file_exists {
        return false;
    }
    !lock_taken
}

} // verus!
