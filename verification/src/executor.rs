//! Interpreting the exit of one shell invocation.

use vstd::prelude::*;

verus! {

/// Why an execution attempt failed: the process could not be spawned (or
/// vanished without reporting an exit code), or it exited with a non-zero
/// code.
#[derive(Clone, Copy, Debug)]
pub enum ExecutionError {
    SpawnFailure,
    NonZeroExit(i32),
}

/// The outcome owed for a shell process that reported the given exit code,
/// or none at all.
pub open spec fn outcome_of_exit(code: Option<i32>) -> Result<(), ExecutionError> {
    match code {
        Some(c) => if c == 0 {
            Ok(())
        } else {
            Err(ExecutionError::NonZeroExit(c))
        },
        None => Err(ExecutionError::SpawnFailure),
    }
}

/// Success is exactly exit status zero; a process that died without a code
/// counts as a spawn-level failure.
pub fn interpret_exit_status(code: Option<i32>) -> (r: Result<(), ExecutionError>)
    ensures
        r == outcome_of_exit(code),
{
    match code {
        Some(c) => {
            if c == 0 {
                Ok(())
            } else {
                Err(ExecutionError::NonZeroExit(c))
            }
        },
        None => Err(ExecutionError::SpawnFailure),
    }
}

} // verus!
