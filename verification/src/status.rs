//! Classification of a terminated process.

use vstd::prelude::*;

verus! {

/// What the caller of a command gets to see: the command succeeded, or it
/// failed with an exit code and, where the error stream was captured, what
/// it wrote there. There is no third state.
#[derive(Debug, Clone, PartialEq, Eq)]
pub enum GitCommandResult {
    Success,
    Failure { exit_code: i32, stderr: Option<Vec<u8>> },
}

/// A `GitCommandResult` as a plain value.
pub enum GitCommandResultView {
    Success,
    Failure { exit_code: i32, stderr: Option<Seq<u8>> },
}

impl View for GitCommandResult {
    type V = GitCommandResultView;

    open spec fn view(&self) -> GitCommandResultView {
        match self {
            GitCommandResult::Success => GitCommandResultView::Success,
            GitCommandResult::Failure { exit_code, stderr } => GitCommandResultView::Failure {
                exit_code: *exit_code,
                stderr: match stderr {
                    Some(bytes) => Some(bytes@),
                    None => None,
                },
            },
        }
    }
}

/// The classification of an exit status: zero is success, anything else a
/// failure that carries the status and the captured error stream, if any.
pub open spec fn normalized(exit_status: i32, captured_stderr: Option<Seq<u8>>)
    -> GitCommandResultView {
    if exit_status == 0 {
        GitCommandResultView::Success
    } else {
        GitCommandResultView::Failure { exit_code: exit_status, stderr: captured_stderr }
    }
}

/// The exit code with which the whole tool ends: zero for success only, and
/// the failed command's own code where that is not zero.
pub open spec fn process_exit_code(result: GitCommandResultView) -> i32 {
    match result {
        GitCommandResultView::Success => 0,
        GitCommandResultView::Failure { exit_code, .. } => if exit_code == 0 {
            1
        } else {
            exit_code
        },
    }
}

/// Turns the exit status of a terminated process, and what was captured of
/// its error stream, into the result the caller sees. Nothing is printed.
pub fn normalize(exit_status: i32, captured_stderr: Option<Vec<u8>>) -> (result: GitCommandResult)
    ensures
        result@ == normalized(
            exit_status,
            match captured_stderr {
                Some(bytes) => Some(bytes@),
                None => None,
            },
        ),
        result.well_formed(),
{
    if exit_status == 0 {
        GitCommandResult::Success
    } else {
        GitCommandResult::Failure { exit_code: exit_status, stderr: captured_stderr }
    }
}

impl GitCommandResult {
    /// A failure never carries the exit code of a success.
    pub open spec fn well_formed(&self) -> bool {
        self matches GitCommandResult::Failure { exit_code, .. } ==> exit_code != 0
    }

    /// Whether the command succeeded.
    pub fn is_success(&self) -> (yes: bool)
        ensures
            yes == (self@ is Success),
    {
        match self {
            GitCommandResult::Success => true,
            GitCommandResult::Failure { .. } => false,
        }
    }

    /// The exit code for the whole tool.
    pub fn exit_code(&self) -> (code: i32)
        ensures
            code == process_exit_code(self@),
            code == 0 <==> self@ is Success,
    {
        match self {
            GitCommandResult::Success => 0,
            GitCommandResult::Failure { exit_code, .. } => if *exit_code == 0 {
                1
            } else {
                *exit_code
            },
        }
    }
}

/// Classification keeps the status: a result made from a status that is not
/// zero ends the tool with that very status, and one made from zero with zero.
pub proof fn lemma_exit_code_round_trip(exit_status: i32, captured_stderr: Option<Seq<u8>>)
    ensures
        process_exit_code(normalized(exit_status, captured_stderr)) == exit_status,
{
}

} // verus!
