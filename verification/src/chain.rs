//! The plan of a pipe chain and what comes out of running one.

use crate::commands::{Stage, StageView};
use crate::status::{normalize, normalized, GitCommandResult};
use vstd::prelude::*;

verus! {

/// What becomes of the output of a chain's last stage.
#[derive(Debug, Clone, Copy, PartialEq, Eq, Structural)]
pub enum Terminus {
    /// The last stage writes straight to the caller's terminal; nothing is
    /// captured.
    Inherit,
    /// The output is read to its end into memory and handed back.
    Capture,
    /// The output is read to its end into memory and then written, byte for
    /// byte, to the caller's own standard output.
    Forward,
}

/// An ordered plan of stages, each reading what the one before it writes.
#[derive(Debug, Clone, PartialEq, Eq)]
pub struct Chain {
    pub stages: Vec<Stage>,
    pub terminus: Terminus,
}

/// A `Chain` as a plain value.
pub struct ChainView {
    pub stages: Seq<StageView>,
    pub terminus: Terminus,
}

impl View for Chain {
    type V = ChainView;

    open spec fn view(&self) -> ChainView {
        ChainView { stages: self.stages.deep_view(), terminus: self.terminus }
    }
}

impl Chain {
    /// The chain of one stage.
    pub fn new(first: Stage, terminus: Terminus) -> (chain: Chain)
        ensures
            chain@ == (ChainView { stages: seq![first@], terminus }),
    {
        let mut stages: Vec<Stage> = Vec::new();
        stages.push(first);
        let chain = Chain { stages, terminus };
        assert(chain@.stages =~= seq![first@]);
        chain
    }

    /// The chain with one more stage, which reads the output of the stage
    /// that was last so far.
    pub fn extend(self, next: Stage) -> (chain: Chain)
        ensures
            chain@ == (ChainView { stages: self@.stages.push(next@), terminus: self@.terminus }),
    {
        let Chain { mut stages, terminus } = self;
        stages.push(next);
        let chain = Chain { stages, terminus };
        assert(chain@.stages =~= self@.stages.push(next@));
        chain
    }
}

/// The terminal value of a chain that ran to its end.
#[derive(Debug, Clone, PartialEq, Eq)]
pub enum ChainResult {
    /// The last stage's output was captured.
    Collected { captured_stdout: Vec<u8>, exit_status: i32 },
    /// The last stage wrote to the caller's terminal.
    Passthrough { exit_status: i32 },
}

/// A `ChainResult` as a plain value.
pub enum ChainResultView {
    Collected { captured_stdout: Seq<u8>, exit_status: i32 },
    Passthrough { exit_status: i32 },
}

impl View for ChainResult {
    type V = ChainResultView;

    open spec fn view(&self) -> ChainResultView {
        match self {
            ChainResult::Collected { captured_stdout, exit_status } => ChainResultView::Collected {
                captured_stdout: captured_stdout@,
                exit_status: *exit_status,
            },
            ChainResult::Passthrough { exit_status } => ChainResultView::Passthrough {
                exit_status: *exit_status,
            },
        }
    }
}

impl ChainResultView {
    /// The exit status of the chain, which is that of its last stage.
    pub open spec fn exit_status(self) -> i32 {
        match self {
            ChainResultView::Collected { exit_status, .. } => exit_status,
            ChainResultView::Passthrough { exit_status } => exit_status,
        }
    }
}

impl ChainResult {
    /// The exit status of the chain, which is that of its last stage.
    pub fn exit_status(&self) -> (status: i32)
        ensures
            status == self@.exit_status(),
    {
        match self {
            ChainResult::Collected { exit_status, .. } => *exit_status,
            ChainResult::Passthrough { exit_status } => *exit_status,
        }
    }

    /// The result the caller sees. The error streams of a chain's stages go
    /// to the terminal, so a failure carries the exit code alone.
    pub fn normalized(&self) -> (result: GitCommandResult)
        ensures
            result@ == normalized(self@.exit_status(), None),
            result.well_formed(),
    {
        normalize(self.exit_status(), None)
    }
}

/// The failures that end a chain without a result.
#[derive(Debug, Clone, PartialEq, Eq)]
pub enum ChainError {
    /// A program could not be started.
    Spawn { program: String },
    /// Reading the output of the last stage failed.
    Pipe,
    /// Writing the collected output to the caller's standard output failed.
    Write,
}

/// A `ChainError` as a plain value.
pub enum ChainErrorView {
    Spawn { program: Seq<char> },
    Pipe,
    Write,
}

impl View for ChainError {
    type V = ChainErrorView;

    open spec fn view(&self) -> ChainErrorView {
        match self {
            ChainError::Spawn { program } => ChainErrorView::Spawn { program: program@ },
            ChainError::Pipe => ChainErrorView::Pipe,
            ChainError::Write => ChainErrorView::Write,
        }
    }
}

impl ChainErrorView {
    /// The line that tells the user what went wrong.
    pub open spec fn message(self) -> Seq<char> {
        match self {
            ChainErrorView::Spawn { program } => "Failed to start `"@ + program + "`"@,
            ChainErrorView::Pipe => "Failed to read the output of the last command"@,
            ChainErrorView::Write => "Failed to write column output to stdout"@,
        }
    }
}

impl ChainError {
    /// The line that tells the user what went wrong; for a program that
    /// could not be started it names the program.
    pub fn message(&self) -> (line: String)
        ensures
            line@ == self@.message(),
    {
        match self {
            ChainError::Spawn { program } => {
                let mut line = "Failed to start `".to_owned();
                line.append(program.as_str());
                line.append("`");
                line
            },
            ChainError::Pipe => "Failed to read the output of the last command".to_owned(),
            ChainError::Write => "Failed to write column output to stdout".to_owned(),
        }
    }
}

/// What a finished chain hands to its caller, as a plain value.
pub open spec fn outcome_view(outcome: Result<ChainResult, ChainError>) -> Result<
    ChainResultView,
    ChainErrorView,
> {
    match outcome {
        Ok(result) => Ok(result@),
        Err(error) => Err(error@),
    }
}

/// The caller-visible end of a chain: a fatal error stays one, and a chain
/// that ran is classified by its exit status.
pub fn conclude(outcome: Result<ChainResult, ChainError>) -> (end: Result<
    GitCommandResult,
    ChainError,
>)
    ensures
        match outcome {
            Ok(result) => end matches Ok(seen) && seen@ == normalized(
                result@.exit_status(),
                None,
            ),
            Err(error) => end matches Err(same) && same@ == error@,
        },
{
    match outcome {
        Ok(result) => Ok(result.normalized()),
        Err(error) => Err(error),
    }
}

} // verus!
