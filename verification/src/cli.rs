//! The subcommands, and what each of them sets going.

use crate::args::clone_args;
use crate::chain::{Chain, ChainView};
use crate::git::{GitConfigOpts, ImmutableCommands};
use vstd::prelude::*;

verus! {

/// The hooks that can be called by name.
#[derive(Debug, Clone, Copy, PartialEq, Eq, Structural)]
pub enum HookSubcommands {
    /// `pre-commit` hook
    PreCommit {  },
}

/// A hook to run.
#[derive(Debug, Clone, Copy, PartialEq, Eq, Structural)]
pub enum Hook {
    PreCommit,
}

/// Which files a command operates on.
#[derive(Debug, Clone, Copy, PartialEq, Eq, Structural)]
pub enum WhichFiles {
    All,
}

/// The subcommands with what the command line gave for each.
#[allow(inconsistent_fields)]
#[derive(Debug, Clone, PartialEq, Eq)]
pub enum Subcommands {
    /// Without arguments, adds the updated files; with arguments, passes
    /// them on to `git-add`.
    A { args: Option<Vec<String>> },
    /// Adds updated and untracked files.
    Aa {  },
    /// Adds updated and untracked files and then commits.
    Aac { args: Vec<String> },
    /// Stages updated and untracked files and amends the previous commit.
    Aamend {  },
    /// Lists the configured aliases.
    Alias { filter: Option<String>, options: GitConfigOpts },
    /// Commits the updated files.
    Auc { args: Vec<String> },
    /// Stages the updated files and amends the previous commit.
    Aumend {  },
    /// Resets the author of the last commits.
    Author { num: Option<u16> },
    /// Lists the configuration settings other than aliases.
    Conf { filter: Option<String>, options: GitConfigOpts },
    /// Calls a hook.
    Hook { hook: HookSubcommands },
    /// Lists the files that changed in the last commits.
    Files { num: Option<u8> },
    /// Lists the last commits, one line each.
    L { num: Option<u8>, args: Vec<String> },
    /// Lists the message and the changed files of the last commits.
    Last { num: Option<u8>, args: Vec<String> },
    /// Restores files in the working tree.
    Restore { which: Option<WhichFiles>, args: Vec<String> },
    /// Shows the last commits.
    Show { num: Option<u8>, args: Vec<String> },
    /// Undoes the last commits and keeps their changes in the working tree.
    Undo { num: Option<u16> },
    /// Moves staged files out of the staging area.
    Unstage { which: Option<WhichFiles>, args: Vec<String> },
    /// Updates a local branch from the remote without checking it out.
    Update { branch: String },
}

/// An operation that changes the repository, with its arguments.
#[derive(Debug, Clone, PartialEq, Eq)]
pub enum MutableCommand {
    Add { args: Vec<String> },
    AddUpdated,
    AddAll,
    CommitAll { args: Vec<String> },
    CommitAllAmended,
    CommitAllUpdatedFiles { args: Vec<String> },
    CommitAllUpdatedFilesAmended,
    UpdateCommitAuthor { num: Option<u16> },
    Restore { args: Vec<String> },
    RestoreAll,
    UndoCommits { num: Option<u16> },
    Unstage { args: Vec<String> },
    UnstageAll,
    UpdateBranchFromRemote { branch: String },
}

/// A `MutableCommand` as a plain value.
pub enum MutableCommandView {
    Add { args: Seq<Seq<char>> },
    AddUpdated,
    AddAll,
    CommitAll { args: Seq<Seq<char>> },
    CommitAllAmended,
    CommitAllUpdatedFiles { args: Seq<Seq<char>> },
    CommitAllUpdatedFilesAmended,
    UpdateCommitAuthor { num: Option<u16> },
    Restore { args: Seq<Seq<char>> },
    RestoreAll,
    UndoCommits { num: Option<u16> },
    Unstage { args: Seq<Seq<char>> },
    UnstageAll,
    UpdateBranchFromRemote { branch: Seq<char> },
}

impl View for MutableCommand {
    type V = MutableCommandView;

    open spec fn view(&self) -> MutableCommandView {
        match self {
            MutableCommand::Add { args } => MutableCommandView::Add { args: args.deep_view() },
            MutableCommand::AddUpdated => MutableCommandView::AddUpdated,
            MutableCommand::AddAll => MutableCommandView::AddAll,
            MutableCommand::CommitAll { args } => MutableCommandView::CommitAll {
                args: args.deep_view(),
            },
            MutableCommand::CommitAllAmended => MutableCommandView::CommitAllAmended,
            MutableCommand::CommitAllUpdatedFiles { args } => {
                MutableCommandView::CommitAllUpdatedFiles { args: args.deep_view() }
            },
            MutableCommand::CommitAllUpdatedFilesAmended => {
                MutableCommandView::CommitAllUpdatedFilesAmended
            },
            MutableCommand::UpdateCommitAuthor { num } => MutableCommandView::UpdateCommitAuthor {
                num: *num,
            },
            MutableCommand::Restore { args } => MutableCommandView::Restore {
                args: args.deep_view(),
            },
            MutableCommand::RestoreAll => MutableCommandView::RestoreAll,
            MutableCommand::UndoCommits { num } => MutableCommandView::UndoCommits { num: *num },
            MutableCommand::Unstage { args } => MutableCommandView::Unstage {
                args: args.deep_view(),
            },
            MutableCommand::UnstageAll => MutableCommandView::UnstageAll,
            MutableCommand::UpdateBranchFromRemote { branch } => {
                MutableCommandView::UpdateBranchFromRemote { branch: branch@ }
            },
        }
    }
}

/// What a subcommand sets going.
#[derive(Debug, Clone, PartialEq, Eq)]
pub enum Invocation {
    /// A chain to run.
    Chain(Chain),
    /// An operation that changes the repository.
    Mutable(MutableCommand),
    /// A hook to run.
    Hook(Hook),
}

/// An `Invocation` as a plain value.
pub enum InvocationView {
    Chain(ChainView),
    Mutable(MutableCommandView),
    Hook(Hook),
}

impl View for Invocation {
    type V = InvocationView;

    open spec fn view(&self) -> InvocationView {
        match self {
            Invocation::Chain(chain) => InvocationView::Chain(chain@),
            Invocation::Mutable(command) => InvocationView::Mutable(command@),
            Invocation::Hook(hook) => InvocationView::Hook(*hook),
        }
    }
}

/// A filter as a plain value.
pub open spec fn filter_view(filter: Option<String>) -> Option<Seq<char>> {
    match filter {
        Some(pattern) => Some(pattern@),
        None => None,
    }
}

impl HookSubcommands {
    /// The hook that the subcommand names.
    pub open spec fn hook(self) -> Hook {
        match self {
            HookSubcommands::PreCommit {  } => Hook::PreCommit,
        }
    }

    /// The hook to run.
    pub fn run(&self) -> (hook: Hook)
        ensures
            hook == self.hook(),
    {
        match self {
            HookSubcommands::PreCommit {  } => Hook::PreCommit,
        }
    }
}

impl Subcommands {
    /// What the subcommand sets going. A command that only reads is laid
    /// out as the chain that runs it; one that changes the repository is
    /// named, with its arguments: files named `All` go before arguments, and
    /// `A` without arguments adds the updated files.
    pub open spec fn routed(self) -> InvocationView {
        match self {
            Subcommands::A { args: Some(args) } => InvocationView::Mutable(
                MutableCommandView::Add { args: args.deep_view() },
            ),
            Subcommands::A { args: None } => InvocationView::Mutable(
                MutableCommandView::AddUpdated,
            ),
            Subcommands::Aa {  } => InvocationView::Mutable(MutableCommandView::AddAll),
            Subcommands::Aac { args } => InvocationView::Mutable(
                MutableCommandView::CommitAll { args: args.deep_view() },
            ),
            Subcommands::Aamend {  } => InvocationView::Mutable(
                MutableCommandView::CommitAllAmended,
            ),
            Subcommands::Alias { filter, options } => InvocationView::Chain(
                ImmutableCommands::list_aliases_chain(filter_view(filter), options),
            ),
            Subcommands::Auc { args } => InvocationView::Mutable(
                MutableCommandView::CommitAllUpdatedFiles { args: args.deep_view() },
            ),
            Subcommands::Aumend {  } => InvocationView::Mutable(
                MutableCommandView::CommitAllUpdatedFilesAmended,
            ),
            Subcommands::Author { num } => InvocationView::Mutable(
                MutableCommandView::UpdateCommitAuthor { num },
            ),
            Subcommands::Conf { filter, options } => InvocationView::Chain(
                ImmutableCommands::list_configuration_settings_chain(filter_view(filter), options),
            ),
            Subcommands::Hook { hook } => InvocationView::Hook(hook.hook()),
            Subcommands::Files { num } => InvocationView::Chain(
                ImmutableCommands::show_files_command(num).chain(),
            ),
            Subcommands::L { num, args } => InvocationView::Chain(
                ImmutableCommands::one_line_log_command(num, args.deep_view()).chain(),
            ),
            Subcommands::Last { num, args } => InvocationView::Chain(
                ImmutableCommands::compact_summary_log_command(num, args.deep_view()).chain(),
            ),
            Subcommands::Show { num, args } => InvocationView::Chain(
                ImmutableCommands::show_command(num, args.deep_view()).chain(),
            ),
            Subcommands::Restore { which: Some(WhichFiles::All), .. } => InvocationView::Mutable(
                MutableCommandView::RestoreAll,
            ),
            Subcommands::Restore { which: None, args } => InvocationView::Mutable(
                MutableCommandView::Restore { args: args.deep_view() },
            ),
            Subcommands::Undo { num } => InvocationView::Mutable(
                MutableCommandView::UndoCommits { num },
            ),
            Subcommands::Unstage { which: Some(WhichFiles::All), .. } => InvocationView::Mutable(
                MutableCommandView::UnstageAll,
            ),
            Subcommands::Unstage { which: None, args } => InvocationView::Mutable(
                MutableCommandView::Unstage { args: args.deep_view() },
            ),
            Subcommands::Update { branch } => InvocationView::Mutable(
                MutableCommandView::UpdateBranchFromRemote { branch: branch@ },
            ),
        }
    }

    /// What the subcommand sets going.
    pub fn run(&self) -> (invocation: Invocation)
        ensures
            invocation@ == self.routed(),
    {
        match self {
            Subcommands::A { args } => match args {
                Some(args) => Invocation::Mutable(
                    MutableCommand::Add { args: clone_args(args.as_slice()) },
                ),
                None => Invocation::Mutable(MutableCommand::AddUpdated),
            },
            Subcommands::Aa {  } => Invocation::Mutable(MutableCommand::AddAll),
            Subcommands::Aac { args } => Invocation::Mutable(
                MutableCommand::CommitAll { args: clone_args(args.as_slice()) },
            ),
            Subcommands::Aamend {  } => Invocation::Mutable(MutableCommand::CommitAllAmended),
            Subcommands::Alias { filter, options } => Invocation::Chain(
                ImmutableCommands::list_aliases(
                    match filter {
                        Some(pattern) => Some(pattern.as_str()),
                        None => None,
                    },
                    GitConfigOpts {
                        show_origin: options.show_origin,
                        show_scope: options.show_scope,
                    },
                ),
            ),
            Subcommands::Auc { args } => Invocation::Mutable(
                MutableCommand::CommitAllUpdatedFiles { args: clone_args(args.as_slice()) },
            ),
            Subcommands::Aumend {  } => Invocation::Mutable(
                MutableCommand::CommitAllUpdatedFilesAmended,
            ),
            Subcommands::Author { num } => Invocation::Mutable(
                MutableCommand::UpdateCommitAuthor { num: *num },
            ),
            Subcommands::Conf { filter, options } => Invocation::Chain(
                ImmutableCommands::list_configuration_settings(
                    match filter {
                        Some(pattern) => Some(pattern.as_str()),
                        None => None,
                    },
                    GitConfigOpts {
                        show_origin: options.show_origin,
                        show_scope: options.show_scope,
                    },
                ),
            ),
            Subcommands::Hook { hook } => Invocation::Hook(hook.run()),
            Subcommands::Files { num } => Invocation::Chain(
                ImmutableCommands::show_files(*num).chain(),
            ),
            Subcommands::L { num, args } => Invocation::Chain(
                ImmutableCommands::one_line_log(*num, args.as_slice()).chain(),
            ),
            Subcommands::Last { num, args } => Invocation::Chain(
                ImmutableCommands::compact_summary_log(*num, args.as_slice()).chain(),
            ),
            Subcommands::Show { num, args } => Invocation::Chain(
                ImmutableCommands::show(*num, args.as_slice()).chain(),
            ),
            Subcommands::Restore { which, args } => {
                if let Some(all) = which {
                    match all {
                        WhichFiles::All => Invocation::Mutable(MutableCommand::RestoreAll),
                    }
                } else {
                    Invocation::Mutable(
                        MutableCommand::Restore { args: clone_args(args.as_slice()) },
                    )
                }
            },
            Subcommands::Undo { num } => Invocation::Mutable(
                MutableCommand::UndoCommits { num: *num },
            ),
            Subcommands::Unstage { which, args } => {
                if let Some(which) = which {
                    match which {
                        WhichFiles::All => Invocation::Mutable(MutableCommand::UnstageAll),
                    }
                } else {
                    Invocation::Mutable(
                        MutableCommand::Unstage { args: clone_args(args.as_slice()) },
                    )
                }
            },
            Subcommands::Update { branch } => Invocation::Mutable(
                MutableCommand::UpdateBranchFromRemote { branch: branch.clone() },
            ),
        }
    }
}

} // verus!
