//! The commands of the version-control binary that change nothing: what
//! each of them runs, as a plan.

use crate::args::{
    assemble, assembled, clone_args, extend_cloned, max_count, max_count_arg, push_arg,
};
use crate::chain::{Chain, ChainView, Terminus};
use crate::commands::{
    column_stage, ripgrep_stage, sed_stage, RipgrepOptions, Stage, StageView, Tool,
};
use vstd::prelude::*;

verus! {

/// The toggles of a configuration listing.
#[derive(Debug, Clone, Copy, PartialEq, Eq, Structural)]
pub struct GitConfigOpts {
    /// Show where each setting comes from.
    pub show_origin: bool,
    /// Show the scope of each setting.
    pub show_scope: bool,
}

/// The flags that the toggles stand for, the origin before the scope.
pub open spec fn config_flags(options: GitConfigOpts) -> Seq<Seq<char>> {
    (if options.show_origin {
        seq!["--show-origin"@]
    } else {
        Seq::empty()
    }) + (if options.show_scope {
        seq!["--show-scope"@]
    } else {
        Seq::empty()
    })
}

/// The version-control binary.
#[derive(Debug, Clone, Copy, PartialEq, Eq, Structural)]
pub struct Git();

impl Git {
    /// Appends to `config_args` the flags that the toggles stand for.
    pub fn parse_config_options(options: GitConfigOpts, config_args: &mut Vec<String>)
        ensures
            final(config_args).deep_view() == old(config_args).deep_view() + config_flags(options),
    {
        let ghost before = config_args.deep_view();
        if options.show_origin {
            push_arg(config_args, "--show-origin");
        }
        if options.show_scope {
            push_arg(config_args, "--show-scope");
        }
        assert(config_args.deep_view() =~= before + config_flags(options));
    }
}

/// One invocation of the version-control binary: a subcommand, the
/// arguments the operation always passes, and the caller's.
#[derive(Debug, Clone, PartialEq, Eq)]
pub struct GitCommand {
    pub subcommand: String,
    pub default_args: Vec<String>,
    pub user_args: Vec<String>,
}

/// A `GitCommand` as a plain value.
pub struct GitCommandView {
    pub subcommand: Seq<char>,
    pub default_args: Seq<Seq<char>>,
    pub user_args: Seq<Seq<char>>,
}

impl View for GitCommand {
    type V = GitCommandView;

    open spec fn view(&self) -> GitCommandView {
        GitCommandView {
            subcommand: self.subcommand@,
            default_args: self.default_args.deep_view(),
            user_args: self.user_args.deep_view(),
        }
    }
}

impl GitCommandView {
    /// The argument vector: the subcommand, the fixed arguments, the
    /// caller's.
    pub open spec fn arguments(self) -> Seq<Seq<char>> {
        seq![self.subcommand] + assembled(self.default_args, self.user_args, None)
    }

    /// The stage that runs the command.
    pub open spec fn stage(self) -> StageView {
        StageView { program: Tool::Git.name(), args: self.arguments() }
    }

    /// The chain that runs the command alone, on the caller's terminal.
    pub open spec fn chain(self) -> ChainView {
        ChainView { stages: seq![self.stage()], terminus: Terminus::Inherit }
    }
}

impl GitCommand {
    /// The argument vector: the subcommand, the fixed arguments, the
    /// caller's.
    pub fn arguments(&self) -> (argv: Vec<String>)
        ensures
            argv.deep_view() == self@.arguments(),
    {
        let mut argv: Vec<String> = Vec::new();
        assert(argv.deep_view() =~= Seq::<Seq<char>>::empty());
        push_arg(&mut argv, self.subcommand.as_str());
        let rest = assemble(self.default_args.as_slice(), self.user_args.as_slice(), None);
        extend_cloned(&mut argv, rest.as_slice());
        assert(argv.deep_view() =~= self@.arguments());
        argv
    }

    /// The stage that runs the command.
    pub fn stage(&self) -> (stage: Stage)
        ensures
            stage@ == self@.stage(),
    {
        Stage::of(Tool::Git, self.arguments())
    }

    /// The chain that runs the command alone, with its input and output on
    /// the caller's terminal.
    pub fn chain(&self) -> (chain: Chain)
        ensures
            chain@ == self@.chain(),
    {
        Chain::new(self.stage(), Terminus::Inherit)
    }
}

/// The count a listing is limited to: the caller's, or the operation's own.
pub open spec fn count_or(num: Option<u8>, fallback: u8) -> u8 {
    match num {
        Some(count) => count,
        None => fallback,
    }
}

/// The pattern that selects the settings that are aliases.
pub open spec fn alias_pattern() -> Seq<char> {
    "^alias\\."@
}

/// The arguments that list the settings whose name matches the alias
/// pattern, which comes last.
pub open spec fn alias_listing_args(options: GitConfigOpts) -> Seq<Seq<char>> {
    seq!["config"@] + config_flags(options) + seq!["--get-regexp"@, alias_pattern()]
}

/// The arguments that list all settings.
pub open spec fn settings_listing_args(options: GitConfigOpts) -> Seq<Seq<char>> {
    seq!["config"@, "--list"@] + config_flags(options)
}

/// The stage that narrows a listing to the lines that hold `filter`, taken
/// as a literal string; no stage where there is no filter.
pub open spec fn filter_stages(filter: Option<Seq<char>>) -> Seq<StageView> {
    match filter {
        Some(pattern) => seq![ripgrep_stage(pattern, Some(RipgrepOptions::FixedStrings))],
        None => Seq::empty(),
    }
}

/// The commands that only read.
#[derive(Debug, PartialEq, Eq, PartialOrd, Ord, Clone, Copy)]
pub struct ImmutableCommands();

impl ImmutableCommands {
    /// `git log --compact-summary --max-count=NUM ARGS`, one commit unless
    /// the caller says otherwise.
    pub open spec fn compact_summary_log_command(
        num: Option<u8>,
        args: Seq<Seq<char>>,
    ) -> GitCommandView {
        GitCommandView {
            subcommand: "log"@,
            default_args: seq!["--compact-summary"@, max_count(count_or(num, 1))],
            user_args: args,
        }
    }

    /// `git log --pretty=FORMAT --max-count=NUM ARGS`, one line for each
    /// commit, 25 commits unless the caller says otherwise.
    pub open spec fn one_line_log_command(num: Option<u8>, args: Seq<Seq<char>>) -> GitCommandView {
        GitCommandView {
            subcommand: "log"@,
            default_args: seq![
                "--pretty='%C(yellow)%h %C(magenta)%as %C(blue)%aL %C(cyan)%s%C(reset)'"@,
                max_count(count_or(num, 25)),
            ],
            user_args: args,
        }
    }

    /// `git show --expand-tabs=4 --max-count=NUM ARGS`, one commit unless
    /// the caller says otherwise.
    pub open spec fn show_command(num: Option<u8>, args: Seq<Seq<char>>) -> GitCommandView {
        GitCommandView {
            subcommand: "show"@,
            default_args: seq!["--expand-tabs=4"@, max_count(count_or(num, 1))],
            user_args: args,
        }
    }

    /// `git show --pretty= --name-only --max-count=NUM`, one commit unless
    /// the caller says otherwise.
    pub open spec fn show_files_command(num: Option<u8>) -> GitCommandView {
        GitCommandView {
            subcommand: "show"@,
            default_args: seq!["--pretty="@, "--name-only"@, max_count(count_or(num, 1))],
            user_args: Seq::empty(),
        }
    }

    /// The chain that lists the aliases as a table: the settings whose name
    /// starts with `alias.`, that prefix cut off, narrowed to the lines that
    /// hold the filter, the first blank of each line turned into the
    /// separator at which the formatter splits it.
    pub open spec fn list_aliases_chain(
        filter: Option<Seq<char>>,
        options: GitConfigOpts,
    ) -> ChainView {
        ChainView {
            stages: seq![
                StageView { program: Tool::Git.name(), args: alias_listing_args(options) },
                sed_stage("s/^alias\\.//"@),
            ] + filter_stages(filter) + seq![sed_stage("s/ /\\;/"@), column_stage(';')],
            terminus: Terminus::Forward,
        }
    }

    /// The chain that lists the settings other than aliases as a table: all
    /// settings, without the lines that start with `alias.`, narrowed to the
    /// lines that hold the filter, split at the equals sign.
    pub open spec fn list_configuration_settings_chain(
        filter: Option<Seq<char>>,
        options: GitConfigOpts,
    ) -> ChainView {
        ChainView {
            stages: seq![
                StageView { program: Tool::Git.name(), args: settings_listing_args(options) },
                ripgrep_stage(alias_pattern(), Some(RipgrepOptions::InvertMatch)),
            ] + filter_stages(filter) + seq![column_stage('=')],
            terminus: Terminus::Forward,
        }
    }

    fn limited(subcommand: &str, first: &[&str], count: u8, args: &[String]) -> (command:
        GitCommand)
        ensures
            command@ == (GitCommandView {
                subcommand: subcommand@,
                default_args: first.deep_view().push(max_count(count)),
                user_args: args.deep_view(),
            }),
    {
        let mut default_args: Vec<String> = Vec::new();
        assert(default_args.deep_view() =~= Seq::<Seq<char>>::empty());
        let mut i: usize = 0;
        while i < first.len()
            invariant
                i <= first.len(),
                default_args.deep_view() == first.deep_view().take(i as int),
            decreases first.len() - i,
        {
            push_arg(&mut default_args, first[i]);
            i += 1;
            assert(first.deep_view().take(i as int) =~= first.deep_view().take(i - 1).push(
                first[i - 1]@,
            ));
        }
        assert(first.deep_view().take(first.len() as int) =~= first.deep_view());
        let flag = max_count_arg(count);
        push_arg(&mut default_args, flag.as_str());
        GitCommand { subcommand: subcommand.to_owned(), default_args, user_args: clone_args(args) }
    }

    /// `git log --compact-summary --max-count=NUM ARGS`
    pub fn compact_summary_log(num: Option<u8>, args: &[String]) -> (command: GitCommand)
        ensures
            command@ == Self::compact_summary_log_command(num, args.deep_view()),
    {
        let count = match num {
            Some(count) => count,
            None => 1,
        };
        let first = ["--compact-summary"];
        assert(first.deep_view() =~= seq!["--compact-summary"@]);
        let command = Self::limited("log", first.as_slice(), count, args);
        assert(command@.default_args =~= seq!["--compact-summary"@, max_count(count)]);
        command
    }

    /// Lists the configured aliases, those that hold `filter` where one is
    /// given.
    pub fn list_aliases(filter: Option<&str>, options: GitConfigOpts) -> (chain: Chain)
        ensures
            chain@ == Self::list_aliases_chain(
                match filter {
                    Some(pattern) => Some(pattern@),
                    None => None,
                },
                options,
            ),
    {
        let mut config_args: Vec<String> = Vec::new();
        assert(config_args.deep_view() =~= Seq::<Seq<char>>::empty());
        push_arg(&mut config_args, "config");
        Git::parse_config_options(options, &mut config_args);
        // the pattern has to be last
        push_arg(&mut config_args, "--get-regexp");
        push_arg(&mut config_args, "^alias\\.");
        assert(config_args.deep_view() =~= alias_listing_args(options));
        // the settings whose name starts with "alias."
        let aliases = Chain::new(Stage::of(Tool::Git, config_args), Terminus::Forward);
        // without that prefix
        let aliases = aliases.extend(Stage::sed("s/^alias\\.//"));
        let filtered_aliases = match filter {
            Some(pattern) => aliases.extend(
                Stage::ripgrep(pattern, Some(RipgrepOptions::FixedStrings)),
            ),
            None => aliases,
        };
        // the first blank, which parts the name from the value, becomes a semicolon
        let delimited_aliases = filtered_aliases.extend(Stage::sed("s/ /\\;/"));
        let chain = delimited_aliases.extend(Stage::column(';'));
        assert(chain@.stages =~= Self::list_aliases_chain(
            match filter {
                Some(pattern) => Some(pattern@),
                None => None,
            },
            options,
        ).stages);
        chain
    }

    /// Lists the configuration settings other than aliases, those that hold
    /// `filter` where one is given.
    pub fn list_configuration_settings(filter: Option<&str>, options: GitConfigOpts) -> (chain:
        Chain)
        ensures
            chain@ == Self::list_configuration_settings_chain(
                match filter {
                    Some(pattern) => Some(pattern@),
                    None => None,
                },
                options,
            ),
    {
        let mut config_args: Vec<String> = Vec::new();
        assert(config_args.deep_view() =~= Seq::<Seq<char>>::empty());
        push_arg(&mut config_args, "config");
        push_arg(&mut config_args, "--list");
        Git::parse_config_options(options, &mut config_args);
        assert(config_args.deep_view() =~= settings_listing_args(options));
        let configs = Chain::new(Stage::of(Tool::Git, config_args), Terminus::Forward);
        // without the settings whose name starts with "alias."
        let configs_no_aliases = configs.extend(
            Stage::ripgrep("^alias\\.", Some(RipgrepOptions::InvertMatch)),
        );
        let filtered_configs = match filter {
            Some(pattern) => configs_no_aliases.extend(
                Stage::ripgrep(pattern, Some(RipgrepOptions::FixedStrings)),
            ),
            None => configs_no_aliases,
        };
        let chain = filtered_configs.extend(Stage::column('='));
        assert(chain@.stages =~= Self::list_configuration_settings_chain(
            match filter {
                Some(pattern) => Some(pattern@),
                None => None,
            },
            options,
        ).stages);
        chain
    }

    /// `git log --pretty='%C(yellow)%h %C(magenta)%as %C(blue)%aL %C(cyan)%s%C(reset)' --max-count=NUM ARGS`
    pub fn one_line_log(num: Option<u8>, args: &[String]) -> (command: GitCommand)
        ensures
            command@ == Self::one_line_log_command(num, args.deep_view()),
    {
        let count = match num {
            Some(count) => count,
            None => 25,
        };
        let first = ["--pretty='%C(yellow)%h %C(magenta)%as %C(blue)%aL %C(cyan)%s%C(reset)'"];
        assert(first.deep_view() =~= seq![
            "--pretty='%C(yellow)%h %C(magenta)%as %C(blue)%aL %C(cyan)%s%C(reset)'"@,
        ]);
        let command = Self::limited("log", first.as_slice(), count, args);
        assert(command@.default_args =~= seq![
            "--pretty='%C(yellow)%h %C(magenta)%as %C(blue)%aL %C(cyan)%s%C(reset)'"@,
            max_count(count),
        ]);
        command
    }

    /// `git show --expand-tabs=4 --max-count=NUM ARGS`
    pub fn show(num: Option<u8>, args: &[String]) -> (command: GitCommand)
        ensures
            command@ == Self::show_command(num, args.deep_view()),
    {
        let count = match num {
            Some(count) => count,
            None => 1,
        };
        let first = ["--expand-tabs=4"];
        assert(first.deep_view() =~= seq!["--expand-tabs=4"@]);
        let command = Self::limited("show", first.as_slice(), count, args);
        assert(command@.default_args =~= seq!["--expand-tabs=4"@, max_count(count)]);
        command
    }

    /// `git show --pretty='' --name-only --max-count=NUM`
    pub fn show_files(num: Option<u8>) -> (command: GitCommand)
        ensures
            command@ == Self::show_files_command(num),
    {
        let count = match num {
            Some(count) => count,
            None => 1,
        };
        let first = ["--pretty=", "--name-only"];
        assert(first.deep_view() =~= seq!["--pretty="@, "--name-only"@]);
        let none: Vec<String> = Vec::new();
        assert(none.deep_view() =~= Seq::<Seq<char>>::empty());
        let command = Self::limited("show", first.as_slice(), count, none.as_slice());
        assert(command@.default_args =~= seq![
            "--pretty="@,
            "--name-only"@,
            max_count(count),
        ]);
        command
    }
}

} // verus!
