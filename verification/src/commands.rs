//! The stages a chain is built from, one constructor per external tool.

use crate::args::{assemble, assembled, push_arg};
use vstd::prelude::*;

verus! {

/// The external tools that take part in a chain.
#[derive(Debug, Clone, Copy, PartialEq, Eq, Structural)]
pub enum Tool {
    /// The version-control binary.
    Git,
    /// The text-search tool.
    Ripgrep,
    /// The stream editor.
    Sed,
    /// The columnar formatter.
    Column,
}

impl Tool {
    /// The name under which the tool is looked up.
    pub open spec fn name(self) -> Seq<char> {
        match self {
            Tool::Git => "git"@,
            Tool::Ripgrep => "rg"@,
            Tool::Sed => "sed"@,
            Tool::Column => "column"@,
        }
    }

    /// The name under which the tool is looked up.
    pub fn program(self) -> (name: &'static str)
        ensures
            name@ == self.name(),
    {
        match self {
            Tool::Git => "git",
            Tool::Ripgrep => "rg",
            Tool::Sed => "sed",
            Tool::Column => "column",
        }
    }
}

/// One external program invocation within a chain: the program and its
/// complete argument vector.
#[derive(Debug, Clone, PartialEq, Eq)]
pub struct Stage {
    pub program: String,
    pub args: Vec<String>,
}

/// A `Stage` as a plain value.
pub struct StageView {
    pub program: Seq<char>,
    pub args: Seq<Seq<char>>,
}

impl View for Stage {
    type V = StageView;

    open spec fn view(&self) -> StageView {
        StageView { program: self.program@, args: self.args.deep_view() }
    }
}

impl DeepView for Stage {
    type V = StageView;

    open spec fn deep_view(&self) -> StageView {
        self@
    }
}

/// How the text-search tool reads its pattern. The two modes exclude each
/// other, so a stage has at most one of them.
#[derive(Debug, Clone, Copy, PartialEq, Eq, Structural)]
pub enum RipgrepOptions {
    /// The pattern is a literal string, not a regular expression.
    FixedStrings,
    /// Lines that do not match are the ones that pass.
    InvertMatch,
}

impl RipgrepOptions {
    /// The flag that selects the mode.
    pub open spec fn flag(self) -> Seq<char> {
        match self {
            RipgrepOptions::FixedStrings => "-F"@,
            RipgrepOptions::InvertMatch => "-v"@,
        }
    }

    /// The flag that selects the mode.
    pub fn as_flag(self) -> (flag: &'static str)
        ensures
            flag@ == self.flag(),
    {
        match self {
            RipgrepOptions::FixedStrings => "-F",
            RipgrepOptions::InvertMatch => "-v",
        }
    }
}

/// The flags of a search stage: that of the chosen mode, if one is chosen.
pub open spec fn ripgrep_flags(option: Option<RipgrepOptions>) -> Seq<Seq<char>> {
    match option {
        Some(mode) => seq![mode.flag()],
        None => Seq::empty(),
    }
}

/// The search stage for `pattern`: the mode's flag first, the pattern last,
/// where a flag can never be taken for it.
pub open spec fn ripgrep_stage(pattern: Seq<char>, option: Option<RipgrepOptions>) -> StageView {
    StageView {
        program: Tool::Ripgrep.name(),
        args: assembled(Seq::empty(), ripgrep_flags(option), Some(pattern)),
    }
}

/// The stream-editor stage that runs one script.
pub open spec fn sed_stage(script: Seq<char>) -> StageView {
    StageView { program: Tool::Sed.name(), args: seq![script] }
}

/// The formatter stage that aligns its input into a table, splitting each
/// line at `delimiter`.
pub open spec fn column_stage(delimiter: char) -> StageView {
    StageView { program: Tool::Column.name(), args: seq!["-t"@, "-s"@, seq![delimiter]] }
}

/// `String::from` on a character: the string that holds this one character
/// and nothing else.
#[verifier::external_body]
fn char_to_string(c: char) -> (s: String)
    ensures
        s@ == seq![c],
{
    String::from(c)
}

impl Stage {
    /// A stage that runs `program` with `args`.
    pub fn new(program: &str, args: Vec<String>) -> (stage: Stage)
        ensures
            stage@ == (StageView { program: program@, args: args.deep_view() }),
    {
        Stage { program: program.to_owned(), args }
    }

    /// A stage that runs one of the known tools with `args`.
    pub fn of(tool: Tool, args: Vec<String>) -> (stage: Stage)
        ensures
            stage@ == (StageView { program: tool.name(), args: args.deep_view() }),
    {
        Stage::new(tool.program(), args)
    }

    /// A search stage that lets pass the lines that `pattern` selects under
    /// the given mode.
    pub fn ripgrep(pattern: &str, option: Option<RipgrepOptions>) -> (stage: Stage)
        ensures
            stage@ == ripgrep_stage(pattern@, option),
    {
        let fixed: Vec<String> = Vec::new();
        let mut flags: Vec<String> = Vec::new();
        assert(fixed.deep_view() =~= Seq::<Seq<char>>::empty());
        assert(flags.deep_view() =~= Seq::<Seq<char>>::empty());
        if let Some(mode) = option {
            push_arg(&mut flags, mode.as_flag());
            assert(flags.deep_view() =~= seq![mode.flag()]);
        }
        let args = assemble(fixed.as_slice(), flags.as_slice(), Some(pattern));
        Stage::of(Tool::Ripgrep, args)
    }

    /// A stream-editor stage that runs `script` over its input.
    pub fn sed(script: &str) -> (stage: Stage)
        ensures
            stage@ == sed_stage(script@),
    {
        let mut args: Vec<String> = Vec::new();
        assert(args.deep_view() =~= Seq::<Seq<char>>::empty());
        push_arg(&mut args, script);
        assert(args.deep_view() =~= seq![script@]);
        Stage::of(Tool::Sed, args)
    }

    /// A formatter stage that aligns lines whose fields `delimiter` parts.
    pub fn column(delimiter: char) -> (stage: Stage)
        ensures
            stage@ == column_stage(delimiter),
    {
        let mut args: Vec<String> = Vec::new();
        assert(args.deep_view() =~= Seq::<Seq<char>>::empty());
        push_arg(&mut args, "-t");
        push_arg(&mut args, "-s");
        let separator = char_to_string(delimiter);
        push_arg(&mut args, separator.as_str());
        assert(args.deep_view() =~= seq!["-t"@, "-s"@, seq![delimiter]]);
        Stage::of(Tool::Column, args)
    }
}

} // verus!
