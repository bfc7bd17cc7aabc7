use vstd::prelude::*;

verus! {

/// How a command's result is rendered.
#[derive(Clone, Copy, Debug, PartialEq, Eq, Structural)]
pub enum OutputFormat {
    Json,
    Pretty,
    Table,
    Summary,
}

impl OutputFormat {
    /// The flag word of a format.
    pub fn as_str(&self) -> (r: &'static str)
        ensures
            match self {
                OutputFormat::Json => r@ == "json"@,
                OutputFormat::Pretty => r@ == "pretty"@,
                OutputFormat::Table => r@ == "table"@,
                OutputFormat::Summary => r@ == "summary"@,
            },
    {
        match self {
            OutputFormat::Json => "json",
            OutputFormat::Pretty => "pretty",
            OutputFormat::Table => "table",
            OutputFormat::Summary => "summary",
        }
    }
}

/// One resolved command: which entity kind to work on, with its URL or
/// query, and its rendering options.
#[derive(Clone, Debug)]
pub enum Commands {
    Person { url: String, format: Option<OutputFormat>, output: Option<String>, verbose: bool },
    People {
        query: String,
        location: Option<String>,
        details: usize,
        format: Option<OutputFormat>,
        output: Option<String>,
        verbose: bool,
    },
    Company {
        url: String,
        employees: bool,
        format: Option<OutputFormat>,
        output: Option<String>,
        verbose: bool,
    },
    Jobs {
        query: String,
        location: Option<String>,
        details: usize,
        format: Option<OutputFormat>,
        output: Option<String>,
        verbose: bool,
    },
    Job { url: String, format: Option<OutputFormat>, output: Option<String>, verbose: bool },
}

/// The fully resolved command line: the command plus the session and
/// rendering options that apply to every command.
#[derive(Clone, Debug)]
pub struct Cli {
    pub command: Commands,
    pub email: Option<String>,
    pub password: Option<String>,
    pub format: OutputFormat,
    pub output: Option<String>,
    pub verbose: bool,
}

/// A selector argument: a single pattern or an ordered candidate list.
pub enum SelectorInput<'a> {
    Single(&'a str),
    Multiple(&'a [&'a str]),
}

impl<'a> SelectorInput<'a> {
    /// Wraps one pattern.
    pub fn from_single(s: &'a str) -> (r: SelectorInput<'a>)
        ensures
            r matches SelectorInput::Single(p) && p@ == s@,
    {
        SelectorInput::Single(s)
    }

    /// Wraps a candidate list.
    pub fn from_multiple(ss: &'a [&'a str]) -> (r: SelectorInput<'a>)
        ensures
            r matches SelectorInput::Multiple(p) && p@ == ss@,
    {
        SelectorInput::Multiple(ss)
    }
}

} // verus!
