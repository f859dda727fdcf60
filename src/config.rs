//! The configuration of a run: which inputs to read, in order, and which of
//! the three display modes applies to every line.

use vstd::prelude::*;
use vstd::string::*;

verus! {

/// How each line is displayed. Having one value for the mode, rather than
/// two flags, makes the state in which both numbering modes are on
/// impossible to represent.
#[derive(Clone, Copy, Debug, PartialEq, Eq, Structural)]
pub enum Mode {
    /// Every line as it is.
    Plain,
    /// Every line with its number.
    NumberAll,
    /// Blank lines as they are, the others numbered among themselves.
    NumberNonBlank,
}

/// The mode chosen by the two numbering flags, when at most one is set.
pub open spec fn mode_of(number_lines: bool, number_nonblank_lines: bool) -> Mode {
    if number_lines {
        Mode::NumberAll
    } else if number_nonblank_lines {
        Mode::NumberNonBlank
    } else {
        Mode::Plain
    }
}

/// The name that stands for standard input.
pub open spec fn stdin_name() -> Seq<char> {
    seq!['-']
}

/// The inputs of a run: the names given, or standard input alone when none
/// is given.
pub open spec fn input_names(names: Seq<Seq<char>>) -> Seq<Seq<char>> {
    if names.len() == 0 {
        seq![stdin_name()]
    } else {
        names
    }
}

/// A command line that cannot be run.
#[derive(Clone, Copy, Debug, PartialEq, Eq, Structural)]
pub enum UsageError {
    /// Both numbering flags were given; they exclude each other.
    ConflictingNumberFlags,
}

/// The diagnostic for a usage error.
pub open spec fn usage_message(e: UsageError) -> Seq<char> {
    match e {
        UsageError::ConflictingNumberFlags => "the argument '--number' cannot be used with '--number-nonblank'"@,
    }
}

impl UsageError {
    /// The diagnostic to show for this error.
    pub fn message(&self) -> (r: String)
        ensures
            r@ == usage_message(*self),
    {
        match self {
            UsageError::ConflictingNumberFlags => String::from_str(
                "the argument '--number' cannot be used with '--number-nonblank'",
            ),
        }
    }
}

/// A validated configuration: the inputs in the order given, and the mode.
#[derive(Debug)]
pub struct Config {
    pub files: Vec<String>,
    pub mode: Mode,
}

impl Config {
    /// Resolves the parsed command line into a configuration. No file name
    /// means standard input alone; both numbering flags together are a
    /// usage error.
    pub fn new(files: Vec<String>, number_lines: bool, number_nonblank_lines: bool) -> (r: Result<
        Config,
        UsageError,
    >)
        ensures
            r is Err <==> number_lines && number_nonblank_lines,
            r is Err ==> r == Err::<Config, UsageError>(UsageError::ConflictingNumberFlags),
            r is Ok ==> r->Ok_0.files.deep_view() == input_names(files.deep_view()),
            r is Ok ==> r->Ok_0.mode == mode_of(number_lines, number_nonblank_lines),
    {
        if number_lines && number_nonblank_lines {
            return Err(UsageError::ConflictingNumberFlags);
        }
        let mode = if number_lines {
            Mode::NumberAll
        } else if number_nonblank_lines {
            Mode::NumberNonBlank
        } else {
            Mode::Plain
        };
        if files.len() == 0 {
            proof { reveal_strlit("-"); }
            let dash = String::from_str("-");
            assert(dash@ =~= stdin_name());
            let names = vec![dash];
            assert(names@.len() == 1);
            assert(names.deep_view() =~= input_names(files.deep_view()));
            Ok(Config { files: names, mode })
        } else {
            Ok(Config { files, mode })
        }
    }

    /// Whether every line is numbered.
    pub fn number_lines(&self) -> (r: bool)
        ensures
            r == (self.mode == Mode::NumberAll),
    {
        self.mode == Mode::NumberAll
    }

    /// Whether the non-blank lines alone are numbered.
    pub fn number_nonblank_lines(&self) -> (r: bool)
        ensures
            r == (self.mode == Mode::NumberNonBlank),
    {
        self.mode == Mode::NumberNonBlank
    }
}

/// Where an input's lines come from.
#[derive(Debug)]
pub enum InputSource {
    /// Standard input.
    Stdin,
    /// The file of this name.
    File(String),
}

impl InputSource {
    /// The source that an input name stands for: standard input for the
    /// name `-`, the file of that name otherwise.
    pub fn from_name(name: &str) -> (r: InputSource)
        ensures
            name@ == stdin_name() ==> r is Stdin,
            name@ != stdin_name() ==> r is File && r->File_0@ == name@,
    {
        if name.unicode_len() == 1 && name.get_char(0) == '-' {
            assert(name@ =~= stdin_name());
            InputSource::Stdin
        } else {
            InputSource::File(String::from_str(name))
        }
    }
}

} // verus!
