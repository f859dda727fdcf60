//! The line emitter: what each input line becomes on output under the
//! active mode, and how the inputs of a run combine into the two output
//! streams.

use vstd::prelude::*;
use vstd::string::*;

use crate::config::Mode;
use crate::format::{format_numbered, numbered_line};

verus! {

/// How many of `lines` are not blank.
pub open spec fn nonblank_count(lines: Seq<Seq<char>>) -> nat
    decreases lines.len(),
{
    if lines.len() == 0 {
        0
    } else {
        nonblank_count(lines.drop_last()) + if lines.last().len() == 0 {
            0nat
        } else {
            1nat
        }
    }
}

/// What `line` becomes on output when it follows `seen` lines of its
/// input, `nonblank_seen` of which were not blank.
pub open spec fn display_line(mode: Mode, seen: nat, nonblank_seen: nat, line: Seq<char>) -> Seq<
    char,
> {
    match mode {
        Mode::Plain => line,
        Mode::NumberAll => numbered_line(seen + 1, line),
        Mode::NumberNonBlank => if line.len() == 0 {
            Seq::empty()
        } else {
            numbered_line(nonblank_seen + 1, line)
        },
    }
}

/// The output lines of one input, its numbering starting at 1.
pub open spec fn rendered(mode: Mode, lines: Seq<Seq<char>>) -> Seq<Seq<char>> {
    Seq::new(
        lines.len(),
        |k: int| display_line(mode, k as nat, nonblank_count(lines.take(k)), lines[k]),
    )
}

/// The numbering state of the input being read: how many of its lines have
/// been shown, and how many of those were not blank.
#[derive(Clone, Copy, Debug)]
pub struct LineNumberer {
    pub mode: Mode,
    pub lines_seen: usize,
    pub nonblank_seen: usize,
}

impl LineNumberer {
    /// The non-blank lines are among the lines seen.
    pub open spec fn wf(&self) -> bool {
        self.nonblank_seen <= self.lines_seen
    }

    /// A numberer for `mode`, at the start of an input.
    pub fn new(mode: Mode) -> (r: LineNumberer)
        ensures
            r.mode == mode,
            r.lines_seen == 0,
            r.nonblank_seen == 0,
            r.wf(),
    {
        LineNumberer { mode, lines_seen: 0, nonblank_seen: 0 }
    }

    /// Starts a new input: numbering begins again at 1.
    pub fn start_input(&mut self)
        ensures
            final(self).mode == old(self).mode,
            final(self).lines_seen == 0,
            final(self).nonblank_seen == 0,
            final(self).wf(),
    {
        self.lines_seen = 0;
        self.nonblank_seen = 0;
    }

    /// The output for the next line of the current input, counting it.
    pub fn render(&mut self, line: &str) -> (r: String)
        requires
            old(self).wf(),
            old(self).lines_seen < usize::MAX,
        ensures
            r@ == display_line(
                old(self).mode,
                old(self).lines_seen as nat,
                old(self).nonblank_seen as nat,
                line@,
            ),
            final(self).mode == old(self).mode,
            final(self).lines_seen == old(self).lines_seen + 1,
            final(self).nonblank_seen == old(self).nonblank_seen + if line@.len() == 0 {
                0int
            } else {
                1int
            },
            final(self).wf(),
    {
        let blank = line.is_empty();
        let r = match self.mode {
            Mode::Plain => String::from_str(line),
            Mode::NumberAll => format_numbered((self.lines_seen + 1) as u64, line),
            Mode::NumberNonBlank => {
                if blank {
                    String::new()
                } else {
                    format_numbered((self.nonblank_seen + 1) as u64, line)
                }
            },
        };
        self.lines_seen = self.lines_seen + 1;
        if !blank {
            self.nonblank_seen = self.nonblank_seen + 1;
        }
        r
    }
}

proof fn lemma_nonblank_count_step(lines: Seq<Seq<char>>, i: int)
    requires
        0 <= i < lines.len(),
    ensures
        nonblank_count(lines.take(i + 1)) == nonblank_count(lines.take(i)) + if lines[i].len()
            == 0 {
            0nat
        } else {
            1nat
        },
{
    assert(lines.take(i + 1).drop_last() =~= lines.take(i));
}

proof fn lemma_nonblank_count_bound(lines: Seq<Seq<char>>)
    ensures
        nonblank_count(lines) <= lines.len(),
    decreases lines.len(),
{
    if lines.len() > 0 {
        lemma_nonblank_count_bound(lines.drop_last());
    }
}

/// The output lines of one input, read whole, in `mode`.
pub fn render_lines(mode: Mode, lines: &Vec<String>) -> (r: Vec<String>)
    ensures
        r.deep_view() == rendered(mode, lines.deep_view()),
{
    let ghost src = lines.deep_view();
    let mut numberer = LineNumberer::new(mode);
    let mut out: Vec<String> = Vec::new();
    let mut i: usize = 0;
    while i < lines.len()
        invariant
            src == lines.deep_view(),
            i <= lines.len(),
            numberer.mode == mode,
            numberer.lines_seen == i,
            numberer.nonblank_seen == nonblank_count(src.take(i as int)),
            numberer.wf(),
            out@.len() == i,
            forall|k: int|
                0 <= k < i ==> #[trigger] out@[k]@ == display_line(
                    mode,
                    k as nat,
                    nonblank_count(src.take(k)),
                    src[k],
                ),
        decreases lines.len() - i,
    {
        proof {
            lemma_nonblank_count_step(src, i as int);
            lemma_nonblank_count_bound(src.take(i as int + 1));
        }
        let s = numberer.render(lines[i].as_str());
        out.push(s);
        i = i + 1;
    }
    assert(out.deep_view() =~= rendered(mode, src));
    out
}

/// What became of one input, as a model: the lines it held, or the name
/// it was given by and why it could not be opened.
pub ghost enum InputModel {
    Lines(Seq<Seq<char>>),
    Failed(Seq<char>, Seq<char>),
}

/// What became of one input of a run.
#[derive(Debug)]
pub enum InputOutcome {
    /// It was opened and held these lines, newlines stripped.
    Opened(Vec<String>),
    /// The input of this name could not be opened, for this reason.
    OpenFailed(String, String),
}

impl DeepView for InputOutcome {
    type V = InputModel;

    open spec fn deep_view(&self) -> InputModel {
        match self {
            InputOutcome::Opened(lines) => InputModel::Lines(lines.deep_view()),
            InputOutcome::OpenFailed(name, reason) => InputModel::Failed(name@, reason@),
        }
    }
}

/// The diagnostic for an input that could not be opened.
pub open spec fn open_failure_line(name: Seq<char>, reason: Seq<char>) -> Seq<char> {
    "Failed to open "@ + name + ": "@ + reason
}

/// The standard output of a run over `inputs`: the output lines of each
/// input that opened, in order, each numbered on its own.
pub open spec fn run_stdout(mode: Mode, inputs: Seq<InputModel>) -> Seq<Seq<char>>
    decreases inputs.len(),
{
    if inputs.len() == 0 {
        Seq::empty()
    } else {
        run_stdout(mode, inputs.drop_last()) + match inputs.last() {
            InputModel::Lines(lines) => rendered(mode, lines),
            InputModel::Failed(_, _) => Seq::empty(),
        }
    }
}

/// The standard error of a run over `inputs`: one diagnostic for each input
/// that could not be opened, in order.
pub open spec fn run_stderr(inputs: Seq<InputModel>) -> Seq<Seq<char>>
    decreases inputs.len(),
{
    if inputs.len() == 0 {
        Seq::empty()
    } else {
        run_stderr(inputs.drop_last()) + match inputs.last() {
            InputModel::Lines(_) => Seq::empty(),
            InputModel::Failed(name, reason) => seq![open_failure_line(name, reason)],
        }
    }
}

/// The diagnostic to report when the input `name` could not be opened for
/// `reason`.
pub fn open_failure_message(name: &str, reason: &str) -> (r: String)
    ensures
        r@ == open_failure_line(name@, reason@),
{
    let mut r = String::from_str("Failed to open ");
    r.append(name);
    r.append(": ");
    r.append(reason);
    r
}

/// The two output streams of a run.
#[derive(Debug)]
pub struct RunOutput {
    pub stdout: Vec<String>,
    pub stderr: Vec<String>,
}

/// Runs over inputs that have been read: each one that opened adds its
/// lines, numbered afresh, to standard output; each one that could not be
/// opened adds a diagnostic to standard error and nothing else.
pub fn render_run(mode: Mode, inputs: &Vec<InputOutcome>) -> (r: RunOutput)
    ensures
        r.stdout.deep_view() == run_stdout(mode, inputs.deep_view()),
        r.stderr.deep_view() == run_stderr(inputs.deep_view()),
{
    let ghost src = inputs.deep_view();
    let mut stdout: Vec<String> = Vec::new();
    let mut stderr: Vec<String> = Vec::new();
    let mut i: usize = 0;
    while i < inputs.len()
        invariant
            src == inputs.deep_view(),
            i <= inputs.len(),
            stdout.deep_view() == run_stdout(mode, src.take(i as int)),
            stderr.deep_view() == run_stderr(src.take(i as int)),
        decreases inputs.len() - i,
    {
        assert(src.take(i as int + 1).drop_last() =~= src.take(i as int));
        match &inputs[i] {
            InputOutcome::Opened(lines) => {
                let mut part = render_lines(mode, lines);
                let ghost before = stdout.deep_view();
                let ghost added = part.deep_view();
                stdout.append(&mut part);
                assert(stdout.deep_view() =~= before + added);
                assert(stderr.deep_view() =~= run_stderr(src.take(i as int)) + Seq::empty());
            },
            InputOutcome::OpenFailed(name, reason) => {
                let message = open_failure_message(name.as_str(), reason.as_str());
                let ghost before = stderr.deep_view();
                stderr.push(message);
                assert(stderr.deep_view() =~= before + seq![open_failure_line(name@, reason@)]);
                assert(stdout.deep_view() =~= run_stdout(mode, src.take(i as int)) + Seq::empty());
            },
        }
        i = i + 1;
    }
    assert(src.take(inputs.len() as int) =~= src);
    RunOutput { stdout, stderr }
}

} // verus!
