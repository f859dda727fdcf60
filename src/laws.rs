//! Properties of the emitter that hold for every input, proved over the
//! models that the executable functions' contracts use.

use vstd::prelude::*;

use crate::config::Mode;
use crate::emit::{
    display_line, nonblank_count, open_failure_line, rendered, run_stderr, run_stdout, InputModel,
};
use crate::format::numbered_line;

verus! {

/// The lines of the inputs that opened, one input after another.
pub open spec fn opened_lines(inputs: Seq<InputModel>) -> Seq<Seq<char>>
    decreases inputs.len(),
{
    if inputs.len() == 0 {
        Seq::empty()
    } else {
        opened_lines(inputs.drop_last()) + match inputs.last() {
            InputModel::Lines(lines) => lines,
            InputModel::Failed(_, _) => Seq::empty(),
        }
    }
}

/// In plain mode one input's lines come out as they went in.
pub proof fn lemma_plain_input_verbatim(lines: Seq<Seq<char>>)
    ensures
        rendered(Mode::Plain, lines) == lines,
{
    assert(rendered(Mode::Plain, lines) =~= lines);
}

/// In plain mode the output of a run is the lines of its inputs, verbatim
/// and in order.
pub proof fn lemma_plain_run_verbatim(inputs: Seq<InputModel>)
    ensures
        run_stdout(Mode::Plain, inputs) == opened_lines(inputs),
    decreases inputs.len(),
{
    if inputs.len() > 0 {
        lemma_plain_run_verbatim(inputs.drop_last());
        if let InputModel::Lines(lines) = inputs.last() {
            lemma_plain_input_verbatim(lines);
        }
    }
}

/// In number-all mode the output has one line for each input line, and
/// line `k` (counted from 0) is that line with the number `k + 1` in front.
pub proof fn lemma_number_all(lines: Seq<Seq<char>>, k: int)
    requires
        0 <= k < lines.len(),
    ensures
        rendered(Mode::NumberAll, lines).len() == lines.len(),
        rendered(Mode::NumberAll, lines)[k] == numbered_line((k + 1) as nat, lines[k]),
{
}

/// In number-non-blank mode the output has one line for each input line; a
/// blank line comes out empty and takes no number; a non-blank line comes
/// out with the number of non-blank lines up to and including it, and so
/// the non-blank lines are numbered 1, 2, 3, ... in order.
pub proof fn lemma_number_nonblank(lines: Seq<Seq<char>>, k: int)
    requires
        0 <= k < lines.len(),
    ensures
        rendered(Mode::NumberNonBlank, lines).len() == lines.len(),
        lines[k].len() == 0 ==> rendered(Mode::NumberNonBlank, lines)[k] == Seq::<char>::empty(),
        lines[k].len() == 0 ==> nonblank_count(lines.take(k + 1)) == nonblank_count(
            lines.take(k),
        ),
        lines[k].len() > 0 ==> rendered(Mode::NumberNonBlank, lines)[k] == numbered_line(
            nonblank_count(lines.take(k + 1)),
            lines[k],
        ),
        lines[k].len() > 0 ==> nonblank_count(lines.take(k + 1)) == nonblank_count(lines.take(k))
            + 1,
{
    assert(lines.take(k + 1).drop_last() =~= lines.take(k));
}

/// The output of a run over two lists of inputs, one after the other, is
/// the output over the first followed by the output over the second: no
/// input's numbering depends on the inputs before it.
pub proof fn lemma_run_concat(mode: Mode, first: Seq<InputModel>, second: Seq<InputModel>)
    ensures
        run_stdout(mode, first + second) == run_stdout(mode, first) + run_stdout(mode, second),
        run_stderr(first + second) == run_stderr(first) + run_stderr(second),
    decreases second.len(),
{
    if second.len() == 0 {
        assert(first + second =~= first);
        assert(run_stdout(mode, first) + run_stdout(mode, second) =~= run_stdout(mode, first));
        assert(run_stderr(first) + run_stderr(second) =~= run_stderr(first));
    } else {
        let all = first + second;
        assert(all.drop_last() =~= first + second.drop_last());
        assert(all.last() == second.last());
        lemma_run_concat(mode, first, second.drop_last());
        let tail_out = match second.last() {
            InputModel::Lines(lines) => rendered(mode, lines),
            InputModel::Failed(_, _) => Seq::empty(),
        };
        let tail_err = match second.last() {
            InputModel::Lines(_) => Seq::empty(),
            InputModel::Failed(name, reason) => seq![open_failure_line(name, reason)],
        };
        assert(run_stdout(mode, first) + run_stdout(mode, second.drop_last()) + tail_out
            =~= run_stdout(mode, first) + (run_stdout(mode, second.drop_last()) + tail_out));
        assert(run_stderr(first) + run_stderr(second.drop_last()) + tail_err =~= run_stderr(first)
            + (run_stderr(second.drop_last()) + tail_err));
    }
}

/// A run over a single input that opened shows that input's lines as
/// rendered on their own.
pub proof fn lemma_single_input(mode: Mode, lines: Seq<Seq<char>>)
    ensures
        run_stdout(mode, seq![InputModel::Lines(lines)]) == rendered(mode, lines),
        run_stderr(seq![InputModel::Lines(lines)]) == Seq::<Seq<char>>::empty(),
{
    reveal_with_fuel(run_stdout, 2);
    reveal_with_fuel(run_stderr, 2);
    let one = seq![InputModel::Lines(lines)];
    assert(one.drop_last() =~= Seq::<InputModel>::empty());
    assert(Seq::<Seq<char>>::empty() + rendered(mode, lines) =~= rendered(mode, lines));
    assert(Seq::<Seq<char>>::empty() + Seq::<Seq<char>>::empty() =~= Seq::<Seq<char>>::empty());
}

/// Running plain mode over the output of a plain-mode run gives that output
/// again.
pub proof fn lemma_plain_idempotent(inputs: Seq<InputModel>)
    ensures
        run_stdout(Mode::Plain, seq![InputModel::Lines(run_stdout(Mode::Plain, inputs))])
            == run_stdout(Mode::Plain, inputs),
{
    let out = run_stdout(Mode::Plain, inputs);
    lemma_single_input(Mode::Plain, out);
    lemma_plain_input_verbatim(out);
}

/// With two inputs, the second one's lines are numbered from 1 again, just
/// as if it were the only input, however many lines the first one had.
pub proof fn lemma_counters_reset(mode: Mode, first: Seq<Seq<char>>, second: Seq<Seq<char>>)
    ensures
        run_stdout(mode, seq![InputModel::Lines(first), InputModel::Lines(second)])
            == rendered(mode, first) + rendered(mode, second),
        run_stdout(mode, seq![InputModel::Lines(first), InputModel::Lines(second)]).subrange(
            first.len() as int,
            (first.len() + second.len()) as int,
        ) == run_stdout(mode, seq![InputModel::Lines(second)]),
{
    let a = seq![InputModel::Lines(first)];
    let b = seq![InputModel::Lines(second)];
    assert(a + b =~= seq![InputModel::Lines(first), InputModel::Lines(second)]);
    lemma_run_concat(mode, a, b);
    lemma_single_input(mode, first);
    lemma_single_input(mode, second);
    let all = rendered(mode, first) + rendered(mode, second);
    assert(all.subrange(first.len() as int, (first.len() + second.len()) as int) =~= rendered(
        mode,
        second,
    ));
}

/// An input that cannot be opened before one that can: the output holds
/// exactly the lines of the second, numbered as if it were alone, and the
/// error stream holds one diagnostic, naming the first.
pub proof fn lemma_error_isolation(
    mode: Mode,
    name: Seq<char>,
    reason: Seq<char>,
    lines: Seq<Seq<char>>,
)
    ensures
        run_stdout(mode, seq![InputModel::Failed(name, reason), InputModel::Lines(lines)])
            == rendered(mode, lines),
        rendered(mode, lines).len() == lines.len(),
        run_stderr(seq![InputModel::Failed(name, reason), InputModel::Lines(lines)]) == seq![
            open_failure_line(name, reason),
        ],
{
    reveal_with_fuel(run_stdout, 3);
    reveal_with_fuel(run_stderr, 3);
    let two = seq![InputModel::Failed(name, reason), InputModel::Lines(lines)];
    let one = seq![InputModel::Failed(name, reason)];
    assert(two.drop_last() =~= one);
    assert(one.drop_last() =~= Seq::<InputModel>::empty());
    assert(Seq::<Seq<char>>::empty() + Seq::<Seq<char>>::empty() =~= Seq::<Seq<char>>::empty());
    assert(Seq::<Seq<char>>::empty() + rendered(mode, lines) =~= rendered(mode, lines));
    assert(Seq::<Seq<char>>::empty() + seq![open_failure_line(name, reason)] =~= seq![
        open_failure_line(name, reason),
    ]);
    assert(seq![open_failure_line(name, reason)] + Seq::<Seq<char>>::empty() =~= seq![
        open_failure_line(name, reason),
    ]);
}

} // verus!
