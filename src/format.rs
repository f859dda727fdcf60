//! Rendering of line numbers: decimal digits, right-aligned in a field of
//! fixed width, followed by a tab and the line's content.

use vstd::prelude::*;
use vstd::string::*;

verus! {

/// Width of the field that a line number is right-aligned in.
pub const NUMBER_WIDTH: usize = 6;

/// The character of a decimal digit.
pub open spec fn digit_char(d: nat) -> char {
    if d == 0 {
        '0'
    } else if d == 1 {
        '1'
    } else if d == 2 {
        '2'
    } else if d == 3 {
        '3'
    } else if d == 4 {
        '4'
    } else if d == 5 {
        '5'
    } else if d == 6 {
        '6'
    } else if d == 7 {
        '7'
    } else if d == 8 {
        '8'
    } else {
        '9'
    }
}

/// The decimal representation of `n`, most significant digit first, with no
/// leading zeros.
pub open spec fn decimal(n: nat) -> Seq<char>
    decreases n,
{
    if n < 10 {
        seq![digit_char(n)]
    } else {
        decimal(n / 10).push(digit_char(n % 10))
    }
}

/// `s` preceded by enough spaces to make it `width` characters long; `s`
/// itself when it is already that long or longer.
pub open spec fn pad_left(s: Seq<char>, width: nat) -> Seq<char> {
    if s.len() >= width {
        s
    } else {
        Seq::new((width - s.len()) as nat, |_i: int| ' ') + s
    }
}

/// A numbered line: the number right-aligned to the field width, a tab, and
/// the content.
pub open spec fn numbered_line(k: nat, line: Seq<char>) -> Seq<char> {
    pad_left(decimal(k), NUMBER_WIDTH as nat) + seq!['\t'] + line
}

fn digit_str(d: u64) -> (r: &'static str)
    requires
        d < 10,
    ensures
        r@ == seq![digit_char(d as nat)],
{
    if d == 0 {
        proof { reveal_strlit("0"); }
        "0"
    } else if d == 1 {
        proof { reveal_strlit("1"); }
        "1"
    } else if d == 2 {
        proof { reveal_strlit("2"); }
        "2"
    } else if d == 3 {
        proof { reveal_strlit("3"); }
        "3"
    } else if d == 4 {
        proof { reveal_strlit("4"); }
        "4"
    } else if d == 5 {
        proof { reveal_strlit("5"); }
        "5"
    } else if d == 6 {
        proof { reveal_strlit("6"); }
        "6"
    } else if d == 7 {
        proof { reveal_strlit("7"); }
        "7"
    } else if d == 8 {
        proof { reveal_strlit("8"); }
        "8"
    } else {
        proof { reveal_strlit("9"); }
        "9"
    }
}

/// The decimal digits of `n`.
pub fn decimal_string(n: u64) -> (r: String)
    ensures
        r@ == decimal(n as nat),
    decreases n,
{
    if n < 10 {
        String::from_str(digit_str(n))
    } else {
        let mut s = decimal_string(n / 10);
        s.append(digit_str(n % 10));
        s
    }
}

/// The decimal digits of `n`, right-aligned in a field of the number width.
pub fn pad_number(n: u64) -> (r: String)
    ensures
        r@ == pad_left(decimal(n as nat), NUMBER_WIDTH as nat),
{
    let digits = decimal_string(n);
    let len = digits.as_str().unicode_len();
    let mut r = String::new();
    let mut i: usize = len;
    while i < NUMBER_WIDTH
        invariant
            len == decimal(n as nat).len(),
            len <= i,
            len < NUMBER_WIDTH ==> i <= NUMBER_WIDTH,
            len >= NUMBER_WIDTH ==> i == len,
            r@ =~= Seq::new((i - len) as nat, |_j: int| ' '),
        decreases NUMBER_WIDTH - i,
    {
        proof { reveal_strlit(" "); }
        r.append(" ");
        i = i + 1;
    }
    let ghost spaces = r@;
    r.append(digits.as_str());
    proof {
        let d = decimal(n as nat);
        if d.len() >= NUMBER_WIDTH {
            assert(spaces =~= Seq::<char>::empty());
            assert(r@ =~= d);
        } else {
            assert(i == NUMBER_WIDTH);
            assert(spaces =~= Seq::new((NUMBER_WIDTH - d.len()) as nat, |_j: int| ' '));
        }
    }
    r
}

/// `line` with the number `k` in front of it: the number right-aligned to
/// the field width, then a tab, then the line.
pub fn format_numbered(k: u64, line: &str) -> (r: String)
    ensures
        r@ == numbered_line(k as nat, line@),
{
    let mut r = pad_number(k);
    proof { reveal_strlit("\t"); }
    r.append("\t");
    r.append(line);
    r
}

} // verus!
