//! How a scan's results are written out: the console row and the file
//! that a scan's records go to.

use vstd::prelude::*;
use crate::numbers::{decimal_text, push_decimal};
use crate::text::{chars_of, string_from_chars};

verus! {

/// `n` spaces.
pub open spec fn spaces(n: nat) -> Seq<char> {
    Seq::new(n, |i: int| ' ')
}

/// How many fill characters bring `len` characters up to `width`.
pub open spec fn fill(len: nat, width: nat) -> nat {
    if len < width {
        (width - len) as nat
    } else {
        0
    }
}

/// `s` followed by spaces up to `width` characters, as `{:<width}` does.
pub open spec fn pad_right(s: Seq<char>, width: nat) -> Seq<char> {
    s + spaces(fill(s.len(), width))
}

/// `s` preceded by spaces up to `width` characters, as `{:>width}` does.
pub open spec fn pad_left(s: Seq<char>, width: nat) -> Seq<char> {
    spaces(fill(s.len(), width)) + s
}

/// The separator between the columns of a row.
pub open spec fn column_sep() -> Seq<char> {
    seq![' ', '|', ' ']
}

/// The console row of one result: the ticker left-aligned in eight
/// columns, the action left-aligned in six, the score right-aligned in
/// three, then the explanation, separated by `" | "`.
pub open spec fn row_text(ticker: Seq<char>, action: Seq<char>, score: u8, explanation: Seq<char>) -> Seq<char> {
    pad_right(ticker, 8) + column_sep() + pad_right(action, 6) + column_sep()
        + pad_left(decimal_text(score as nat), 3) + column_sep() + explanation
}

/// The larger of two lengths.
pub open spec fn at_least(len: nat, width: nat) -> nat {
    if len < width {
        width
    } else {
        len
    }
}

/// A score is written in at most three digits.
pub proof fn lemma_score_digits(score: u8)
    ensures
        1 <= decimal_text(score as nat).len() <= 3,
{
    let n = score as nat;
    if n >= 10 {
        if n / 10 >= 10 {
            assert(n / 10 / 10 < 10);
            assert(decimal_text(n / 10 / 10).len() == 1);
        }
        assert(decimal_text(n / 10).len() <= 2);
    }
}

/// The layout of a row, by its parts: the ticker first, the explanation
/// last and whole, and in between a fixed width for the padded columns
/// and the separators; so adding to the explanation adds exactly that to
/// the end of the row, and leaves the rest as it was.
pub proof fn lemma_row_layout(ticker: Seq<char>, action: Seq<char>, score: u8, explanation: Seq<char>)
    ensures
        row_text(ticker, action, score, explanation).len()
            == at_least(ticker.len(), 8) + at_least(action.len(), 6) + 12 + explanation.len(),
        row_text(ticker, action, score, explanation).take(ticker.len() as int) == ticker,
        row_text(ticker, action, score, explanation).skip(
            row_text(ticker, action, score, explanation).len() - explanation.len(),
        ) == explanation,
        row_text(ticker, action, score, explanation)
            == row_text(ticker, action, score, Seq::empty()) + explanation,
{
    lemma_score_digits(score);
    let r = row_text(ticker, action, score, explanation);
    let head = pad_right(ticker, 8) + column_sep() + pad_right(action, 6) + column_sep()
        + pad_left(decimal_text(score as nat), 3) + column_sep();
    assert(r =~= head + explanation);
    assert(row_text(ticker, action, score, Seq::empty()) =~= head);
    assert(r.take(ticker.len() as int) =~= ticker);
    assert(r.skip(r.len() - explanation.len()) =~= explanation);
}

fn push_spaces(out: &mut Vec<char>, n: usize)
    ensures
        final(out)@ == old(out)@ + spaces(n as nat),
{
    let mut i: usize = 0;
    while i < n
        invariant
            i <= n,
            out@ =~= old(out)@ + spaces(i as nat),
        decreases n - i,
    {
        out.push(' ');
        i = i + 1;
    }
}

pub(crate) fn push_chars(out: &mut Vec<char>, s: &Vec<char>)
    ensures
        final(out)@ == old(out)@ + s@,
{
    let mut i: usize = 0;
    while i < s.len()
        invariant
            i <= s.len(),
            out@ =~= old(out)@ + s@.take(i as int),
        decreases s.len() - i,
    {
        out.push(s[i]);
        i = i + 1;
    }
    assert(s@.take(s.len() as int) =~= s@);
}

fn push_sep(out: &mut Vec<char>)
    ensures
        final(out)@ == old(out)@ + column_sep(),
{
    out.push(' ');
    out.push('|');
    out.push(' ');
    assert(out@ =~= old(out)@ + column_sep());
}

/// The console row for one result, as `"{:<8} | {:<6} | {:>3} | {}"`
/// formats it.
pub fn format_row(ticker: &str, action: &str, score: u8, explanation: &str) -> (r: String)
    ensures
        r@ == row_text(ticker@, action@, score, explanation@),
        r@.len() == at_least(ticker@.len(), 8) + at_least(action@.len(), 6) + 12 + explanation@.len(),
        r@.take(ticker@.len() as int) == ticker@,
        r@.skip(r@.len() - explanation@.len()) == explanation@,
{
    proof {
        lemma_row_layout(ticker@, action@, score, explanation@);
    }
    let t = chars_of(ticker);
    let a = chars_of(action);
    let e = chars_of(explanation);
    let mut digits: Vec<char> = Vec::new();
    push_decimal(score as u64, &mut digits);
    assert(digits@ =~= decimal_text(score as nat));
    let mut out: Vec<char> = Vec::new();
    push_chars(&mut out, &t);
    if t.len() < 8 {
        push_spaces(&mut out, 8 - t.len());
    } else {
        push_spaces(&mut out, 0);
    }
    push_sep(&mut out);
    push_chars(&mut out, &a);
    if a.len() < 6 {
        push_spaces(&mut out, 6 - a.len());
    } else {
        push_spaces(&mut out, 0);
    }
    push_sep(&mut out);
    if digits.len() < 3 {
        push_spaces(&mut out, 3 - digits.len());
    } else {
        push_spaces(&mut out, 0);
    }
    push_chars(&mut out, &digits);
    push_sep(&mut out);
    push_chars(&mut out, &e);
    assert(out@ =~= row_text(ticker@, action@, score, explanation@));
    string_from_chars(out)
}

/// The path of a scan's record file: `scan_<stamp>.jsonl` in `output_dir`.
pub open spec fn scan_file_text(output_dir: Seq<char>, stamp: Seq<char>) -> Seq<char> {
    output_dir + "/scan_"@ + stamp + ".jsonl"@
}

/// The path of the record file for the scan stamped `stamp`.
pub fn scan_file_path(output_dir: &str, stamp: &str) -> (r: String)
    ensures
        r@ == scan_file_text(output_dir@, stamp@),
{
    let mut out: Vec<char> = chars_of(output_dir);
    push_chars(&mut out, &chars_of("/scan_"));
    push_chars(&mut out, &chars_of(stamp));
    push_chars(&mut out, &chars_of(".jsonl"));
    string_from_chars(out)
}

} // verus!
