//! The lines of the row-usage report, as text.

use vstd::prelude::*;
use vstd::string::StringExecFns;

use crate::layout::{NUM_ADVICE, NUM_FIXED};

verus! {

/// The character of the decimal digit `d`.
pub open spec fn digit(d: nat) -> char
    recommends
        d < 10,
{
    if d == 0 {
        '0'
    } else if d == 1 {
        '1'
    } else if d == 2 {
        '2'
    } else if d == 3 {
        '3'
    } else if d == 4 {
        '4'
    } else if d == 5 {
        '5'
    } else if d == 6 {
        '6'
    } else if d == 7 {
        '7'
    } else if d == 8 {
        '8'
    } else {
        '9'
    }
}

/// `n` in decimal, most significant digit first, without leading zeros.
pub open spec fn decimal(n: nat) -> Seq<char>
    decreases n,
{
    if n < 10 {
        seq![digit(n)]
    } else {
        decimal(n / 10).push(digit(n % 10))
    }
}

/// `label` followed by `n` in decimal.
pub open spec fn labelled(label: Seq<char>, n: nat) -> Seq<char> {
    label + decimal(n)
}

/// Text of the line that names the numbers of columns.
pub open spec fn columns_text(num_advice: nat, num_fixed: nat) -> Seq<char> {
    "Using "@ + decimal(num_advice) + " advice columns and "@ + decimal(num_fixed)
        + " fixed columns"@
}

/// Text of the line that gives the total of cells.
pub open spec fn total_cells_text(total: nat) -> Seq<char> {
    labelled("total cells: "@, total)
}

/// Text of the line that gives the rows of the fullest advice column.
pub open spec fn max_advice_rows_text(rows: nat) -> Seq<char> {
    labelled("maximum rows used by an advice column: "@, rows)
}

/// Text of the line that gives the rows of the fullest fixed column.
pub open spec fn max_fixed_rows_text(rows: nat) -> Seq<char> {
    labelled("maximum rows used by a fixed column: "@, rows)
}

/// The number that the decimal digit `c` stands for.
pub open spec fn digit_value(c: char) -> nat {
    if c == '1' {
        1
    } else if c == '2' {
        2
    } else if c == '3' {
        3
    } else if c == '4' {
        4
    } else if c == '5' {
        5
    } else if c == '6' {
        6
    } else if c == '7' {
        7
    } else if c == '8' {
        8
    } else if c == '9' {
        9
    } else {
        0
    }
}

/// Whether `c` is one of the ten decimal digits.
pub open spec fn is_digit(c: char) -> bool {
    c == '0' || digit_value(c) > 0
}

/// The number that a sequence of decimal digits stands for, read with the most
/// significant digit first.
pub open spec fn decimal_value(text: Seq<char>) -> nat
    decreases text.len(),
{
    if text.len() == 0 {
        0
    } else {
        decimal_value(text.drop_last()) * 10 + digit_value(text.last())
    }
}

/// `decimal(n)` is the numeral of `n`: it is made of decimal digits, stands for
/// `n`, and opens with a zero only when `n` is zero, where it is the single
/// digit `0`.
pub proof fn lemma_decimal_is_the_numeral(n: nat)
    ensures
        decimal(n).len() >= 1,
        forall|i: int| 0 <= i < decimal(n).len() ==> is_digit(#[trigger] decimal(n)[i]),
        decimal_value(decimal(n)) == n,
        decimal(n)[0] == '0' <==> n == 0,
        n == 0 ==> decimal(n) == seq!['0'],
    decreases n,
{
    if n < 10 {
        let text = decimal(n);
        assert(text.drop_last() =~= Seq::<char>::empty());
        assert(decimal_value(text.drop_last()) == 0);
        assert(text.last() == digit(n));
    } else {
        let front = decimal(n / 10);
        lemma_decimal_is_the_numeral(n / 10);
        let text = decimal(n);
        assert(text.drop_last() =~= front);
        assert(text.last() == digit(n % 10));
        assert(text[0] == front[0]);
        assert forall|i: int| 0 <= i < text.len() implies is_digit(#[trigger] text[i]) by {
            if i < front.len() {
                assert(text[i] == front[i]);
            }
        }
    }
}

/// The digit `d` as a string of one character.
fn digit_str(d: usize) -> (s: &'static str)
    requires
        d < 10,
    ensures
        s@ == seq![digit(d as nat)],
{
    proof {
        reveal_strlit("0");
        reveal_strlit("1");
        reveal_strlit("2");
        reveal_strlit("3");
        reveal_strlit("4");
        reveal_strlit("5");
        reveal_strlit("6");
        reveal_strlit("7");
        reveal_strlit("8");
        reveal_strlit("9");
    }
    let s = if d == 0 {
        "0"
    } else if d == 1 {
        "1"
    } else if d == 2 {
        "2"
    } else if d == 3 {
        "3"
    } else if d == 4 {
        "4"
    } else if d == 5 {
        "5"
    } else if d == 6 {
        "6"
    } else if d == 7 {
        "7"
    } else if d == 8 {
        "8"
    } else {
        "9"
    };
    assert(s@ =~= seq![digit(d as nat)]);
    s
}

/// Writes `n` in decimal.
pub fn decimal_string(n: usize) -> (text: String)
    ensures
        text@ == decimal(n as nat),
    decreases n,
{
    if n < 10 {
        String::from_str(digit_str(n))
    } else {
        let mut text = decimal_string(n / 10);
        text.append(digit_str(n % 10));
        assert(text@ =~= decimal(n as nat));
        text
    }
}

/// `label` followed by `n` in decimal.
fn labelled_line(label: &str, n: usize) -> (line: String)
    ensures
        line@ == labelled(label@, n as nat),
{
    let mut line = String::from_str(label);
    let number = decimal_string(n);
    line.append(number.as_str());
    line
}

/// The line that names the numbers of advice and fixed columns of the layout.
pub fn columns_line() -> (line: String)
    ensures
        line@ == columns_text(NUM_ADVICE as nat, NUM_FIXED as nat),
{
    let mut line = String::from_str("Using ");
    let advice = decimal_string(NUM_ADVICE);
    line.append(advice.as_str());
    line.append(" advice columns and ");
    let fixed = decimal_string(NUM_FIXED);
    line.append(fixed.as_str());
    line.append(" fixed columns");
    line
}

/// The line that gives the total of cells.
pub fn total_cells_line(total: usize) -> (line: String)
    ensures
        line@ == total_cells_text(total as nat),
{
    labelled_line("total cells: ", total)
}

/// The line that gives the rows of the fullest advice column.
pub fn max_advice_rows_line(rows: usize) -> (line: String)
    ensures
        line@ == max_advice_rows_text(rows as nat),
{
    labelled_line("maximum rows used by an advice column: ", rows)
}

/// The line that gives the rows of the fullest fixed column.
pub fn max_fixed_rows_line(rows: usize) -> (line: String)
    ensures
        line@ == max_fixed_rows_text(rows as nat),
{
    labelled_line("maximum rows used by a fixed column: ", rows)
}

} // verus!
