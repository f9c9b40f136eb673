//! The text under which a job's stored fields go into an `INSERT` statement.

use vstd::prelude::*;
use vstd::string::StringExecFns;

verus! {

/// The character that stands for one decimal digit.
pub open spec fn digit_char(d: nat) -> char
    recommends
        d < 10,
{
    if d == 0 {
        '0'
    } else if d == 1 {
        '1'
    } else if d == 2 {
        '2'
    } else if d == 3 {
        '3'
    } else if d == 4 {
        '4'
    } else if d == 5 {
        '5'
    } else if d == 6 {
        '6'
    } else if d == 7 {
        '7'
    } else if d == 8 {
        '8'
    } else {
        '9'
    }
}

/// A natural number written in base ten, most significant digit first,
/// without leading zeros (zero itself is `0`).
pub open spec fn decimal_digits(n: nat) -> Seq<char>
    decreases n,
{
    if n < 10 {
        seq![digit_char(n)]
    } else {
        decimal_digits(n / 10).push(digit_char(n % 10))
    }
}

/// A truth value as the words `true` and `false`.
pub open spec fn truth_word(b: bool) -> Seq<char> {
    if b {
        seq!['t', 'r', 'u', 'e']
    } else {
        seq!['f', 'a', 'l', 's', 'e']
    }
}

/// The value list of one job: the payload between single quotes, the
/// difficulty in base ten and the persistence flag as a word, separated by
/// commas and enclosed in round brackets. The payload is taken as it is:
/// a quote inside it is not escaped.
pub open spec fn insert_values(load: Seq<char>, difficulty: u8, persistant: bool) -> Seq<char> {
    seq!['(', '\''] + load + seq!['\'', ','] + decimal_digits(difficulty as nat) + seq![',']
        + truth_word(persistant) + seq![')']
}

/// One decimal digit as text.
fn digit_text(d: u8) -> (text: &'static str)
    requires
        d < 10,
    ensures
        text@ == seq![digit_char(d as nat)],
{
    proof {
        reveal_strlit("0");
        reveal_strlit("1");
        reveal_strlit("2");
        reveal_strlit("3");
        reveal_strlit("4");
        reveal_strlit("5");
        reveal_strlit("6");
        reveal_strlit("7");
        reveal_strlit("8");
        reveal_strlit("9");
    }
    let text = match d {
        0 => "0",
        1 => "1",
        2 => "2",
        3 => "3",
        4 => "4",
        5 => "5",
        6 => "6",
        7 => "7",
        8 => "8",
        _ => "9",
    };
    assert(text@ =~= seq![digit_char(d as nat)]);
    text
}

/// Writes a byte in base ten.
pub fn decimal_text(n: u8) -> (text: String)
    ensures
        text@ == decimal_digits(n as nat),
{
    let mut text = String::new();
    if n >= 100 {
        text.append(digit_text(n / 100));
    }
    if n >= 10 {
        text.append(digit_text((n / 10) % 10));
    }
    text.append(digit_text(n % 10));
    proof {
        reveal_with_fuel(decimal_digits, 3);
        assert(text@ =~= decimal_digits(n as nat));
    }
    text
}

/// Writes a truth value as a word.
pub fn truth_text(b: bool) -> (text: &'static str)
    ensures
        text@ == truth_word(b),
{
    proof {
        reveal_strlit("true");
        reveal_strlit("false");
    }
    let text = if b {
        "true"
    } else {
        "false"
    };
    assert(text@ =~= truth_word(b));
    text
}

/// Writes the value list of one job.
pub fn insert_values_text(load: &str, difficulty: u8, persistant: bool) -> (text: String)
    ensures
        text@ == insert_values(load@, difficulty, persistant),
{
    proof {
        reveal_strlit("('");
        reveal_strlit("',");
        reveal_strlit(",");
        reveal_strlit(")");
    }
    let digits = decimal_text(difficulty);
    let mut text = String::new();
    text.append("('");
    text.append(load);
    text.append("',");
    text.append(digits.as_str());
    text.append(",");
    text.append(truth_text(persistant));
    text.append(")");
    assert(text@ =~= insert_values(load@, difficulty, persistant));
    text
}

} // verus!
