use crate::text::push_char;
use vstd::prelude::*;
use vstd::string::*;

verus! {

/// `text` with each occurrence of `from` replaced by `to`. Occurrences are
/// taken from the left and do not overlap. An empty `from` occurs nowhere.
pub open spec fn replaced(text: Seq<char>, from: Seq<char>, to: Seq<char>) -> Seq<char>
    decreases text.len(),
{
    if from.len() == 0 || text.len() < from.len() {
        text
    } else if text.take(from.len() as int) == from {
        to + replaced(text.skip(from.len() as int), from, to)
    } else {
        seq![text[0]] + replaced(text.skip(1), from, to)
    }
}

/// The characters of a text.
pub fn chars_of(text: &str) -> (r: Vec<char>)
    ensures
        r@ == text@,
{
    let mut out: Vec<char> = Vec::new();
    proof {
        broadcast use vstd::string::group_string_axioms;

    }
    for c in it: text.chars()
        invariant
            it.seq() == text@,
            out@ == text@.take(it.index()),
    {
        proof {
            assert(text@.take(it.index() + 1) == text@.take(it.index()).push(c));
        }
        out.push(c);
    }
    proof {
        assert(text@.take(text@.len() as int) == text@);
    }
    out
}

/// Whether `from` stands in `text` at the index `at`.
fn stands_at(text: &Vec<char>, from: &Vec<char>, at: usize) -> (r: bool)
    requires
        at + from.len() <= text.len(),
    ensures
        r == (text@.skip(at as int).take(from.len() as int) == from@),
{
    let mut k: usize = 0;
    while k < from.len()
        invariant
            k <= from.len(),
            at + from.len() <= text.len(),
            forall|m: int| 0 <= m < k ==> text@[at + m] == from@[m],
        decreases from.len() - k,
    {
        if text[at + k] != from[k] {
            assert(text@.skip(at as int).take(from.len() as int)[k as int] != from@[k as int]);
            return false;
        }
        k += 1;
    }
    assert(text@.skip(at as int).take(from.len() as int) =~= from@);
    true
}

/// Replaces each occurrence of `from` in `text` by `to`.
pub fn replace_text(text: &str, from: &str, to: &str) -> (r: String)
    ensures
        r@ == replaced(text@, from@, to@),
{
    let source = chars_of(text);
    let pattern = chars_of(from);
    let mut out = String::new();
    if pattern.len() == 0 {
        out.append(text);
        return out;
    }
    let mut i: usize = 0;
    proof {
        assert(text@.skip(0) == text@);
        assert(out@ + replaced(text@, from@, to@) == replaced(text@, from@, to@));
    }
    while i < source.len()
        invariant
            i <= source.len(),
            source@ == text@,
            pattern@ == from@,
            pattern.len() > 0,
            out@ + replaced(text@.skip(i as int), from@, to@) == replaced(text@, from@, to@),
        decreases source.len() - i,
    {
        let ghost rest = text@.skip(i as int);
        if pattern.len() <= source.len() - i && stands_at(&source, &pattern, i) {
            proof {
                assert(rest.skip(pattern.len() as int) == text@.skip(i + pattern.len()));
                assert((out@ + to@) + replaced(text@.skip(i + pattern.len()), from@, to@) == out@
                    + (to@ + replaced(text@.skip(i + pattern.len()), from@, to@)));
            }
            out.append(to);
            i += pattern.len();
        } else {
            proof {
                assert(rest.skip(1) == text@.skip(i + 1));
                assert(rest[0] == source@[i as int]);
                assert(rest == seq![rest[0]] + rest.skip(1));
                assert(out@.push(source@[i as int]) + replaced(text@.skip(i + 1), from@, to@)
                    == out@ + (seq![rest[0]] + replaced(text@.skip(i + 1), from@, to@)));
            }
            push_char(&mut out, source[i]);
            i += 1;
        }
    }
    proof {
        assert(text@.skip(source.len() as int).len() == 0);
        assert(out@ + Seq::<char>::empty() == out@);
    }
    out
}

/// A digit of the decimal system.
pub open spec fn decimal_digit(d: int) -> char {
    if d == 0 {
        '0'
    } else if d == 1 {
        '1'
    } else if d == 2 {
        '2'
    } else if d == 3 {
        '3'
    } else if d == 4 {
        '4'
    } else if d == 5 {
        '5'
    } else if d == 6 {
        '6'
    } else if d == 7 {
        '7'
    } else if d == 8 {
        '8'
    } else {
        '9'
    }
}

/// A natural number in decimal digits, without leading zeros.
pub open spec fn decimal_digits(n: nat) -> Seq<char>
    decreases n,
{
    if n < 10 {
        seq![decimal_digit(n as int)]
    } else {
        decimal_digits(n / 10).push(decimal_digit((n % 10) as int))
    }
}

/// An integer in decimal digits, with a minus sign where it is negative.
pub open spec fn decimal(n: int) -> Seq<char> {
    if n < 0 {
        seq!['-'] + decimal_digits((-n) as nat)
    } else {
        decimal_digits(n as nat)
    }
}

fn decimal_digit_of(d: u128) -> (r: char)
    requires
        d < 10,
    ensures
        r == decimal_digit(d as int),
{
    if d == 0 {
        '0'
    } else if d == 1 {
        '1'
    } else if d == 2 {
        '2'
    } else if d == 3 {
        '3'
    } else if d == 4 {
        '4'
    } else if d == 5 {
        '5'
    } else if d == 6 {
        '6'
    } else if d == 7 {
        '7'
    } else if d == 8 {
        '8'
    } else {
        '9'
    }
}

/// Appends a natural number in decimal digits to a string.
pub fn push_decimal_digits(out: &mut String, n: u128)
    ensures
        final(out)@ == old(out)@ + decimal_digits(n as nat),
    decreases n,
{
    if n >= 10 {
        push_decimal_digits(out, n / 10);
    }
    push_char(out, decimal_digit_of(n % 10));
}

/// An integer written in decimal digits.
pub fn decimal_string(n: i128) -> (r: String)
    ensures
        r@ == decimal(n as int),
{
    let mut out = String::new();
    if n < 0 {
        push_char(&mut out, '-');
        let magnitude: u128 = ((-(n + 1)) as u128) + 1;
        push_decimal_digits(&mut out, magnitude);
    } else {
        push_decimal_digits(&mut out, n as u128);
    }
    out
}

} // verus!
