use vstd::prelude::*;
use vstd::string::*;

verus! {

/// The value of one digit, `0` to `9` and then `a` to `f` in either case,
/// where it is below the radix: `None` for any other character.
pub open spec fn digit_value(c: char, radix: int) -> Option<int> {
    let u = c as u32 as int;
    let v = if 0x30 <= u <= 0x39 {
        u - 0x30
    } else if 0x41 <= u <= 0x46 {
        u - 0x41 + 10
    } else if 0x61 <= u <= 0x66 {
        u - 0x61 + 10
    } else {
        radix
    };
    if v < radix {
        Some(v)
    } else {
        None
    }
}

/// The number that a sequence of digits writes, most significant digit
/// first: `None` where a character is no digit of the radix.
pub open spec fn digits_value(digits: Seq<char>, radix: int) -> Option<int>
    decreases digits.len(),
{
    if digits.len() == 0 {
        Some(0)
    } else {
        match (digits_value(digits.drop_last(), radix), digit_value(digits.last(), radix)) {
            (Some(high), Some(low)) => Some(high * radix + low),
            _ => None,
        }
    }
}

/// The number that a non-empty sequence of digits writes, where it is at most
/// `max`.
pub open spec fn number_value(digits: Seq<char>, radix: int, max: int) -> Option<int> {
    match digits_value(digits, radix) {
        Some(v) if digits.len() > 0 && v <= max => Some(v),
        _ => None,
    }
}

/// Each prefix of a sequence of digits writes a number, and a number no
/// larger than the whole.
pub proof fn lemma_prefix_value(digits: Seq<char>, radix: int, k: int)
    requires
        0 <= radix,
        0 <= k <= digits.len(),
        digits_value(digits, radix) is Some,
    ensures
        digits_value(digits.take(k), radix) is Some,
        0 <= digits_value(digits.take(k), radix)->Some_0 <= digits_value(digits, radix)->Some_0,
    decreases digits.len(),
{
    if digits.len() == 0 {
        assert(digits.take(k) == digits);
    } else {
        let shorter = digits.drop_last();
        let at = if k == digits.len() {
            k - 1
        } else {
            k
        };
        lemma_prefix_value(shorter, radix, at);
        lemma_prefix_value(shorter, radix, shorter.len() as int);
        assert(shorter.take(shorter.len() as int) == shorter);
        let high = digits_value(shorter, radix)->Some_0;
        let low = digit_value(digits.last(), radix)->Some_0;
        assert(high * radix + low >= high) by (nonlinear_arith)
            requires
                high >= 0,
                low >= 0,
                radix >= 1,
        ;
        if k == digits.len() {
            assert(digits.take(k) == digits);
        } else {
            assert(shorter.take(k) == digits.take(k));
        }
    }
}

/// The value of one digit, as `digit_value` defines it.
pub fn digit_of(c: char, radix: u64) -> (r: Option<u64>)
    ensures
        r matches Some(v) ==> digit_value(c, radix as int) == Some(v as int),
        r is None ==> digit_value(c, radix as int) is None,
{
    let u: u32 = c as u32;
    let v: u64 = if 0x30 <= u && u <= 0x39 {
        (u - 0x30) as u64
    } else if 0x41 <= u && u <= 0x46 {
        (u - 0x41 + 10) as u64
    } else if 0x61 <= u && u <= 0x66 {
        (u - 0x61 + 10) as u64
    } else {
        radix
    };
    if v < radix {
        Some(v)
    } else {
        None
    }
}

/// Reads a number written in digits of the radix: `None` for an empty text,
/// for a text with any other character, and for a number above `max`.
pub fn parse_number(text: &str, radix: u64, max: u64) -> (r: Option<u64>)
    ensures
        r matches Some(v) ==> number_value(text@, radix as int, max as int) == Some(v as int),
        r is None ==> number_value(text@, radix as int, max as int) is None,
{
    let mut acc: u64 = 0;
    let mut any = false;
    proof {
        broadcast use vstd::string::group_string_axioms;

    }
    for c in it: text.chars()
        invariant
            it.seq() == text@,
            any == (it.index() > 0),
            digits_value(text@.take(it.index()), radix as int) == Some(acc as int),
            acc <= max,
    {
        let ghost i = it.index();
        proof {
            assert(text@.take(i + 1).drop_last() == text@.take(i));
        }
        match digit_of(c, radix) {
            None => {
                proof {
                    if digits_value(text@, radix as int) is Some {
                        lemma_prefix_value(text@, radix as int, i + 1);
                    }
                }
                return None;
            },
            Some(d) => {
                if d > max || acc > (max - d) / radix {
                    proof {
                        assert(acc * radix + d > max) by (nonlinear_arith)
                            requires
                                d > max || acc > (max - d) / (radix as int),
                                radix >= 1,
                                acc >= 0,
                                d >= 0,
                        ;
                        if digits_value(text@, radix as int) is Some {
                            lemma_prefix_value(text@, radix as int, i + 1);
                        }
                    }
                    return None;
                }
                proof {
                    assert(acc * radix + d <= max) by (nonlinear_arith)
                        requires
                            d <= max,
                            acc <= (max - d) / (radix as int),
                            radix >= 1,
                            acc >= 0,
                    ;
                }
                acc = acc * radix + d;
                any = true;
            },
        }
    }
    proof {
        assert(text@.take(text@.len() as int) == text@);
    }
    if !any {
        None
    } else {
        Some(acc)
    }
}

} // verus!
