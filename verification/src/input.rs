//! Guess parsing: turning a line of player input into a number within the
//! session's bounds, or one of the two recoverable input errors. Reading the
//! raw line from the terminal is the driver's job; the rules for accepting
//! or rejecting it live here.
use vstd::prelude::*;
use vstd::string::StrSliceExecFns;

verus! {

/// The two recoverable input failures: the text is not a number at all, or
/// it is a number outside the session's bounds. Neither consumes an attempt.
#[derive(Clone, Copy, Debug, PartialEq, Eq, Structural)]
pub enum InputError {
    ParseError,
    RangeError,
}

pub open spec fn is_digit(c: char) -> bool {
    '0' as int <= c as int <= '9' as int
}

pub open spec fn digit_value(c: char) -> int {
    c as int - '0' as int
}

pub open spec fn all_digits(s: Seq<char>) -> bool {
    forall|i: int| 0 <= i < s.len() ==> is_digit(#[trigger] s[i])
}

/// The digits a candidate numeral is read from: the whole string, or what
/// follows a single leading plus sign.
pub open spec fn digits_of(s: Seq<char>) -> Seq<char> {
    if s.len() > 0 && s[0] == '+' {
        s.subrange(1, s.len() as int)
    } else {
        s
    }
}

/// A well-formed (unsigned, decimal) numeral: an optional leading plus
/// sign followed by at least one digit, and nothing else.
pub open spec fn is_numeral(s: Seq<char>) -> bool {
    digits_of(s).len() > 0 && all_digits(digits_of(s))
}

/// The value a digit string denotes in base ten.
pub open spec fn numeral_value(s: Seq<char>) -> int
    decreases s.len(),
{
    if s.len() == 0 {
        0
    } else {
        numeral_value(s.drop_last()) * 10 + digit_value(s.last())
    }
}

proof fn lemma_numeral_value_nonneg(s: Seq<char>)
    requires
        all_digits(s),
    ensures
        numeral_value(s) >= 0,
    decreases s.len(),
{
    if s.len() > 0 {
        lemma_numeral_value_nonneg(s.drop_last());
    }
}

/// Reading more digits never shrinks the value: the value of a prefix is a
/// lower bound for the value of any longer prefix.
proof fn lemma_numeral_value_monotonic(s: Seq<char>, i: int, j: int)
    requires
        0 <= i <= j <= s.len(),
        all_digits(s.take(j)),
    ensures
        numeral_value(s.take(i)) <= numeral_value(s.take(j)),
    decreases j - i,
{
    if i < j {
        assert(all_digits(s.take(j - 1))) by {
            assert(forall|k: int| 0 <= k < j - 1 ==> s.take(j - 1)[k] == #[trigger] s.take(j)[k]);
        }
        lemma_numeral_value_monotonic(s, i, j - 1);
        lemma_numeral_value_nonneg(s.take(j - 1));
        assert(s.take(j).drop_last() =~= s.take(j - 1));
        assert(numeral_value(s.take(j)) == numeral_value(s.take(j - 1)) * 10 + digit_value(
            s.take(j).last(),
        ));
    }
}

/// Parse a guess: accepts exactly the numerals — an optional leading plus
/// sign followed by digits — whose value fits in the machine word and lies
/// within `[min, max]`. A string that is not such a numeral, or whose value
/// overflows, is a `ParseError`; a numeral outside the bounds is a
/// `RangeError`.
pub fn parse_guess(s: &str, min: u32, max: u32) -> (r: Result<u32, InputError>)
    ensures
        r matches Ok(v) ==> is_numeral(s@) && numeral_value(digits_of(s@)) == v && min <= v <= max,
        is_numeral(s@) && numeral_value(digits_of(s@)) <= u32::MAX && min <= numeral_value(
            digits_of(s@),
        ) <= max ==> (r == Ok::<u32, InputError>((numeral_value(digits_of(s@)) as u32))),
        r == Err::<u32, InputError>(InputError::ParseError) <==> (!is_numeral(s@) || numeral_value(
            digits_of(s@),
        ) > u32::MAX),
        r == Err::<u32, InputError>(InputError::RangeError) <==> (is_numeral(s@) && numeral_value(
            digits_of(s@),
        ) <= u32::MAX && !(min <= numeral_value(digits_of(s@)) <= max)),
{
    let n: usize = s.unicode_len();
    let mut start: usize = 0;
    if n > 0 {
        let c0: char = s.get_char(0);
        if c0 as u32 == 43 {
            proof {
                assert(s@[0] == '+');
            }
            start = 1;
        }
    }
    if start >= n {
        // Empty, or a lone plus sign: no digits at all.
        return Err(InputError::ParseError);
    }
    let ghost ds = digits_of(s@);
    proof {
        assert(ds =~= s@.subrange(start as int, n as int));
    }
    let mut acc: u32 = 0;
    let mut i: usize = start;
    while i < n
        invariant
            start <= i <= n,
            start < n,
            n == s@.len(),
            ds == digits_of(s@),
            ds =~= s@.subrange(start as int, n as int),
            all_digits(ds.take(i - start)),
            acc as int == numeral_value(ds.take(i - start)),
        decreases n - i,
    {
        let c: char = s.get_char(i);
        let cv: u32 = c as u32;
        proof {
            assert(ds[i - start] == s@[i as int]);
        }
        if cv < 48 || cv > 57 {
            proof {
                assert(!is_digit(ds[i - start]));
            }
            return Err(InputError::ParseError);
        }
        let d: u32 = cv - 48;
        proof {
            let j: int = i - start;
            assert(all_digits(ds.take(j + 1))) by {
                assert(forall|k: int| 0 <= k < j ==> ds.take(j + 1)[k] == #[trigger] ds.take(j)[k]);
                assert(is_digit(ds.take(j + 1)[j]));
            }
            assert(ds.take(j + 1).drop_last() =~= ds.take(j));
            assert(numeral_value(ds.take(j + 1)) == acc as int * 10 + d as int);
        }
        if acc > (u32::MAX - d) / 10 {
            proof {
                assert(acc as int * 10 + d as int > u32::MAX) by (nonlinear_arith)
                    requires
                        acc as int > (u32::MAX - d as int) / 10,
                        0 <= d as int <= 9,
                ;
                if is_numeral(s@) {
                    assert(ds.take(ds.len() as int) =~= ds);
                    lemma_numeral_value_monotonic(ds, i - start + 1, ds.len() as int);
                }
            }
            return Err(InputError::ParseError);
        }
        proof {
            assert(acc as int * 10 + d as int <= u32::MAX) by (nonlinear_arith)
                requires
                    acc as int <= (u32::MAX - d as int) / 10,
                    0 <= d as int <= 9,
            ;
        }
        acc = acc * 10 + d;
        i = i + 1;
    }
    proof {
        assert(ds.take(ds.len() as int) =~= ds);
    }
    if acc < min || acc > max {
        return Err(InputError::RangeError);
    }
    Ok(acc)
}

} // verus!
