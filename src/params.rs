use vstd::prelude::*;
use vstd::string::StrSliceExecFns;
use crate::formula::{blank, formula_binds_xy, formula_parses, is_blank, parse_formula};

verus! {

/// Whether `c` is an ASCII decimal digit.
pub open spec fn is_digit(c: char) -> bool {
    '0' <= c && c <= '9'
}

/// The value of a string of decimal digits.
pub open spec fn digits_value(s: Seq<char>) -> int
    decreases s.len(),
{
    if s.len() == 0 {
        0
    } else {
        digits_value(s.drop_last()) * 10 + (s.last() as u32 - '0' as u32)
    }
}

/// A text without its leading `+` or `-`, if it has one.
pub open spec fn unsigned_part(s: Seq<char>) -> Seq<char> {
    if s.len() > 0 && (s[0] == '-' || s[0] == '+') {
        s.drop_first()
    } else {
        s
    }
}

/// A text of one or more decimal digits.
pub open spec fn all_digits(t: Seq<char>) -> bool {
    t.len() > 0 && forall|i: int| 0 <= i < t.len() ==> is_digit(#[trigger] t[i])
}

/// The integer that a text of an optional `+` or `-` sign followed by one or
/// more decimal digits stands for; `None` for any other text (blank space
/// included).
pub open spec fn integer_of_text(s: Seq<char>) -> Option<int> {
    if all_digits(unsigned_part(s)) {
        Some(
            if s[0] == '-' {
                -digits_value(unsigned_part(s))
            } else {
                digits_value(unsigned_part(s))
            },
        )
    } else {
        None
    }
}

/// The `i32` that a text stands for, if it is an integer in range.
pub open spec fn i32_of_text(s: Seq<char>) -> Option<i32> {
    match integer_of_text(s) {
        Some(v) => if i32::MIN <= v <= i32::MAX {
            Some(v as i32)
        } else {
            None
        },
        None => None,
    }
}

/// The step count that a text gives: its integer, or 0 where it holds none.
pub open spec fn steps_of_text(s: Seq<char>) -> i32 {
    match i32_of_text(s) {
        Some(v) => v,
        None => 0,
    }
}

/// Appending a digit to a string of digits multiplies its value by ten and
/// adds the digit.
proof fn lemma_digits_push(s: Seq<char>, a: int, i: int)
    requires
        0 <= a <= i < s.len(),
    ensures
        digits_value(s.subrange(a, i + 1)) == digits_value(s.subrange(a, i)) * 10 + (s[i] as u32
            - '0' as u32),
{
    assert(s.subrange(a, i + 1).drop_last() =~= s.subrange(a, i));
}

/// A string of digits is worth at least as much as any of its prefixes.
proof fn lemma_digits_prefix(t: Seq<char>, k: int)
    requires
        0 <= k <= t.len(),
        forall|j: int| 0 <= j < t.len() ==> is_digit(#[trigger] t[j]),
    ensures
        digits_value(t) >= digits_value(t.subrange(0, k)),
        digits_value(t) >= 0,
    decreases t.len(),
{
    if t.len() > 0 {
        let u = t.drop_last();
        if k == t.len() {
            assert(t.subrange(0, k) =~= t);
            lemma_digits_prefix(u, 0);
        } else {
            assert(u.subrange(0, k) =~= t.subrange(0, k));
            lemma_digits_prefix(u, k);
        }
    } else {
        assert(t.subrange(0, k) =~= t);
    }
}

/// Reads an `i32` the way `<i32 as FromStr>::from_str` does: an optional `+`
/// or `-` followed by one or more decimal digits, in range.
fn parse_i32(s: &str) -> (r: Option<i32>)
    ensures
        r == i32_of_text(s@),
{
    let n = s.unicode_len();
    if n == 0 {
        return None;
    }
    let c0 = s.get_char(0);
    let first: usize = if c0 == '-' || c0 == '+' {
        1
    } else {
        0
    };
    let ghost body = unsigned_part(s@);
    proof {
        assert(body =~= s@.subrange(first as int, n as int));
    }
    if first == n {
        return None;
    }
    let mut acc: i64 = 0;
    let mut i: usize = first;
    while i < n
        invariant
            n == s@.len(),
            first <= i <= n,
            body == s@.subrange(first as int, n as int),
            body == unsigned_part(s@),
            c0 == s@[0],
            forall|j: int| first <= j < i ==> is_digit(#[trigger] s@[j]),
            acc == digits_value(s@.subrange(first as int, i as int)),
            0 <= acc <= 2147483648,
        decreases n - i,
    {
        let c = s.get_char(i);
        if !('0' <= c && c <= '9') {
            proof {
                assert(body[i - first] == s@[i as int]);
                assert(!is_digit(body[i - first]));
                assert(!all_digits(body));
            }
            return None;
        }
        proof {
            lemma_digits_push(s@, first as int, i as int);
        }
        acc = acc * 10 + (c as u32 - '0' as u32) as i64;
        if acc > 2147483648 {
            proof {
                if forall|j: int| 0 <= j < body.len() ==> is_digit(#[trigger] body[j]) {
                    assert(body.subrange(0, i + 1 - first) =~= s@.subrange(first as int, i + 1));
                    lemma_digits_prefix(body, i + 1 - first);
                    assert(digits_value(body) > 2147483648);
                }
                assert(i32_of_text(s@) is None);
            }
            return None;
        }
        i = i + 1;
    }
    proof {
        assert(s@.subrange(first as int, n as int) == body);
        assert forall|j: int| 0 <= j < body.len() implies is_digit(#[trigger] body[j]) by {
            assert(body[j] == s@[j + first]);
        }
    }
    let v: i64 = if c0 == '-' {
        -acc
    } else {
        acc
    };
    if v < -2147483648 || v > 2147483647 {
        None
    } else {
        Some(v as i32)
    }
}

/// The only fatal intake error: the formula text is blank, does not parse, or
/// uses a variable other than `x` and `y`.
#[derive(Debug, Clone, Copy, PartialEq, Eq, Structural)]
pub struct ParseFailure;

impl ParseFailure {
    /// The text shown in place of a report.
    pub fn message(&self) -> (r: String)
        ensures
            r@ == "An error occurred."@,
    {
        String::from_str("An error occurred.")
    }
}

/// The inputs of one solve request. The interval bounds and the initial
/// condition are kept as entered; a text that is not a number stands for zero
/// when it is read as one.
pub struct ParameterSet {
    pub steps: i32,
    pub start: String,
    pub end: String,
    pub x0: String,
    pub y0: String,
    pub expr: meval::Expr,
}

/// Completes a parameter set from the outcome of reading the formula: it
/// fails exactly when that failed, and otherwise reads the remaining fields as
/// `parse_parameters` describes.
pub fn parameters_from(
    formula: Result<meval::Expr, meval::Error>,
    steps: &str,
    start: &str,
    end: &str,
    x0: &str,
    y0: &str,
) -> (r: Result<ParameterSet, ParseFailure>)
    ensures
        r is Ok <==> formula is Ok,
        r matches Ok(p) ==> {
            &&& p.steps == steps_of_text(steps@)
            &&& p.start@ == start@
            &&& p.end@ == end@
            &&& p.x0@ == x0@
            &&& p.y0@ == y0@
        },
{
    let expr = match formula {
        Ok(e) => e,
        Err(_) => {
            return Err(ParseFailure);
        },
    };
    let count = match parse_i32(steps) {
        Some(v) => v,
        None => 0,
    };
    Ok(
        ParameterSet {
            steps: count,
            start: String::from_str(start),
            end: String::from_str(end),
            x0: String::from_str(x0),
            y0: String::from_str(y0),
            expr,
        },
    )
}

/// Reads the six fields of a solve request. Only the formula can fail: when
/// it is blank, does not parse, or uses a variable other than `x` and `y`, and
/// then no other field is read. A step count that is not an `i32` becomes 0.
pub fn parse_parameters(
    function: &str,
    steps: &str,
    start: &str,
    end: &str,
    x0: &str,
    y0: &str,
) -> (r: Result<ParameterSet, ParseFailure>)
    ensures
        r is Ok <==> (!blank(function@) && formula_parses(function@) && formula_binds_xy(
            function@,
        )),
        r matches Ok(p) ==> {
            &&& p.steps == steps_of_text(steps@)
            &&& p.start@ == start@
            &&& p.end@ == end@
            &&& p.x0@ == x0@
            &&& p.y0@ == y0@
        },
{
    if is_blank(function) {
        return Err(ParseFailure);
    }
    parameters_from(parse_formula(function), steps, start, end, x0, y0)
}

} // verus!
