use vstd::prelude::*;

verus! {

/// The character of a decimal digit.
pub open spec fn digit_char(d: nat) -> char {
    if d == 0 {
        '0'
    } else if d == 1 {
        '1'
    } else if d == 2 {
        '2'
    } else if d == 3 {
        '3'
    } else if d == 4 {
        '4'
    } else if d == 5 {
        '5'
    } else if d == 6 {
        '6'
    } else if d == 7 {
        '7'
    } else if d == 8 {
        '8'
    } else {
        '9'
    }
}

/// The decimal numeral of `n`, without leading zeros.
pub open spec fn decimal(n: nat) -> Seq<char>
    decreases n,
{
    if n < 10 {
        seq![digit_char(n)]
    } else {
        decimal(n / 10) + seq![digit_char(n % 10)]
    }
}

/// The decimal numeral of `v`, with a leading `-` when it is negative.
pub open spec fn signed_decimal(v: int) -> Seq<char> {
    if v < 0 {
        seq!['-'] + decimal((-v) as nat)
    } else {
        decimal(v as nat)
    }
}

/// The table line of sample `i`, from the texts of its coordinates.
pub open spec fn row_line(i: nat, x: Seq<char>, y: Seq<char>) -> Seq<char> {
    decimal(i) + "    "@ + x + "      "@ + y + "\n"@
}

/// The table lines of all samples, numbered from 0.
pub open spec fn rows_text(rows: Seq<(String, String)>) -> Seq<char>
    decreases rows.len(),
{
    if rows.len() == 0 {
        Seq::empty()
    } else {
        let i = (rows.len() - 1) as nat;
        rows_text(rows.drop_last()) + row_line(i, rows[i as int].0@, rows[i as int].1@)
    }
}

/// The three header lines of a report.
pub open spec fn header_text(title: Seq<char>, steps: int, h: Seq<char>) -> Seq<char> {
    "Method "@ + title + "\n"@ + "Steps: "@ + signed_decimal(steps) + " (h = "@ + h + ")\n"@
        + "#    x           y\n"@
}

/// The whole report: the header, then one line per sample.
pub open spec fn report_text(
    title: Seq<char>,
    steps: int,
    h: Seq<char>,
    rows: Seq<(String, String)>,
) -> Seq<char> {
    header_text(title, steps, h) + rows_text(rows)
}

fn digit_text(d: u64) -> (r: &'static str)
    requires
        d < 10,
    ensures
        r@ == seq![digit_char(d as nat)],
{
    let r = if d == 0 {
        "0"
    } else if d == 1 {
        "1"
    } else if d == 2 {
        "2"
    } else if d == 3 {
        "3"
    } else if d == 4 {
        "4"
    } else if d == 5 {
        "5"
    } else if d == 6 {
        "6"
    } else if d == 7 {
        "7"
    } else if d == 8 {
        "8"
    } else {
        "9"
    };
    proof {
        reveal_strlit("0");
        reveal_strlit("1");
        reveal_strlit("2");
        reveal_strlit("3");
        reveal_strlit("4");
        reveal_strlit("5");
        reveal_strlit("6");
        reveal_strlit("7");
        reveal_strlit("8");
        reveal_strlit("9");
    }
    assert(r@ =~= seq![digit_char(d as nat)]);
    r
}

/// Appends the decimal numeral of `n`.
pub fn push_decimal(out: &mut String, n: u64)
    ensures
        final(out)@ == old(out)@ + decimal(n as nat),
    decreases n,
{
    if n >= 10 {
        push_decimal(out, n / 10);
    }
    out.append(digit_text(n % 10));
    assert(final(out)@ =~= old(out)@ + decimal(n as nat));
}

/// Appends the decimal numeral of `v`, signed.
pub fn push_signed(out: &mut String, v: i32)
    ensures
        final(out)@ == old(out)@ + signed_decimal(v as int),
{
    if v < 0 {
        out.append("-");
        let m: i64 = -(v as i64);
        push_decimal(out, m as u64);
        assert(m as u64 as nat == -(v as int));
        proof {
            reveal_strlit("-");
        }
        assert("-"@ =~= seq!['-']);
        assert(final(out)@ =~= old(out)@ + "-"@ + decimal(m as u64 as nat));
    } else {
        push_decimal(out, v as u64);
    }
    assert(final(out)@ =~= old(out)@ + signed_decimal(v as int));
}

/// Renders a trajectory as a table. `title` names the method, `h` is the text
/// of the step size, and each row holds the texts of a sample's `x` (two
/// fractional digits) and `y` (six fractional digits); every row is printed,
/// numbered from 0.
pub fn format_result(title: &str, rows: &Vec<(String, String)>, steps: i32, h: &str) -> (r:
    String)
    ensures
        r@ == report_text(title@, steps as int, h@, rows@),
{
    let mut out = String::new();
    out.append("Method ");
    out.append(title);
    out.append("\n");
    out.append("Steps: ");
    push_signed(&mut out, steps);
    out.append(" (h = ");
    out.append(h);
    out.append(")\n");
    out.append("#    x           y\n");
    assert(out@ =~= header_text(title@, steps as int, h@));
    let mut i: usize = 0;
    while i < rows.len()
        invariant
            i <= rows@.len(),
            out@ == header_text(title@, steps as int, h@) + rows_text(rows@.subrange(0, i as int)),
        decreases rows@.len() - i,
    {
        let ghost before = out@;
        push_decimal(&mut out, i as u64);
        out.append("    ");
        out.append(rows[i].0.as_str());
        out.append("      ");
        out.append(rows[i].1.as_str());
        out.append("\n");
        proof {
            let next = rows@.subrange(0, i + 1);
            assert(next.drop_last() =~= rows@.subrange(0, i as int));
            assert(next[i as int] == rows@[i as int]);
            assert(out@ =~= before + row_line(i as nat, rows@[i as int].0@, rows@[i as int].1@));
        }
        i = i + 1;
    }
    assert(rows@.subrange(0, rows@.len() as int) =~= rows@);
    out
}

} // verus!
