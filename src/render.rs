use vstd::prelude::*;

use crate::model::Window;

verus! {

/// The character of the decimal digit `d`.
pub open spec fn digit_char(d: nat) -> char {
    seq!['0', '1', '2', '3', '4', '5', '6', '7', '8', '9'][d as int]
}

/// The decimal digits of `n`, most significant first, without leading zeros.
pub open spec fn nat_digits(n: nat) -> Seq<char>
    decreases n,
{
    if n < 10 {
        seq![digit_char(n)]
    } else {
        nat_digits(n / 10) + seq![digit_char(n % 10)]
    }
}

/// The decimal form of `n`, with a leading `-` when it is negative.
pub open spec fn decimal(n: int) -> Seq<char> {
    if n < 0 {
        seq!['-'] + nat_digits((-n) as nat)
    } else {
        nat_digits(n as nat)
    }
}

/// A boolean written as `true` or `false`, left-aligned in a 5-character field.
pub open spec fn padded_flag(b: bool) -> Seq<char> {
    if b {
        seq!['t', 'r', 'u', 'e', ' ']
    } else {
        seq!['f', 'a', 'l', 's', 'e']
    }
}

/// The listing line of a window: id, space, padded focus flag, then the
/// application name and title in double quotes, separated by single spaces.
pub open spec fn line_of(w: Window) -> Seq<char> {
    decimal(w.id as int) + seq![' '] + decimal(w.space as int) + seq![' '] + padded_flag(
        w.has_focus,
    ) + seq![' ', '"'] + w.app@ + seq!['"', ' ', '"'] + w.title@ + seq!['"']
}

fn digit_str(d: u32) -> (r: &'static str)
    requires
        d < 10,
    ensures
        r@ == seq![digit_char(d as nat)],
{
    proof {
        reveal_strlit("0");
        reveal_strlit("1");
        reveal_strlit("2");
        reveal_strlit("3");
        reveal_strlit("4");
        reveal_strlit("5");
        reveal_strlit("6");
        reveal_strlit("7");
        reveal_strlit("8");
        reveal_strlit("9");
    }
    match d {
        0 => "0",
        1 => "1",
        2 => "2",
        3 => "3",
        4 => "4",
        5 => "5",
        6 => "6",
        7 => "7",
        8 => "8",
        _ => "9",
    }
}

fn push_digits(n: u32, out: &mut String)
    ensures
        final(out)@ == old(out)@ + nat_digits(n as nat),
    decreases n,
{
    if n >= 10 {
        push_digits(n / 10, out);
    }
    out.append(digit_str(n % 10));
    assert(final(out)@ =~= old(out)@ + nat_digits(n as nat));
}

/// Appends the decimal form of `n` to `out`.
pub fn push_decimal(n: i32, out: &mut String)
    ensures
        final(out)@ == old(out)@ + decimal(n as int),
{
    if n < 0 {
        proof {
            reveal_strlit("-");
        }
        out.append("-");
        let m: u32 = (0 - (n as i64)) as u32;
        push_digits(m, out);
        assert(final(out)@ =~= old(out)@ + decimal(n as int));
    } else {
        push_digits(n as u32, out);
    }
}

/// Renders one window as its listing line.
pub fn render_line(w: &Window) -> (r: String)
    ensures
        r@ == line_of(*w),
{
    proof {
        reveal_strlit(" ");
        reveal_strlit("true ");
        reveal_strlit("false");
        reveal_strlit(" \"");
        reveal_strlit("\" \"");
        reveal_strlit("\"");
    }
    let mut out = String::new();
    push_decimal(w.id, &mut out);
    out.append(" ");
    push_decimal(w.space, &mut out);
    out.append(" ");
    if w.has_focus {
        out.append("true ");
    } else {
        out.append("false");
    }
    out.append(" \"");
    out.append(w.app.as_str());
    out.append("\" \"");
    out.append(w.title.as_str());
    out.append("\"");
    assert(out@ =~= line_of(*w));
    out
}

/// Renders each window as one line, in the order given.
pub fn render_lines(windows: &Vec<Window>) -> (r: Vec<String>)
    ensures
        r.len() == windows.len(),
        forall|i: int| 0 <= i < r.len() ==> #[trigger] r[i]@ == line_of(windows[i]),
{
    let mut lines: Vec<String> = Vec::new();
    for k in 0..windows.len()
        invariant
            lines.len() == k,
            forall|i: int| 0 <= i < k ==> #[trigger] lines[i]@ == line_of(windows[i]),
    {
        lines.push(render_line(&windows[k]));
    }
    lines
}

} // verus!
