use vstd::prelude::*;

verus! {

/// Which windows a window query asks for.
#[derive(Clone, Copy, Debug, PartialEq, Eq, Structural)]
pub enum SpaceSelector {
    /// Every window, whatever its space.
    All,
    /// The windows of the space with this 1-based index.
    Index(i32),
}

/// Whether `c` is an ASCII decimal digit.
pub open spec fn is_digit(c: char) -> bool {
    '0' <= c && c <= '9'
}

/// The value of the decimal digits `s`, most significant first.
pub open spec fn digits_value(s: Seq<char>) -> int
    decreases s.len(),
{
    if s.len() == 0 {
        0
    } else {
        digits_value(s.drop_last()) * 10 + (s.last() as int - '0' as int)
    }
}

/// The integer that `s` spells: an optional `+` or `-`, then one or more
/// decimal digits and nothing else, with a value that fits in an `i32`.
pub open spec fn parsed_i32(s: Seq<char>) -> Option<int> {
    let signed = s.len() > 0 && (s[0] == '-' || s[0] == '+');
    let body = if signed { s.drop_first() } else { s };
    let magnitude = digits_value(body);
    let v = if signed && s[0] == '-' { -magnitude } else { magnitude };
    if body.len() > 0 && (forall|i: int| 0 <= i < body.len() ==> is_digit(#[trigger] body[i]))
        && i32::MIN <= v <= i32::MAX {
        Some(v)
    } else {
        None
    }
}

/// The selector for a parsed argument: the space it names when it lies in
/// `1..=max_space`, else every window.
pub open spec fn selection_of(parsed: Option<int>, max_space: int) -> SpaceSelector {
    match parsed {
        Some(n) => if 1 <= n <= max_space {
            SpaceSelector::Index(n as i32)
        } else {
            SpaceSelector::All
        },
        None => SpaceSelector::All,
    }
}

/// The selector for an optional command-line argument.
pub open spec fn arg_selection(arg: Option<Seq<char>>, max_space: int) -> SpaceSelector {
    match arg {
        Some(s) => selection_of(parsed_i32(s), max_space),
        None => SpaceSelector::All,
    }
}

/// Relies on `<i32 as FromStr>::from_str`, which accepts an optional sign
/// followed by decimal digits only, and fails on anything else or on overflow.
#[verifier::external_body]
fn parse_i32(s: &str) -> (r: Option<i32>)
    ensures
        match r {
            Some(n) => parsed_i32(s@) == Some(n as int),
            None => parsed_i32(s@) is None,
        },
{
    s.parse::<i32>().ok()
}

/// Resolves an already parsed argument against the number of spaces.
pub fn select_parsed(parsed: Option<i32>, max_space: usize) -> (r: SpaceSelector)
    ensures
        r == selection_of(
            match parsed {
                Some(n) => Some(n as int),
                None => None,
            },
            max_space as int,
        ),
{
    match parsed {
        Some(n) => {
            if 1 <= n && (n as usize) <= max_space {
                SpaceSelector::Index(n)
            } else {
                SpaceSelector::All
            }
        },
        None => SpaceSelector::All,
    }
}

/// Resolves the optional positional argument into a selector: the space it
/// names when it is a decimal integer in `1..=max_space`, else every window.
pub fn select_space(arg: Option<&str>, max_space: usize) -> (r: SpaceSelector)
    ensures
        r == arg_selection(
            match arg {
                Some(s) => Some(s@),
                None => None,
            },
            max_space as int,
        ),
        r matches SpaceSelector::Index(n) ==> 1 <= n && n as int <= max_space,
{
    match arg {
        Some(s) => select_parsed(parse_i32(s), max_space),
        None => SpaceSelector::All,
    }
}

/// An argument that is not a decimal integer, or names no space in
/// `1..=max_space`, selects exactly what no argument selects.
pub proof fn lemma_invalid_arg_is_absent(s: Seq<char>, max_space: int)
    requires
        match parsed_i32(s) {
            Some(n) => n < 1 || n > max_space,
            None => true,
        },
    ensures
        arg_selection(Some(s), max_space) == arg_selection(None, max_space),
{
}

} // verus!
