use vstd::prelude::*;

use crate::model::{Space, Window};
use crate::render::{decimal, line_of, push_decimal, render_lines};
use crate::selector::SpaceSelector;

verus! {

/// The arguments that ask the window manager for every space.
pub open spec fn space_query_spec() -> Seq<Seq<char>> {
    seq![seq!['-', 'm'], seq!['q', 'u', 'e', 'r', 'y'], seq!['-', '-', 's', 'p', 'a', 'c', 'e', 's']]
}

/// The arguments that ask the window manager for the windows that `sel` selects.
pub open spec fn window_query_spec(sel: SpaceSelector) -> Seq<Seq<char>> {
    let base = seq![
        seq!['-', 'm'],
        seq!['q', 'u', 'e', 'r', 'y'],
        seq!['-', '-', 'w', 'i', 'n', 'd', 'o', 'w', 's'],
    ];
    match sel {
        SpaceSelector::All => base,
        SpaceSelector::Index(n) => base + seq![
            seq!['-', '-', 's', 'p', 'a', 'c', 'e'],
            decimal(n as int),
        ],
    }
}

/// The strings that a vector of strings holds.
pub open spec fn texts(v: Seq<String>) -> Seq<Seq<char>> {
    v.map_values(|s: String| s@)
}

/// The index of the first focused space of `s`, if any.
pub open spec fn focused_index(s: Seq<Space>) -> Option<i32>
    decreases s.len(),
{
    if s.len() == 0 {
        None
    } else if s[0].has_focus {
        Some(s[0].index)
    } else {
        focused_index(s.drop_first())
    }
}

/// The bounds that a space listing gives: the number of spaces and the index
/// of the first focused one, or `(0, 0)` when there is no listing or no
/// focused space in it.
pub open spec fn bounds_of(spaces: Option<Seq<Space>>) -> (int, int) {
    match spaces {
        Some(s) => match focused_index(s) {
            Some(i) => (s.len() as int, i as int),
            None => (0, 0),
        },
        None => (0, 0),
    }
}

/// The windows that a window query yields: none unless the query completed
/// successfully, else what its output decoded to (none if it did not decode).
pub open spec fn window_outcome(succeeded: bool, decoded: Option<Seq<Window>>) -> Option<
    Seq<Window>,
> {
    if succeeded {
        decoded
    } else {
        None
    }
}

/// The lines printed for a window query's result: one per window, in order.
pub open spec fn listing_of(windows: Option<Seq<Window>>) -> Seq<Seq<char>> {
    match windows {
        Some(ws) => ws.map_values(|w: Window| line_of(w)),
        None => Seq::empty(),
    }
}

/// The contents of an optional vector of spaces.
pub open spec fn spaces_of(v: Option<Vec<Space>>) -> Option<Seq<Space>> {
    match v {
        Some(s) => Some(s@),
        None => None,
    }
}

/// The contents of an optional vector of windows.
pub open spec fn windows_of(v: Option<Vec<Window>>) -> Option<Seq<Window>> {
    match v {
        Some(ws) => Some(ws@),
        None => None,
    }
}

/// The arguments of the query that lists every space.
pub fn space_query_args() -> (r: Vec<String>)
    ensures
        texts(r@) == space_query_spec(),
{
    proof {
        reveal_strlit("-m");
        reveal_strlit("query");
        reveal_strlit("--spaces");
    }
    let mut args: Vec<String> = Vec::new();
    args.push(String::from_str("-m"));
    args.push(String::from_str("query"));
    args.push(String::from_str("--spaces"));
    assert(texts(args@) =~~= space_query_spec());
    args
}

/// The arguments of the query that lists the windows `sel` selects.
pub fn window_query_args(sel: SpaceSelector) -> (r: Vec<String>)
    ensures
        texts(r@) == window_query_spec(sel),
{
    proof {
        reveal_strlit("-m");
        reveal_strlit("query");
        reveal_strlit("--windows");
        reveal_strlit("--space");
    }
    let mut args: Vec<String> = Vec::new();
    args.push(String::from_str("-m"));
    args.push(String::from_str("query"));
    args.push(String::from_str("--windows"));
    match sel {
        SpaceSelector::All => {},
        SpaceSelector::Index(n) => {
            args.push(String::from_str("--space"));
            let mut num = String::new();
            push_decimal(n, &mut num);
            args.push(num);
        },
    }
    assert(texts(args@) =~~= window_query_spec(sel));
    args
}

/// The number of spaces in `spaces` and the index of the first focused
/// one, or `(0, 0)` when none is focused.
pub fn listing_bounds(spaces: &Vec<Space>) -> (r: (usize, i32))
    ensures
        (r.0 as int, r.1 as int) == bounds_of(Some(spaces@)),
{
    let mut k: usize = 0;
    assert(spaces@.subrange(0, spaces.len() as int) =~= spaces@);
    while k < spaces.len()
        invariant
            0 <= k <= spaces.len(),
            focused_index(spaces@) == focused_index(spaces@.subrange(k as int, spaces.len() as int)),
        decreases spaces.len() - k,
    {
        let ghost rest = spaces@.subrange(k as int, spaces.len() as int);
        assert(rest[0] == spaces@[k as int]);
        if spaces[k].has_focus {
            return (spaces.len(), spaces[k].index);
        }
        assert(rest.drop_first() =~= spaces@.subrange(k + 1, spaces.len() as int));
        k = k + 1;
    }
    assert(spaces@.subrange(k as int, spaces.len() as int).len() == 0);
    (0, 0)
}

/// The bounds that the space query gives, from what its output decoded to:
/// the number of spaces and the index of the first focused one, or `(0, 0)`
/// when the output did not decode or has no focused space.
pub fn space_info(spaces: Option<Vec<Space>>) -> (r: (usize, i32))
    ensures
        (r.0 as int, r.1 as int) == bounds_of(spaces_of(spaces)),
{
    match spaces {
        Some(v) => listing_bounds(&v),
        None => (0, 0),
    }
}

/// The windows that a window query yields, from whether the query completed
/// successfully and what its output decoded to.
pub fn window_result(succeeded: bool, decoded: Option<Vec<Window>>) -> (r: Option<Vec<Window>>)
    ensures
        windows_of(r) == window_outcome(succeeded, windows_of(decoded)),
{
    if succeeded {
        decoded
    } else {
        None
    }
}

/// The lines to print for a window query's result.
pub fn listing(windows: &Option<Vec<Window>>) -> (r: Vec<String>)
    ensures
        texts(r@) == listing_of(windows_of(*windows)),
{
    match windows {
        Some(ws) => {
            let lines = render_lines(ws);
            assert(texts(lines@) =~= listing_of(windows_of(*windows)));
            lines
        },
        None => {
            let lines: Vec<String> = Vec::new();
            assert(texts(lines@) =~= listing_of(windows_of(*windows)));
            lines
        },
    }
}

/// Every decoded window list yields exactly one line per window, in the
/// order of the list.
pub proof fn lemma_one_line_per_window(ws: Seq<Window>)
    ensures
        listing_of(Some(ws)).len() == ws.len(),
        forall|i: int| 0 <= i < ws.len() ==> #[trigger] listing_of(Some(ws))[i] == line_of(ws[i]),
{
}

/// A window query that failed, or whose output did not decode, lists nothing.
pub proof fn lemma_failed_query_lists_nothing(succeeded: bool, decoded: Option<Seq<Window>>)
    requires
        !succeeded || decoded is None,
    ensures
        listing_of(window_outcome(succeeded, decoded)) == Seq::<Seq<char>>::empty(),
{
}

} // verus!
