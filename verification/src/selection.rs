//! Cursor movement and the window of rows a list shows.
use vstd::prelude::*;
use vstd::string::*;
use crate::strs::{chars_contains, chars_lower, contains, lower, to_chars};

verus! {

/// The first position of `x` in `s` at or after `i`, or `None`.
pub open spec fn position_from(s: Seq<usize>, x: usize, i: int) -> Option<int>
    decreases s.len() - i,
{
    if i < 0 || i >= s.len() {
        None
    } else if s[i] == x {
        Some(i)
    } else {
        position_from(s, x, i + 1)
    }
}

/// The first position of `x` in `s`, or `None`.
pub open spec fn position(s: Seq<usize>, x: usize) -> Option<int> {
    position_from(s, x, 0)
}

pub proof fn lemma_position_sound(s: Seq<usize>, x: usize, i: int)
    ensures
        position_from(s, x, i) matches Some(p) ==> i <= p < s.len() && s[p] == x && forall|
            j: int,
        | i <= j < p ==> s[j] != x,
        position_from(s, x, i) is None ==> 0 <= i ==> forall|j: int| i <= j < s.len() ==> s[j]
            != x,
    decreases s.len() - i,
{
    if i < 0 || i >= s.len() {
    } else if s[i] == x {
    } else {
        lemma_position_sound(s, x, i + 1);
    }
}

/// Exec `position`.
pub fn index_position(s: &[usize], x: usize) -> (r: Option<usize>)
    ensures
        match r {
            Some(p) => position(s@, x) == Some(p as int),
            None => position(s@, x) is None,
        },
{
    let mut i: usize = 0;
    while i < s.len()
        invariant
            i <= s.len(),
            position(s@, x) == position_from(s@, x, i as int),
        decreases s.len() - i,
    {
        if s[i] == x {
            return Some(i);
        }
        i += 1;
    }
    None
}

/// The first row of the window of `max_rows` rows that keeps the selected
/// row near the middle.
pub open spec fn window_start(s: Seq<usize>, selected: usize, max_rows: nat) -> int {
    if s.len() <= max_rows {
        0
    } else {
        let pos = match position(s, selected) {
            Some(p) => p,
            None => 0,
        };
        let back = if pos >= max_rows / 2 { pos - max_rows / 2 } else { 0 };
        let last_start = s.len() - max_rows;
        if back < last_start { back } else { last_start }
    }
}

/// The rows a list of at most `max_rows` rows shows, and the position of the
/// first of them.
pub fn visible_indices_with_offset(indices: &[usize], selected: usize, max_rows: usize) -> (r: (
    Vec<usize>,
    usize,
))
    ensures
        r.1 == window_start(indices@, selected, max_rows as nat),
        r.0@ == (if indices@.len() <= max_rows {
            indices@
        } else {
            indices@.subrange(r.1 as int, r.1 + max_rows)
        }),
{
    if indices.len() <= max_rows {
        let mut all: Vec<usize> = Vec::new();
        let mut i: usize = 0;
        while i < indices.len()
            invariant
                i <= indices.len(),
                all@ == indices@.take(i as int),
            decreases indices.len() - i,
        {
            all.push(indices[i]);
            i += 1;
            proof {
                assert(all@ =~= indices@.take(i as int));
            }
        }
        proof {
            assert(indices@.take(indices.len() as int) =~= indices@);
        }
        return (all, 0);
    }
    let pos = match index_position(indices, selected) {
        Some(p) => p,
        None => 0,
    };
    let half = max_rows / 2;
    let back = if pos >= half {
        pos - half
    } else {
        0
    };
    let last_start = indices.len() - max_rows;
    let start = if back < last_start {
        back
    } else {
        last_start
    };
    let mut out: Vec<usize> = Vec::new();
    let mut i = start;
    while i < start + max_rows
        invariant
            start <= i <= start + max_rows <= indices.len(),
            out@ == indices@.subrange(start as int, i as int),
        decreases start + max_rows - i,
    {
        out.push(indices[i]);
        i += 1;
        proof {
            assert(out@ =~= indices@.subrange(start as int, i as int));
        }
    }
    (out, start)
}

/// The rows a list of at most `max_rows` rows shows.
pub fn visible_indices(indices: &[usize], selected: usize, max_rows: usize) -> (r: Vec<usize>)
    ensures
        r@ == (if indices@.len() <= max_rows {
            indices@
        } else {
            indices@.subrange(
                window_start(indices@, selected, max_rows as nat),
                window_start(indices@, selected, max_rows as nat) + max_rows,
            )
        }),
{
    visible_indices_with_offset(indices, selected, max_rows).0
}

/// A selected row that is in the list is always among the rows shown.
pub proof fn law_selected_row_visible(s: Seq<usize>, selected: usize, max_rows: nat)
    requires
        s.contains(selected),
        max_rows >= 1,
    ensures
        ({
            let start = window_start(s, selected, max_rows);
            let shown = if s.len() <= max_rows {
                s
            } else {
                s.subrange(start, start + max_rows)
            };
            shown.contains(selected)
        }),
{
    lemma_position_sound(s, selected, 0);
    if s.len() > max_rows {
        let p = position(s, selected)->0;
        let start = window_start(s, selected, max_rows);
        assert(start <= p < start + max_rows);
        assert(s.subrange(start, start + max_rows)[p - start] == selected);
    }
}

/// The indices below `count` for which the predicate answered `true`, in
/// increasing order.
pub fn filter_indices(count: usize, predicate: impl Fn(usize) -> bool) -> (r: Vec<usize>)
    requires
        forall|i: usize| i < count ==> call_requires(predicate, (i,)),
    ensures
        forall|k: int| 0 <= k < r@.len() ==> r@[k] < count && call_ensures(predicate, (r@[k],), true),
        forall|k: int, l: int| 0 <= k < l < r@.len() ==> r@[k] < r@[l],
        forall|i: usize|
            i < count && !r@.contains(i) ==> call_ensures(predicate, (i,), false),
{
    let mut r: Vec<usize> = Vec::new();
    let mut i: usize = 0;
    while i < count
        invariant
            i <= count,
            forall|i: usize| i < count ==> call_requires(predicate, (i,)),
            forall|k: int| 0 <= k < r@.len() ==> r@[k] < i && call_ensures(predicate, (r@[k],), true),
            forall|k: int, l: int| 0 <= k < l < r@.len() ==> r@[k] < r@[l],
            forall|j: usize| j < i && !r@.contains(j) ==> call_ensures(predicate, (j,), false),
        decreases count - i,
    {
        let keep = predicate(i);
        if keep {
            let ghost r0 = r@;
            r.push(i);
            proof {
                assert forall|j: usize| j < i + 1 && !r@.contains(j) implies call_ensures(
                    predicate,
                    (j,),
                    false,
                ) by {
                    if r0.contains(j) {
                        let k = choose|k: int| 0 <= k < r0.len() && r0[k] == j;
                        assert(r@[k] == j);
                    }
                    if j == i {
                        assert(r@[r@.len() - 1] == i);
                    }
                }
            }
        } else {
            proof {
                assert(call_ensures(predicate, (i,), false));
                assert forall|j: usize| j < i + 1 && !r@.contains(j) implies call_ensures(
                    predicate,
                    (j,),
                    false,
                ) by {
                    if j == i {
                        assert(call_ensures(predicate, (i,), keep));
                    }
                }
            }
        }
        i += 1;
    }
    r
}

/// Some value, ASCII case ignored, holds the query.
pub open spec fn text_matches_spec(query: Seq<char>, values: Seq<Option<Seq<char>>>) -> bool {
    exists|i: int|
        0 <= i < values.len() && (#[trigger] values[i] matches Some(v) && contains(
            lower(v),
            lower(query),
        ))
}

/// Whether one of the values holds the query, ASCII case ignored; absent
/// values match nothing.
pub fn text_matches(query: &str, values: &[Option<&str>]) -> (b: bool)
    ensures
        b == text_matches_spec(
            query@,
            values@.map_values(|v: Option<&str>| match v {
                Some(t) => Some(t@),
                None => None,
            }),
        ),
{
    let qc = to_chars(query);
    let q = chars_lower(&qc);
    let ghost vs = values@.map_values(|v: Option<&str>| match v {
        Some(t) => Some(t@),
        None => None,
    });
    let mut i: usize = 0;
    while i < values.len()
        invariant
            i <= values.len(),
            q@ == lower(query@),
            vs == values@.map_values(|v: Option<&str>| match v {
                Some(t) => Some(t@),
                None => None,
            }),
            forall|j: int|
                0 <= j < i ==> !(#[trigger] vs[j] matches Some(v) && contains(lower(v), lower(query@))),
        decreases values.len() - i,
    {
        match values[i] {
            Some(t) => {
                let tc = to_chars(t);
                let tl = chars_lower(&tc);
                if chars_contains(&tl, &q) {
                    proof {
                        assert(vs[i as int] == Some(t@));
                    }
                    return true;
                }
            },
            None => {},
        }
        i += 1;
    }
    false
}

/// Where `move_index` puts the cursor.
pub open spec fn moved_index(index: int, len: int, delta: int) -> int {
    if len == 0 {
        0
    } else if delta == isize::MIN {
        0
    } else if delta == isize::MAX {
        len - 1
    } else {
        let current = if index <= isize::MAX { index } else { 0 };
        let last = if len - 1 <= isize::MAX { len - 1 } else { 0 };
        let sum = current + delta;
        let sat = if sum > isize::MAX {
            isize::MAX as int
        } else if sum < isize::MIN {
            isize::MIN as int
        } else {
            sum
        };
        if sat < 0 {
            0
        } else if sat > last {
            last
        } else {
            sat
        }
    }
}

/// Moves a cursor by `delta` rows within a list of `len` rows;
/// `isize::MIN` and `isize::MAX` jump to the first and last row.
pub fn move_index(index: &mut usize, len: usize, delta: isize)
    ensures
        *final(index) as int == moved_index(*old(index) as int, len as int, delta as int),
{
    if len == 0 {
        *index = 0;
        return;
    }
    if delta == isize::MIN {
        *index = 0;
        return;
    }
    if delta == isize::MAX {
        *index = len - 1;
        return;
    }
    let current: isize = if *index <= isize::MAX as usize {
        *index as isize
    } else {
        0
    };
    let last: isize = if len - 1 <= isize::MAX as usize {
        (len - 1) as isize
    } else {
        0
    };
    let wide: i128 = current as i128 + delta as i128;
    let sum: isize = if wide > isize::MAX as i128 {
        isize::MAX
    } else if wide < isize::MIN as i128 {
        isize::MIN
    } else {
        wide as isize
    };
    let clamped: isize = if sum < 0 {
        0
    } else if sum > last {
        last
    } else {
        sum
    };
    *index = clamped as usize;
}

/// After a move the cursor is on a row of the list.
pub proof fn law_move_index_in_bounds(index: int, len: int, delta: int)
    requires
        len > 0,
        isize::MIN <= delta <= isize::MAX,
        0 <= index,
    ensures
        0 <= moved_index(index, len, delta) < len,
{
}

/// A move by `delta` (other than the two jump values) lands on the row
/// `index + delta`, kept within the list: one row up from any row below the
/// first is the row above it, one row down from any row above the last is
/// the row below it, and a move past either end stops at that end.
pub proof fn law_move_index_steps(index: int, len: int, delta: int)
    requires
        0 < len <= isize::MAX + 1,
        0 <= index <= isize::MAX,
        isize::MIN < delta < isize::MAX,
    ensures
        moved_index(index, len, delta) == (if index + delta < 0 {
            0
        } else if index + delta > len - 1 {
            len - 1
        } else {
            index + delta
        }),
        0 < index < len ==> moved_index(index, len, -1) == index - 1,
        0 <= index < len - 1 ==> moved_index(index, len, 1) == index + 1,
{
}

/// The two jump values go to the first and the last row.
pub proof fn law_move_index_jumps(index: int, len: int)
    requires
        len > 0,
    ensures
        moved_index(index, len, isize::MIN as int) == 0,
        moved_index(index, len, isize::MAX as int) == len - 1,
{
}

/// Moves the selection by `delta` within the visible `indices`.
pub fn move_in_indices(selected: &mut usize, indices: &[usize], delta: isize)
    ensures
        indices@.len() == 0 ==> *final(selected) == 0,
        indices@.len() > 0 ==> ({
            let pos = match position(indices@, *old(selected)) {
                Some(p) => p,
                None => 0,
            };
            *final(selected) == indices@[moved_index(pos, indices@.len() as int, delta as int)]
        }),
{
    if indices.len() == 0 {
        *selected = 0;
        return;
    }
    let position = match index_position(indices, *selected) {
        Some(p) => p,
        None => 0,
    };
    let mut next = position;
    move_index(&mut next, indices.len(), delta);
    proof {
        law_move_index_in_bounds(position as int, indices.len() as int, delta as int);
    }
    *selected = indices[next];
}

/// Keeps a cursor on a row of a list of `len` rows.
pub fn clamp_index(index: &mut usize, len: usize)
    ensures
        *final(index) == (if len == 0 {
            0
        } else if *old(index) >= len {
            (len - 1) as usize
        } else {
            *old(index)
        }),
{
    if len == 0 {
        *index = 0;
    } else if *index >= len {
        *index = len - 1;
    }
}

/// Keeps the selection on one of the visible `indices`: the first one when
/// it is not among them.
pub fn clamp_with_indices(selected: &mut usize, indices: &[usize])
    ensures
        *final(selected) == (if indices@.len() == 0 {
            0
        } else if !indices@.contains(*old(selected)) {
            indices@[0]
        } else {
            *old(selected)
        }),
{
    if indices.len() == 0 {
        *selected = 0;
    } else {
        match index_position(indices, *selected) {
            Some(_) => {
                proof {
                    lemma_position_sound(indices@, *old(selected), 0);
                }
            },
            None => {
                proof {
                    lemma_position_sound(indices@, *old(selected), 0);
                }
                *selected = indices[0];
            },
        }
    }
}

/// Clamping keeps the cursor in the list and clamping twice changes nothing.
pub proof fn law_clamp_index(index: nat, len: nat)
    ensures
        ({
            let once: nat = if len == 0 {
                0
            } else if index >= len {
                (len - 1) as nat
            } else {
                index
            };
            let twice: nat = if len == 0 {
                0
            } else if once >= len {
                (len - 1) as nat
            } else {
                once
            };
            &&& len > 0 ==> once < len
            &&& twice == once
        }),
{
}

} // verus!
