//! Grouped selection lists: rows are either section headers (or spacers)
//! or entries, and the cursor only ever rests on entries.
use vstd::prelude::*;

verus! {

/// Row `j` of `rows` is an entry.
pub open spec fn selectable(rows: Seq<Option<usize>>, j: int) -> bool {
    0 <= j < rows.len() && rows[j] is Some
}

/// Some row is an entry.
pub open spec fn has_selectable(rows: Seq<Option<usize>>) -> bool {
    exists|j: int| selectable(rows, j)
}

/// The row `t` steps before row `i`, going round from the top to the
/// bottom.
pub open spec fn step_back(len: int, i: int, t: int) -> int {
    if i - t >= 0 { i - t } else { i - t + len }
}

/// The row `t` steps after row `i`, going round from the bottom to the
/// top.
pub open spec fn step_forward(len: int, i: int, t: int) -> int {
    if i + t < len { i + t } else { i + t - len }
}

/// `j` is the first entry met when moving up from `i`, round the list.
pub open spec fn is_prev_selectable(rows: Seq<Option<usize>>, i: int, j: int) -> bool {
    exists|t: int|
        1 <= t <= rows.len() && j == step_back(rows.len() as int, i, t) && selectable(rows, j)
            && forall|s: int|
            1 <= s < t ==> !selectable(rows, #[trigger] step_back(rows.len() as int, i, s))
}

/// `j` is the first entry met when moving down from `i`, round the list.
pub open spec fn is_next_selectable(rows: Seq<Option<usize>>, i: int, j: int) -> bool {
    exists|t: int|
        1 <= t <= rows.len() && j == step_forward(rows.len() as int, i, t) && selectable(rows, j)
            && forall|s: int|
            1 <= s < t ==> !selectable(rows, #[trigger] step_forward(rows.len() as int, i, s))
}

/// The first entry row, if any (`position(is_some)`).
pub fn first_selectable_row(rows: &Vec<Option<usize>>) -> (r: Option<usize>)
    ensures
        match r {
            Some(j) => selectable(rows@, j as int) && forall|k: int|
                0 <= k < j ==> !selectable(rows@, k),
            None => !has_selectable(rows@),
        },
{
    let mut i: usize = 0;
    while i < rows.len()
        invariant
            i <= rows@.len(),
            forall|k: int| 0 <= k < i ==> !selectable(rows@, k),
        decreases rows@.len() - i,
    {
        if rows[i].is_some() {
            return Some(i);
        }
        i = i + 1;
    }
    None
}

/// The last entry row, if any (`rposition(is_some)`).
pub fn last_selectable_row(rows: &Vec<Option<usize>>) -> (r: Option<usize>)
    ensures
        match r {
            Some(j) => selectable(rows@, j as int) && forall|k: int|
                j < k < rows@.len() ==> !selectable(rows@, k),
            None => !has_selectable(rows@),
        },
{
    let mut i: usize = rows.len();
    while i > 0
        invariant
            i <= rows@.len(),
            forall|k: int| i <= k < rows@.len() ==> !selectable(rows@, k),
        decreases i,
    {
        if rows[i - 1].is_some() {
            return Some(i - 1);
        }
        i = i - 1;
    }
    None
}

/// Moves the cursor up to the nearest entry above, wrapping from the top
/// to the bottom; the cursor starts at row 0 when nothing is selected.
/// An empty list keeps the selection.
pub fn move_selection_up(rows: &Vec<Option<usize>>, selected: Option<usize>) -> (r: Option<usize>)
    requires
        rows@.len() == 0 || has_selectable(rows@),
        selected matches Some(s) ==> s < rows@.len(),
    ensures
        rows@.len() == 0 ==> r == selected,
        rows@.len() > 0 ==> (r matches Some(j) && is_prev_selectable(
            rows@,
            match selected {
                Some(s) => s as int,
                None => 0,
            },
            j as int,
        )),
{
    let len = rows.len();
    if len == 0 {
        return selected;
    }
    let start: usize = match selected {
        Some(s) => s,
        None => 0,
    };
    let mut i: usize = start;
    let mut t: usize = 0;
    let ghost w = choose|j: int| selectable(rows@, j);
    loop
        invariant
            len == rows@.len(),
            len > 0,
            start < len,
            start as int == match selected {
                Some(s) => s as int,
                None => 0,
            },
            i < len,
            t <= len,
            i as int == step_back(len as int, start as int, t as int),
            selectable(rows@, w),
            forall|s: int| 1 <= s <= t ==> !selectable(rows@, #[trigger] step_back(len as int, start as int, s)),
        decreases len - t,
    {
        proof {
            if t == len {
                let s2 = if start > w { start - w } else { start - w + len };
                assert(step_back(len as int, start as int, s2) == w);
                assert(false);
            }
        }
        let ni: usize = if i == 0 { len - 1 } else { i - 1 };
        assert(ni as int == step_back(len as int, start as int, t + 1));
        i = ni;
        t = t + 1;
        if rows[i].is_some() {
            proof {
                let tt = t as int;
                assert(forall|s: int| 1 <= s < tt ==> !selectable(rows@, #[trigger] step_back(len as int, start as int, s)));
                assert(is_prev_selectable(rows@, start as int, i as int));
            }
            return Some(i);
        }
    }
}

/// Moves the cursor down to the nearest entry below, wrapping from the
/// bottom to the top; the cursor starts at row 0 when nothing is
/// selected. An empty list keeps the selection.
pub fn move_selection_down(rows: &Vec<Option<usize>>, selected: Option<usize>) -> (r: Option<usize>)
    requires
        rows@.len() == 0 || has_selectable(rows@),
        selected matches Some(s) ==> s < rows@.len(),
    ensures
        rows@.len() == 0 ==> r == selected,
        rows@.len() > 0 ==> (r matches Some(j) && is_next_selectable(
            rows@,
            match selected {
                Some(s) => s as int,
                None => 0,
            },
            j as int,
        )),
{
    let len = rows.len();
    if len == 0 {
        return selected;
    }
    let start: usize = match selected {
        Some(s) => s,
        None => 0,
    };
    let mut i: usize = start;
    let mut t: usize = 0;
    let ghost w = choose|j: int| selectable(rows@, j);
    loop
        invariant
            len == rows@.len(),
            len > 0,
            start < len,
            start as int == match selected {
                Some(s) => s as int,
                None => 0,
            },
            i < len,
            t <= len,
            i as int == step_forward(len as int, start as int, t as int),
            selectable(rows@, w),
            forall|s: int| 1 <= s <= t ==> !selectable(rows@, #[trigger] step_forward(len as int, start as int, s)),
        decreases len - t,
    {
        proof {
            if t == len {
                let s2 = if w > start { w - start } else { w - start + len };
                assert(step_forward(len as int, start as int, s2) == w);
                assert(false);
            }
        }
        let ni: usize = if i + 1 < len { i + 1 } else { 0 };
        assert(ni as int == step_forward(len as int, start as int, t + 1));
        i = ni;
        t = t + 1;
        if rows[i].is_some() {
            proof {
                let tt = t as int;
                assert(forall|s: int| 1 <= s < tt ==> !selectable(rows@, #[trigger] step_forward(len as int, start as int, s)));
                assert(is_next_selectable(rows@, start as int, i as int));
            }
            return Some(i);
        }
    }
}

/// Moving down from an entry and then up comes back to it.
pub proof fn lemma_down_then_up(rows: Seq<Option<usize>>, i: int, j: int, k: int)
    requires
        selectable(rows, i),
        is_next_selectable(rows, i, j),
        is_prev_selectable(rows, j, k),
    ensures
        k == i,
{
    let len = rows.len() as int;
    let t = choose|t: int|
        1 <= t <= len && j == step_forward(len, i, t) && selectable(rows, j) && forall|s: int|
            1 <= s < t ==> !selectable(rows, #[trigger] step_forward(len, i, s));
    let u = choose|u: int|
        1 <= u <= len && k == step_back(len, j, u) && selectable(rows, k) && forall|s: int|
            1 <= s < u ==> !selectable(rows, #[trigger] step_back(len, j, s));
    if u < t {
        assert(step_back(len, j, u) == step_forward(len, i, t - u));
        assert(!selectable(rows, step_forward(len, i, t - u)));
    } else if u > t {
        assert(step_back(len, j, t) == i);
        assert(!selectable(rows, step_back(len, j, t)));
    } else {
        assert(step_back(len, j, u) == i);
    }
}

/// Moves a plain list cursor up, wrapping from the top to the bottom (the
/// dashboard, the notification center and list pickers); starts at 0
/// when nothing is selected; an empty list keeps the selection.
pub fn wrap_up(len: usize, selected: Option<usize>) -> (r: Option<usize>)
    ensures
        len == 0 ==> r == selected,
        len > 0 ==> r == Some(
            (match selected {
                Some(s) => if s == 0 { (len - 1) as usize } else { (s - 1) as usize },
                None => (len - 1) as usize,
            }),
        ),
{
    if len == 0 {
        return selected;
    }
    let i = match selected {
        Some(s) => s,
        None => 0,
    };
    Some(if i == 0 { len - 1 } else { i - 1 })
}

/// Moves a plain list cursor down, wrapping from the bottom to the top;
/// starts at 0 when nothing is selected; an empty list keeps the
/// selection.
pub fn wrap_down(len: usize, selected: Option<usize>) -> (r: Option<usize>)
    requires
        selected matches Some(s) ==> s < usize::MAX,
    ensures
        len == 0 ==> r == selected,
        len > 0 ==> r == Some(
            wrap_down_spec(
                len,
                match selected {
                    Some(s) => s,
                    None => 0,
                },
            ),
        ),
{
    if len == 0 {
        return selected;
    }
    let i = match selected {
        Some(s) => s,
        None => 0,
    };
    let r = (i + 1) % len;
    proof {
        if i + 1 < len {
            vstd::arithmetic::div_mod::lemma_small_mod((i + 1) as nat, len as nat);
        } else if i + 1 == len {
            vstd::arithmetic::div_mod::lemma_mod_self_0(len as int);
        }
    }
    Some(r)
}

/// Where `wrap_down` moves the row `s`: one down, from the last row to
/// the first.
pub open spec fn wrap_down_spec(len: usize, s: usize) -> usize {
    if s + 1 < len {
        (s + 1) as usize
    } else if s + 1 == len {
        0
    } else {
        ((s + 1) % (len as int)) as usize
    }
}

/// On a plain list, moving down then up returns to the same row.
pub proof fn lemma_wrap_down_up(len: usize, i: usize)
    requires
        i < len,
    ensures
        wrap_up_spec(len, wrap_down_spec(len, i)) == i,
{
}

/// Where `wrap_up` moves a selected row `s < len`.
pub open spec fn wrap_up_spec(len: usize, s: usize) -> usize {
    if s == 0 { (len - 1) as usize } else { (s - 1) as usize }
}

/// Selects `row` when it is an entry; otherwise the selection stays.
pub fn select_row_if_valid(rows: &Vec<Option<usize>>, row: usize, selected: Option<usize>) -> (r:
    Option<usize>)
    ensures
        r == if selectable(rows@, row as int) { Some(row) } else { selected },
{
    if row < rows.len() && rows[row].is_some() {
        Some(row)
    } else {
        selected
    }
}

/// The list row under a click at screen row `row`, for a list drawn from
/// screen row `top` over `height` rows and scrolled by `offset` rows;
/// `None` for a click outside the list.
pub fn clicked_row(row: u16, top: u16, height: u16, offset: usize) -> (r: Option<usize>)
    requires
        top + height <= u16::MAX,
        top <= row < top + height ==> row - top + offset <= usize::MAX,
    ensures
        r == if top <= row < top + height { Some((row - top + offset) as usize) } else { None::<usize> },
{
    if row >= top && row < top + height {
        Some((row - top) as usize + offset)
    } else {
        None
    }
}

/// What a row of a grouped list shows.
#[derive(Debug, Clone, Copy, PartialEq, Eq, Structural)]
pub enum RowKind {
    /// The entry with this index.
    Entry(usize),
    /// The header of the group of the entry with this index (the entry
    /// on the next row; 0 when no entry follows).
    Header(usize),
    /// The blank line before a header.
    Spacer,
}

/// What row `i` of `rows` shows: an entry row its entry; an empty row
/// followed by another empty row is a spacer, else it heads the group of
/// the entry below it.
pub open spec fn row_kind_of(rows: Seq<Option<usize>>, i: int) -> RowKind {
    match rows[i] {
        Some(x) => RowKind::Entry(x),
        None => if i + 1 < rows.len() && rows[i + 1] is None {
            RowKind::Spacer
        } else if i + 1 < rows.len() {
            RowKind::Header(rows[i + 1]->0)
        } else {
            RowKind::Header(0)
        },
    }
}

/// What each row of a grouped list shows.
pub fn row_kinds(rows: &Vec<Option<usize>>) -> (r: Vec<RowKind>)
    ensures
        r@.len() == rows@.len(),
        forall|i: int| 0 <= i < rows@.len() ==> (#[trigger] r@[i]) == row_kind_of(rows@, i),
{
    let mut r: Vec<RowKind> = Vec::new();
    let mut i: usize = 0;
    while i < rows.len()
        invariant
            i <= rows@.len(),
            r@.len() == i,
            forall|k: int| 0 <= k < i ==> (#[trigger] r@[k]) == row_kind_of(rows@, k),
        decreases rows@.len() - i,
    {
        let kind = match rows[i] {
            Some(x) => RowKind::Entry(x),
            None => if i + 1 < rows.len() {
                match rows[i + 1] {
                    None => RowKind::Spacer,
                    Some(x) => RowKind::Header(x),
                }
            } else {
                RowKind::Header(0)
            },
        };
        r.push(kind);
        i = i + 1;
    }
    r
}

} // verus!
