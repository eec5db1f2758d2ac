//! The watcher manager screen: rows grouped into persistent and
//! ephemeral watchers, the cursor over them, and what each row shows.
use vstd::prelude::*;
use vstd::string::StringSliceAdditionalSpecFns;
use vstd::utf8::{decode_utf8, encode_utf8, encode_utf8_decode_utf8, is_char_boundary};

use crate::display::{line_view, plain, Piece, Gruvbox};
use crate::lists::{
    first_selectable_row, has_selectable, is_next_selectable, is_prev_selectable,
    move_selection_down, move_selection_up, selectable,
};
use crate::store::Watcher;
use crate::text::{chars_of, decimal, push_decimal, push_str, split_on, str_eq, string_from};
use crate::watch::split_restart_args;

verus! {

/// A row of the watcher list: a section header (empty for a spacer) or a
/// watcher, by index.
#[derive(Debug)]
pub enum DisplayRow {
    Header(String),
    Entry(usize),
}

/// A row as plain values.
pub enum RowView {
    Header(Seq<char>),
    Entry(usize),
}

impl View for DisplayRow {
    type V = RowView;

    open spec fn view(&self) -> RowView {
        match self {
            DisplayRow::Header(s) => RowView::Header(s@),
            DisplayRow::Entry(i) => RowView::Entry(*i),
        }
    }
}

/// The rows as plain values.
pub open spec fn rows_view(rows: Seq<DisplayRow>) -> Seq<RowView> {
    rows.map_values(|r: DisplayRow| r@)
}

/// The rows as cursor slots: an entry's watcher index, none for headers.
pub open spec fn slots(rows: Seq<DisplayRow>) -> Seq<Option<usize>> {
    rows.map_values(
        |r: DisplayRow|
            match r {
                DisplayRow::Entry(i) => Some(i),
                DisplayRow::Header(_) => None,
            },
    )
}

/// The indices below `n` of the watchers that are (or are not)
/// persistent, in order.
pub open spec fn indices_with(ws: Seq<Watcher>, persistent: bool, n: nat) -> Seq<usize>
    decreases n,
{
    if n == 0 {
        seq![]
    } else {
        let init = indices_with(ws, persistent, (n - 1) as nat);
        if ws[n - 1].persistent == persistent {
            init.push((n - 1) as usize)
        } else {
            init
        }
    }
}

/// The entry rows for watcher indices.
pub open spec fn entry_rows(ix: Seq<usize>) -> Seq<RowView> {
    ix.map_values(|i: usize| RowView::Entry(i))
}

/// The rows of the watcher list: a "Persistent" header with the count and
/// the persistent watchers, then (after a spacer when both groups show)
/// an "Ephemeral" header and the others; an empty group is left out.
pub open spec fn display_rows_of(ws: Seq<Watcher>) -> Seq<RowView> {
    let p = indices_with(ws, true, ws.len());
    let e = indices_with(ws, false, ws.len());
    let first = if p.len() > 0 {
        seq![RowView::Header("🔄 Persistent ("@ + decimal(p.len()) + ")"@)] + entry_rows(p)
    } else {
        seq![]
    };
    let second = if e.len() > 0 {
        (if first.len() > 0 {
            seq![RowView::Header(seq![])]
        } else {
            seq![]
        }) + seq![RowView::Header("⚡ Ephemeral ("@ + decimal(e.len()) + ")"@)] + entry_rows(e)
    } else {
        seq![]
    };
    first + second
}

fn indices_exec(ws: &Vec<Watcher>, persistent: bool) -> (r: Vec<usize>)
    ensures
        r@ == indices_with(ws@, persistent, ws@.len()),
        forall|k: int| 0 <= k < r@.len() ==> (#[trigger] r@[k]) < ws@.len(),
{
    let mut r: Vec<usize> = Vec::new();
    let mut i: usize = 0;
    while i < ws.len()
        invariant
            i <= ws@.len(),
            r@ == indices_with(ws@, persistent, i as nat),
            forall|k: int| 0 <= k < r@.len() ==> (#[trigger] r@[k]) < i,
        decreases ws@.len() - i,
    {
        if ws[i].persistent == persistent {
            r.push(i);
        }
        i = i + 1;
    }
    r
}

fn count_label(a: &str, n: usize, b: &str) -> (s: String)
    ensures
        s@ == a@ + decimal(n as nat) + b@,
{
    let mut v: Vec<char> = Vec::new();
    push_str(&mut v, a);
    push_decimal(&mut v, n as u64);
    push_str(&mut v, b);
    string_from(&v)
}

/// Build grouped display rows: persistent header and items, then
/// ephemeral header and items.
pub fn build_display_rows(ws: &Vec<Watcher>) -> (rows: Vec<DisplayRow>)
    ensures
        rows_view(rows@) == display_rows_of(ws@),
{
    let p = indices_exec(ws, true);
    let e = indices_exec(ws, false);
    let mut rows: Vec<DisplayRow> = Vec::new();
    if p.len() > 0 {
        rows.push(DisplayRow::Header(count_label("🔄 Persistent (", p.len(), ")")));
        let mut k: usize = 0;
        while k < p.len()
            invariant
                k <= p@.len(),
                p@.len() > 0,
                p@ == indices_with(ws@, true, ws@.len()),
                forall|j: int| 0 <= j < p@.len() ==> (#[trigger] p@[j]) < ws@.len(),
                rows_view(rows@) == seq![RowView::Header("🔄 Persistent ("@ + decimal(p@.len()) + ")"@)]
                    + entry_rows(p@.take(k as int)),
            decreases p@.len() - k,
        {
            let ghost before = rows_view(rows@);
            rows.push(DisplayRow::Entry(p[k]));
            assert(rows_view(rows@) =~= before.push(RowView::Entry(p@[k as int])));
            assert(entry_rows(p@.take(k + 1)) =~= entry_rows(p@.take(k as int)).push(RowView::Entry(p@[k as int])));
            k = k + 1;
        }
        assert(p@.take(k as int) =~= p@);
    }
    let ghost first = rows_view(rows@);
    assert(first == (if p@.len() > 0 {
        seq![RowView::Header("🔄 Persistent ("@ + decimal(p@.len()) + ")"@)] + entry_rows(p@)
    } else {
        seq![]
    }));
    if e.len() > 0 {
        if rows.len() > 0 {
            let empty = String::new();
            assert(empty@ =~= Seq::<char>::empty());
            rows.push(DisplayRow::Header(empty));
        }
        rows.push(DisplayRow::Header(count_label("⚡ Ephemeral (", e.len(), ")")));
        let ghost head = rows_view(rows@);
        assert(head =~= first + (if first.len() > 0 {
            seq![RowView::Header(seq![])]
        } else {
            seq![]
        }) + seq![RowView::Header("⚡ Ephemeral ("@ + decimal(e@.len()) + ")"@)]);
        let mut k: usize = 0;
        while k < e.len()
            invariant
                k <= e@.len(),
                forall|j: int| 0 <= j < e@.len() ==> (#[trigger] e@[j]) < ws@.len(),
                rows_view(rows@) == head + entry_rows(e@.take(k as int)),
            decreases e@.len() - k,
        {
            let ghost before = rows_view(rows@);
            rows.push(DisplayRow::Entry(e[k]));
            assert(rows_view(rows@) =~= before.push(RowView::Entry(e@[k as int])));
            assert(entry_rows(e@.take(k + 1)) =~= entry_rows(e@.take(k as int)).push(RowView::Entry(e@[k as int])));
            k = k + 1;
        }
        assert(e@.take(k as int) =~= e@);
    }
    assert(rows_view(rows@) =~= display_rows_of(ws@));
    rows
}

fn slot_vec(rows: &Vec<DisplayRow>) -> (r: Vec<Option<usize>>)
    ensures
        r@ == slots(rows@),
{
    let mut r: Vec<Option<usize>> = Vec::new();
    let mut i: usize = 0;
    while i < rows.len()
        invariant
            i <= rows@.len(),
            r@ == slots(rows@).take(i as int),
        decreases rows@.len() - i,
    {
        let s = match &rows[i] {
            DisplayRow::Entry(j) => Some(*j),
            DisplayRow::Header(_) => None,
        };
        r.push(s);
        i = i + 1;
        assert(r@ =~= slots(rows@).take(i as int));
    }
    assert(slots(rows@).take(i as int) =~= slots(rows@));
    r
}

/// Where the cursor search starts from when the cursor `current` lies
/// past the end of `len` rows: the search for the next entry starts after
/// the last row (at row 0); the search upwards starts at the last row
/// when `current` is just past the end, else at row 0 and then round from
/// the bottom.
pub open spec fn past_end_start(len: int, current: int, direction: i32) -> int {
    if direction == 1 {
        len - 1
    } else if current == len {
        0
    } else if len >= 2 {
        1
    } else {
        0
    }
}

/// Find the next selectable (entry) row in a direction (1 down, -1 up),
/// wrapping round; stays put when there is none; 0 for an empty list. A
/// cursor past the end (where the search works as from `past_end_start`)
/// is only met while there are entries: without one the search would
/// never end.
pub fn next_selectable(rows: &Vec<DisplayRow>, current: usize, direction: i32) -> (r: usize)
    requires
        rows@.len() == 0 || current < rows@.len() || (has_selectable(slots(rows@)) && current
            < i32::MAX),
        direction == 1 || direction == -1,
    ensures
        rows@.len() == 0 ==> r == 0,
        rows@.len() > 0 && !has_selectable(slots(rows@)) ==> r == current,
        rows@.len() > 0 && has_selectable(slots(rows@)) && current < rows@.len() && direction == 1
            ==> is_next_selectable(slots(rows@), current as int, r as int),
        rows@.len() > 0 && has_selectable(slots(rows@)) && current < rows@.len() && direction == -1
            ==> is_prev_selectable(slots(rows@), current as int, r as int),
        rows@.len() > 0 && current >= rows@.len() && direction == 1 ==> is_next_selectable(
            slots(rows@),
            past_end_start(rows@.len() as int, current as int, direction),
            r as int,
        ),
        rows@.len() > 0 && current >= rows@.len() && direction == -1 ==> is_prev_selectable(
            slots(rows@),
            past_end_start(rows@.len() as int, current as int, direction),
            r as int,
        ),
{
    if rows.len() == 0 {
        return 0;
    }
    let s = slot_vec(rows);
    match first_selectable_row(&s) {
        None => current,
        Some(_) => {
            let start: usize = if current < rows.len() {
                current
            } else if direction == 1 {
                rows.len() - 1
            } else if current == rows.len() {
                0
            } else if rows.len() >= 2 {
                1
            } else {
                0
            };
            let m = if direction == 1 {
                move_selection_down(&s, Some(start))
            } else {
                move_selection_up(&s, Some(start))
            };
            match m {
                Some(j) => j,
                None => current,
            }
        },
    }
}

/// Find the first selectable row.
pub fn first_selectable(rows: &Vec<DisplayRow>) -> (r: Option<usize>)
    ensures
        match r {
            Some(j) => selectable(slots(rows@), j as int) && forall|k: int|
                0 <= k < j ==> !selectable(slots(rows@), k),
            None => !has_selectable(slots(rows@)),
        },
{
    let s = slot_vec(rows);
    first_selectable_row(&s)
}

/// The watcher on the selected row, by index.
pub open spec fn selected_index_of(rows: Seq<DisplayRow>, sel: Option<usize>) -> Option<usize> {
    match sel {
        Some(i) => if i < rows.len() {
            slots(rows)[i as int]
        } else {
            None
        },
        None => None,
    }
}

/// The watcher on the selected row, by index.
pub fn selected_index(rows: &Vec<DisplayRow>, sel: Option<usize>) -> (r: Option<usize>)
    ensures
        r == selected_index_of(rows@, sel),
{
    match sel {
        Some(i) => if i < rows.len() {
            match &rows[i] {
                DisplayRow::Entry(j) => Some(*j),
                DisplayRow::Header(_) => None,
            }
        } else {
            None
        },
        None => None,
    }
}

/// The selection after the list was rebuilt by the periodic refresh: the
/// row of the watcher that was selected (by index), else the first
/// entry.
pub fn reselect(old_rows: &Vec<DisplayRow>, sel: Option<usize>, rows: &Vec<DisplayRow>) -> (r: Option<usize>)
    ensures
        match selected_index_of(old_rows@, sel) {
            Some(w) => match r {
                Some(j) => (selectable(slots(rows@), j as int) && slots(rows@)[j as int] == Some(w)
                    && forall|k: int| 0 <= k < j ==> slots(rows@)[k] != Some(w)) || (!exists|k: int|
                    0 <= k < rows@.len() && slots(rows@)[k] == Some(w)) && selectable(
                    slots(rows@),
                    j as int,
                ) && forall|k: int| 0 <= k < j ==> !selectable(slots(rows@), k),
                None => !has_selectable(slots(rows@)),
            },
            None => match r {
                Some(j) => selectable(slots(rows@), j as int) && forall|k: int|
                    0 <= k < j ==> !selectable(slots(rows@), k),
                None => !has_selectable(slots(rows@)),
            },
        },
{
    match selected_index(old_rows, sel) {
        Some(w) => {
            let mut k: usize = 0;
            while k < rows.len()
                invariant
                    k <= rows@.len(),
                    selected_index_of(old_rows@, sel) == Some(w),
                    forall|m: int| 0 <= m < k ==> slots(rows@)[m] != Some(w),
                decreases rows@.len() - k,
            {
                let hit = match &rows[k] {
                    DisplayRow::Entry(j) => *j == w,
                    DisplayRow::Header(_) => false,
                };
                if hit {
                    assert(slots(rows@)[k as int] == Some(w));
                    assert(selectable(slots(rows@), k as int));
                    return Some(k);
                }
                k = k + 1;
            }
            assert(!exists|m: int| 0 <= m < rows@.len() && slots(rows@)[m] == Some(w));
            first_selectable(rows)
        },
        None => first_selectable(rows),
    }
}

/// The selection after a refresh caused by a key: kept when it rests on
/// an entry (or nothing was selected and the first row is one), else the
/// first entry; none without entries.
pub open spec fn refreshed_selection_of(rows: Seq<DisplayRow>, sel: Option<usize>, first: Option<usize>) -> Option<usize> {
    match first {
        Some(f) => {
            let cur = match sel {
                Some(s) => s,
                None => 0,
            };
            if cur >= rows.len() || slots(rows)[cur as int] is None {
                Some(f)
            } else {
                sel
            }
        },
        None => None,
    }
}

/// The selection after a refresh caused by a key.
pub fn refreshed_selection(rows: &Vec<DisplayRow>, sel: Option<usize>) -> (r: Option<usize>)
    ensures
        exists|f: Option<usize>|
            (match f {
                Some(j) => selectable(slots(rows@), j as int) && forall|k: int|
                    0 <= k < j ==> !selectable(slots(rows@), k),
                None => !has_selectable(slots(rows@)),
            }) && r == refreshed_selection_of(rows@, sel, f),
{
    let first = first_selectable(rows);
    let r = match first {
        Some(f) => {
            let cur = match sel {
                Some(s) => s,
                None => 0,
            };
            let on_entry = cur < rows.len() && match &rows[cur] {
                DisplayRow::Entry(_) => true,
                DisplayRow::Header(_) => false,
            };
            if !on_entry {
                Some(f)
            } else {
                sel
            }
        },
        None => None,
    };
    assert(r == refreshed_selection_of(rows@, sel, first));
    r
}

// ─── What rows show ──────────────────────────────────────────────

/// The status label and tone of a watcher: running (alive or dead), done,
/// stopped, else its status in gray.
pub open spec fn status_display_of(status: Seq<char>, alive: bool) -> (Seq<char>, Gruvbox) {
    if status == "running"@ {
        if alive {
            ("▶ running"@, Gruvbox::Green)
        } else {
            ("✘ dead"@, Gruvbox::Red)
        }
    } else if status == "completed"@ {
        ("✔ done"@, Gruvbox::Aqua)
    } else if status == "stopped"@ {
        ("⏹ stopped"@, Gruvbox::Yellow)
    } else {
        (status, Gruvbox::Gray)
    }
}

/// The status label and tone of a watcher whose process lives or not.
pub fn status_display(status: &str, alive: bool) -> (r: (String, Gruvbox))
    ensures
        (r.0@, r.1) == status_display_of(status@, alive),
{
    if str_eq(status, "running") {
        if alive {
            ("▶ running".to_string(), Gruvbox::Green)
        } else {
            ("✘ dead".to_string(), Gruvbox::Red)
        }
    } else if str_eq(status, "completed") {
        ("✔ done".to_string(), Gruvbox::Aqua)
    } else if str_eq(status, "stopped") {
        ("⏹ stopped".to_string(), Gruvbox::Yellow)
    } else {
        (status.to_string(), Gruvbox::Gray)
    }
}

/// The icon and tone of a watcher type.
pub open spec fn type_icon_of(t: Seq<char>) -> (Seq<char>, Gruvbox) {
    if t == "pipeline"@ {
        ("⚙"@, Gruvbox::Blue)
    } else if t == "pr-merge"@ {
        ("⎇"@, Gruvbox::Purple)
    } else if t == "pr-comments"@ {
        ("💬"@, Gruvbox::Yellow)
    } else if t == "sonarqube"@ {
        ("🔍"@, Gruvbox::Aqua)
    } else if t == "custom"@ {
        ("⚡"@, Gruvbox::Orange)
    } else {
        ("?"@, Gruvbox::Gray)
    }
}

/// The icon and tone of a watcher type.
pub fn type_icon(t: &str) -> (r: (&'static str, Gruvbox))
    ensures
        (r.0@, r.1) == type_icon_of(t@),
{
    if str_eq(t, "pipeline") {
        ("⚙", Gruvbox::Blue)
    } else if str_eq(t, "pr-merge") {
        ("⎇", Gruvbox::Purple)
    } else if str_eq(t, "pr-comments") {
        ("💬", Gruvbox::Yellow)
    } else if str_eq(t, "sonarqube") {
        ("🔍", Gruvbox::Aqua)
    } else if str_eq(t, "custom") {
        ("⚡", Gruvbox::Orange)
    } else {
        ("?", Gruvbox::Gray)
    }
}

/// The title of the watcher screen: the counts of active and all
/// watchers when there are any.
pub open spec fn watchers_title_of(active: nat, total: nat) -> Seq<char> {
    if total == 0 {
        "👁 Watchers"@
    } else {
        "👁 Watchers  ("@ + decimal(active) + " active, "@ + decimal(total) + " total)"@
    }
}

/// The title of the watcher screen.
pub fn watchers_title(active: usize, total: usize) -> (s: String)
    ensures
        s@ == watchers_title_of(active as nat, total as nat),
{
    if total == 0 {
        "👁 Watchers".to_string()
    } else {
        let mut v: Vec<char> = Vec::new();
        push_str(&mut v, "👁 Watchers  (");
        push_decimal(&mut v, active as u64);
        push_str(&mut v, " active, ");
        push_decimal(&mut v, total as u64);
        push_str(&mut v, " total)");
        string_from(&v)
    }
}

/// How many watchers are running with a live process.
pub open spec fn active_count_of(ws: Seq<Watcher>, alive: Seq<bool>, n: nat) -> nat
    decreases n,
{
    if n == 0 {
        0
    } else {
        active_count_of(ws, alive, (n - 1) as nat) + if ws[n - 1].status@ == "running"@ && alive[n
            - 1] {
            1nat
        } else {
            0nat
        }
    }
}

/// How many watchers are running with a live process (`alive[i]` tells
/// whether watcher `i`'s process lives).
pub fn active_count(ws: &Vec<Watcher>, alive: &Vec<bool>) -> (r: usize)
    requires
        ws@.len() == alive@.len(),
    ensures
        r == active_count_of(ws@, alive@, ws@.len()),
{
    let mut r: usize = 0;
    let mut i: usize = 0;
    while i < ws.len()
        invariant
            i <= ws@.len(),
            ws@.len() == alive@.len(),
            r == active_count_of(ws@, alive@, i as nat),
            r <= i,
        decreases ws@.len() - i,
    {
        if str_eq(ws[i].status.as_str(), "running") && alive[i] {
            r = r + 1;
        }
        i = i + 1;
    }
    r
}

/// `s` padded with spaces on the right to `width` characters
/// (`format!("{:<width$}")`).
pub open spec fn pad_right(s: Seq<char>, width: nat) -> Seq<char> {
    if s.len() >= width {
        s
    } else {
        s + Seq::new((width - s.len()) as nat, |i: int| ' ')
    }
}

fn padded(s: &str, width: usize) -> (r: String)
    ensures
        r@ == pad_right(s@, width as nat),
{
    let mut v = chars_of(s);
    let ghost n = v@.len();
    assert(v@ =~= s@ + Seq::new(0, |i: int| ' '));
    while v.len() < width
        invariant
            v@.len() >= n,
            n == s@.len(),
            n < width ==> v@.len() <= width,
            n >= width ==> v@.len() == n,
            v@ == s@ + Seq::new((v@.len() - n) as nat, |i: int| ' '),
        decreases width - v@.len(),
    {
        v.push(' ');
        assert(v@ =~= s@ + Seq::new((v@.len() - n) as nat, |i: int| ' '));
    }
    proof {
        if s@.len() >= width {
            assert(v@ =~= s@);
        }
    }
    string_from(&v)
}

/// The first `n` bytes of `s` can be taken: it is no longer, or byte `n`
/// starts a character.
pub open spec fn can_take_bytes(s: Seq<char>, n: nat) -> bool {
    &&& encode_utf8(s).len() <= usize::MAX
    &&& (encode_utf8(s).len() <= n || is_char_boundary(encode_utf8(s), n as int))
}

/// The first `n` bytes of `s` (all of it when shorter).
pub open spec fn take_bytes(s: Seq<char>, n: nat) -> Seq<char> {
    if encode_utf8(s).len() <= n {
        s
    } else {
        decode_utf8(encode_utf8(s).subrange(0, n as int))
    }
}

/// The first `n` bytes of `s` (`&s[..n.min(s.len())]`).
pub fn prefix_bytes(s: &str, n: usize) -> (r: String)
    requires
        can_take_bytes(s@, n as nat),
    ensures
        r@ == take_bytes(s@, n as nat),
{
    if s.len() <= n {
        s.to_owned()
    } else {
        let (head, _tail) = s.split_at(n);
        proof {
            encode_utf8_decode_utf8(head@);
            assert(head.spec_bytes() == encode_utf8(head@));
        }
        head.to_owned()
    }
}

/// The pieces of a watcher's row: type icon, id (20 columns), status (12
/// columns), its last output when there is one, its type and when it
/// started (the first 16 bytes).
pub open spec fn watcher_row_view(w: Watcher, alive: bool) -> Seq<(Seq<char>, Option<Gruvbox>, bool, bool)> {
    let (icon, icon_tone) = type_icon_of(w.watcher_type@);
    let (status, status_tone) = status_display_of(w.status@, alive);
    let out = match w.last_output {
        Some(o) => if o@.len() > 0 {
            seq![plain("  "@ + o@ + "  "@, Some(Gruvbox::Aqua))]
        } else {
            seq![]
        },
        None => seq![],
    };
    seq![
        plain("    "@ + icon + " "@, Some(icon_tone)),
        (pad_right(w.id@, 20), Some(Gruvbox::FgBright), true, false),
        plain(pad_right(status, 12), Some(status_tone)),
    ] + out + seq![
        plain("  "@ + w.watcher_type@ + "  "@, Some(Gruvbox::DarkGray)),
        plain(take_bytes(w.started_at@, 16), Some(Gruvbox::DarkGray)),
    ]
}

fn piece_of(text: String, tone: Option<Gruvbox>) -> (p: Piece)
    ensures
        (p.text@, p.tone, p.bold, p.dim) == plain(text@, tone),
{
    Piece { text, tone, bold: false, dim: false }
}

fn surrounded(a: &str, s: &str, b: &str) -> (r: String)
    ensures
        r@ == a@ + s@ + b@,
{
    let mut v: Vec<char> = Vec::new();
    push_str(&mut v, a);
    push_str(&mut v, s);
    push_str(&mut v, b);
    string_from(&v)
}

/// The pieces of a watcher's row.
pub fn watcher_row(w: &Watcher, alive: bool) -> (r: Vec<Piece>)
    requires
        can_take_bytes(w.started_at@, 16),
    ensures
        line_view(r@) == watcher_row_view(*w, alive),
{
    let (icon, icon_tone) = type_icon(w.watcher_type.as_str());
    let (status, status_tone) = status_display(w.status.as_str(), alive);
    let mut r: Vec<Piece> = Vec::new();
    r.push(piece_of(surrounded("    ", icon, " "), Some(icon_tone)));
    r.push(Piece { text: padded(w.id.as_str(), 20), tone: Some(Gruvbox::FgBright), bold: true, dim: false });
    r.push(piece_of(padded(status.as_str(), 12), Some(status_tone)));
    let ghost head = line_view(r@);
    match &w.last_output {
        Some(o) => {
            if !o.as_str().is_empty() {
                r.push(piece_of(surrounded("  ", o.as_str(), "  "), Some(Gruvbox::Aqua)));
            }
        },
        None => {},
    }
    let ghost mid = line_view(r@);
    r.push(piece_of(surrounded("  ", w.watcher_type.as_str(), "  "), Some(Gruvbox::DarkGray)));
    r.push(piece_of(prefix_bytes(w.started_at.as_str(), 16), Some(Gruvbox::DarkGray)));
    let ghost lo = w.last_output;
    proof {
        let out: Seq<(Seq<char>, Option<Gruvbox>, bool, bool)> = match lo {
            Some(o) => if o@.len() > 0 {
                seq![plain("  "@ + o@ + "  "@, Some(Gruvbox::Aqua))]
            } else {
                seq![]
            },
            None => seq![],
        };
        assert(mid =~= head + out);
    }
    assert(line_view(r@) =~= watcher_row_view(*w, alive));
    r
}

/// Whether the manager offers to restart a watcher: it has stored
/// arguments and its process is gone.
pub open spec fn can_restart_of(w: Watcher, alive: bool) -> bool {
    w.restart_args is Some && !alive
}

/// Whether the manager offers to restart a watcher.
pub fn can_restart(w: &Watcher, alive: bool) -> (b: bool)
    ensures
        b == can_restart_of(*w, alive),
{
    w.restart_args.is_some() && !alive
}

/// The arguments that restart a watcher from the manager: its stored
/// arguments split at NUL, or the error when none were stored.
pub fn restart_command(w: &Watcher) -> (r: Result<Vec<String>, String>)
    ensures
        match r {
            Ok(args) => w.restart_args matches Some(a) && args@.map_values(|s: String| s@) == split_on(
                a@,
                '\0',
            ),
            Err(e) => w.restart_args is None && e@ == "No restart args stored for watcher '"@ + w.id@
                + "'"@,
        },
{
    match &w.restart_args {
        Some(a) => Ok(split_restart_args(a.as_str())),
        None => Err(surrounded("No restart args stored for watcher '", w.id.as_str(), "'")),
    }
}

} // verus!
