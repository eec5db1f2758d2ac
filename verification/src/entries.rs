//! The entries of the feature and task selectors and of the dashboard:
//! grouping, sorting, filtering into visual rows.
use vstd::prelude::*;
use vstd::utf8::encode_utf8;

use crate::config::{clone_opt, WorkItem};
use crate::fuzzy::{fuzzy_inputs_ok, fuzzy_match, fuzzy_score, is_ranking, ranks_before};
use crate::lists::{has_selectable, row_kind_of, selectable, RowKind};
use crate::order::{lex_le, lex_lt, lemma_lex_asymmetric, lemma_lex_total, lemma_lex_transitive, text_lt};
use crate::text::{chars_of, views};

verus! {

/// The sections of the feature selector, in display order.
#[derive(Debug, Clone, Copy, PartialEq, Eq, Structural)]
pub enum FeatureGroup {
    /// Session linked to an AzDo feature
    Linked,
    /// AzDo feature not yet created as a session
    AzdoOnly,
    /// Free session with no AzDo link
    Free,
}

/// The sections of the task selector, in display order.
#[derive(Debug, Clone, Copy, PartialEq, Eq, Structural)]
pub enum TaskGroup {
    /// Window linked to a Bug
    Bug,
    /// Window linked to a User Story
    UserStory,
    /// Window linked to a Task work item
    Task,
    /// Free window with no AzDo link
    Free,
}

/// A row of the feature selector.
#[derive(Debug, Clone)]
pub struct FeatureEntry {
    pub name: String,
    pub group: FeatureGroup,
    pub session_exists: bool,
    pub window_count: usize,
    pub work_item: Option<WorkItem>,
}

/// A row of the task selector.
#[derive(Debug, Clone)]
pub struct TaskEntry {
    pub name: String,
    pub group: TaskGroup,
    pub window_exists: bool,
    pub window_index: Option<usize>,
    pub work_item: Option<WorkItem>,
    pub copilot_session_id: Option<String>,
}

/// A row of the dashboard.
#[derive(Debug, Clone)]
pub struct DashboardEntry {
    pub session_name: String,
    pub window_count: usize,
    pub attached: bool,
    pub windows: Vec<String>,
    pub work_item_id: Option<u64>,
}

/// The position of a feature group in display order.
pub open spec fn feature_rank(g: FeatureGroup) -> u8 {
    match g {
        FeatureGroup::Linked => 0,
        FeatureGroup::AzdoOnly => 1,
        FeatureGroup::Free => 2,
    }
}

/// The position of a task group in display order.
pub open spec fn task_rank(g: TaskGroup) -> u8 {
    match g {
        TaskGroup::Bug => 0,
        TaskGroup::UserStory => 1,
        TaskGroup::Task => 2,
        TaskGroup::Free => 3,
    }
}

fn feature_rank_of(g: FeatureGroup) -> (r: u8)
    ensures
        r == feature_rank(g),
{
    match g {
        FeatureGroup::Linked => 0,
        FeatureGroup::AzdoOnly => 1,
        FeatureGroup::Free => 2,
    }
}

fn task_rank_of(g: TaskGroup) -> (r: u8)
    ensures
        r == task_rank(g),
{
    match g {
        TaskGroup::Bug => 0,
        TaskGroup::UserStory => 1,
        TaskGroup::Task => 2,
        TaskGroup::Free => 3,
    }
}

/// A copy of an optional work item.
pub fn clone_work_item(o: &Option<WorkItem>) -> (r: Option<WorkItem>)
    ensures
        r == *o,
{
    match o {
        Some(w) => Some(w.duplicate()),
        None => None,
    }
}

impl FeatureEntry {
    /// A field-for-field copy.
    pub fn duplicate(&self) -> (r: FeatureEntry)
        ensures
            r == *self,
    {
        FeatureEntry {
            name: self.name.clone(),
            group: self.group,
            session_exists: self.session_exists,
            window_count: self.window_count,
            work_item: clone_work_item(&self.work_item),
        }
    }
}

impl TaskEntry {
    /// A field-for-field copy.
    pub fn duplicate(&self) -> (r: TaskEntry)
        ensures
            r == *self,
    {
        TaskEntry {
            name: self.name.clone(),
            group: self.group,
            window_exists: self.window_exists,
            window_index: self.window_index,
            work_item: clone_work_item(&self.work_item),
            copilot_session_id: clone_opt(&self.copilot_session_id),
        }
    }
}

// ─── Sorting ─────────────────────────────────────────────────────

/// Entry `a` sorts strictly before entry `b`: lower group first, then by
/// name.
pub open spec fn key_lt(ranks: Seq<u8>, names: Seq<Seq<char>>, a: int, b: int) -> bool {
    ranks[a] < ranks[b] || (ranks[a] == ranks[b] && lex_lt(names[a], names[b]))
}

/// `order` lists the indices `0..n` once each.
pub open spec fn is_permutation(order: Seq<usize>, n: nat) -> bool {
    &&& order.len() == n
    &&& forall|k: int| 0 <= k < order.len() ==> (#[trigger] order[k]) < n
    &&& order.no_duplicates()
}

/// `order` sorts the entries by group and name, keeping the original
/// order among equal keys (a stable sort).
pub open spec fn stably_sorted(ranks: Seq<u8>, names: Seq<Seq<char>>, order: Seq<usize>) -> bool {
    forall|k: int, l: int|
        0 <= k < l < order.len() ==> key_lt(ranks, names, order[k] as int, order[l] as int) || (
        !key_lt(ranks, names, order[l] as int, order[k] as int) && order[k] < order[l])
}

proof fn lemma_key_trans_le(ranks: Seq<u8>, names: Seq<Seq<char>>, a: int, b: int, c: int)
    requires
        0 <= a < ranks.len(),
        0 <= b < ranks.len(),
        0 <= c < ranks.len(),
        ranks.len() == names.len(),
        key_lt(ranks, names, a, b),
        !key_lt(ranks, names, c, b),
    ensures
        key_lt(ranks, names, a, c),
{
    if ranks[a] == ranks[b] && ranks[b] == ranks[c] {
        lemma_lex_total(names[b], names[c]);
        if names[b] != names[c] {
            lemma_lex_transitive(names[a], names[b], names[c]);
        }
    }
}

/// The order that sorts entries with group ranks `ranks` and names
/// `names` by group, then name, stably (`sort_by(group.cmp.then(name.cmp))`).
pub fn sort_order(ranks: &Vec<u8>, names: &Vec<Vec<char>>) -> (order: Vec<usize>)
    requires
        ranks@.len() == names@.len(),
    ensures
        is_permutation(order@, ranks@.len()),
        stably_sorted(ranks@, views(names@), order@),
{
    let n = ranks.len();
    let ghost nv = views(names@);
    let mut order: Vec<usize> = Vec::new();
    let mut i: usize = 0;
    while i < n
        invariant
            n == ranks@.len(),
            n == names@.len(),
            nv == views(names@),
            i <= n,
            order@.len() == i,
            forall|k: int| 0 <= k < order@.len() ==> (#[trigger] order@[k]) < i,
            order@.no_duplicates(),
            stably_sorted(ranks@, nv, order@),
        decreases n - i,
    {
        let mut p: usize = 0;
        while p < order.len() && !(ranks[i] < ranks[order[p]] || (ranks[i] == ranks[order[p]]
            && text_lt(&names[i], &names[order[p]])))
            invariant
                p <= order@.len(),
                forall|k: int| 0 <= k < order@.len() ==> (#[trigger] order@[k]) < i,
                nv == views(names@),
                i < n,
                n == ranks@.len(),
                n == names@.len(),
                forall|k: int| 0 <= k < p ==> !key_lt(ranks@, nv, i as int, #[trigger] order@[k] as int),
            decreases order@.len() - p,
        {
            assert(nv[i as int] == names@[i as int]@);
            assert(nv[order@[p as int] as int] == names@[order@[p as int] as int]@);
            p = p + 1;
        }
        proof {
            if p < order@.len() {
                assert(nv[i as int] == names@[i as int]@);
                assert(nv[order@[p as int] as int] == names@[order@[p as int] as int]@);
                assert(key_lt(ranks@, nv, i as int, order@[p as int] as int));
            }
        }
        let ghost old_o = order@;
        order.insert(p, i);
        proof {
            let o = order@;
            assert(o == old_o.insert(p as int, i));
            assert forall|k: int, l: int| 0 <= k < l < o.len() implies key_lt(
                ranks@,
                nv,
                o[k] as int,
                o[l] as int,
            ) || (!key_lt(ranks@, nv, o[l] as int, o[k] as int) && o[k] < o[l]) by {
                if l < p {
                    assert(o[k] == old_o[k] && o[l] == old_o[l]);
                } else if l == p {
                    assert(o[k] == old_o[k]);
                    assert(!key_lt(ranks@, nv, i as int, old_o[k] as int));
                    assert(old_o[k] < i);
                } else if k == p {
                    assert(o[l] == old_o[l - 1]);
                    assert(key_lt(ranks@, nv, i as int, old_o[p as int] as int));
                    if l - 1 > p {
                        assert(key_lt(ranks@, nv, old_o[p as int] as int, old_o[l - 1] as int) || (
                        !key_lt(ranks@, nv, old_o[l - 1] as int, old_o[p as int] as int)
                            && old_o[p as int] < old_o[l - 1]));
                        if key_lt(ranks@, nv, old_o[p as int] as int, old_o[l - 1] as int) {
                            lemma_lex_asymmetric_key(ranks@, nv, old_o[p as int] as int, old_o[l - 1] as int);
                        }
                        lemma_key_trans_le(ranks@, nv, i as int, old_o[p as int] as int, old_o[l - 1] as int);
                    }
                } else if k < p {
                    assert(o[k] == old_o[k] && o[l] == old_o[l - 1]);
                } else {
                    assert(o[k] == old_o[k - 1] && o[l] == old_o[l - 1]);
                }
            }
            assert(o.no_duplicates()) by {
                assert forall|k: int, l: int| 0 <= k < l < o.len() implies o[k] != o[l] by {
                    if k == p {
                        assert(o[l] == old_o[l - 1]);
                    } else if l == p {
                        assert(o[k] == old_o[k]);
                    } else if l < p {
                        assert(o[k] == old_o[k] && o[l] == old_o[l]);
                    } else if k < p {
                        assert(o[k] == old_o[k] && o[l] == old_o[l - 1]);
                    } else {
                        assert(o[k] == old_o[k - 1] && o[l] == old_o[l - 1]);
                    }
                }
            }
            assert forall|k: int| 0 <= k < o.len() implies (#[trigger] o[k]) < i + 1 by {
                if k < p {
                    assert(o[k] == old_o[k]);
                } else if k > p {
                    assert(o[k] == old_o[k - 1]);
                }
            }
        }
        i = i + 1;
    }
    order
}

proof fn lemma_lex_asymmetric_key(ranks: Seq<u8>, names: Seq<Seq<char>>, a: int, b: int)
    requires
        key_lt(ranks, names, a, b),
    ensures
        !key_lt(ranks, names, b, a),
{
    if ranks[a] == ranks[b] {
        lemma_lex_asymmetric(names[a], names[b]);
    }
}

// ─── Visual rows ─────────────────────────────────────────────────

/// The rows shown for the entries `filtered` (indices into entries with
/// group ranks `ranks`): a header before the first entry of each group,
/// with a spacer before every header but the first.
pub open spec fn visual_rows(ranks: Seq<u8>, filtered: Seq<usize>) -> Seq<Option<usize>>
    decreases filtered.len(),
{
    if filtered.len() == 0 {
        seq![]
    } else {
        let init = visual_rows(ranks, filtered.drop_last());
        let idx = filtered.last();
        let head: Seq<Option<usize>> = if filtered.len() == 1 {
            seq![None]
        } else if ranks[filtered[filtered.len() - 2] as int] != ranks[idx as int] {
            seq![None, None]
        } else {
            seq![]
        };
        init + head + seq![Some(idx)]
    }
}

/// The entry indices that the rows hold, top to bottom.
pub open spec fn row_entries(rows: Seq<Option<usize>>) -> Seq<usize>
    decreases rows.len(),
{
    if rows.len() == 0 {
        seq![]
    } else {
        let init = row_entries(rows.drop_last());
        match rows.last() {
            Some(i) => init.push(i),
            None => init,
        }
    }
}

proof fn lemma_row_entries_append(a: Seq<Option<usize>>, b: Seq<Option<usize>>)
    ensures
        row_entries(a + b) == row_entries(a) + row_entries(b),
    decreases b.len(),
{
    if b.len() == 0 {
        assert(a + b =~= a);
        assert(row_entries(a) + seq![] =~= row_entries(a));
    } else {
        lemma_row_entries_append(a, b.drop_last());
        assert((a + b).drop_last() =~= a + b.drop_last());
        match b.last() {
            Some(i) => {
                assert(row_entries(a) + row_entries(b.drop_last()).push(i) =~= (row_entries(a)
                    + row_entries(b.drop_last())).push(i));
            },
            None => {},
        }
    }
}

/// The rows hold exactly the filtered entries, in order; there are rows
/// to select exactly when there are entries.
pub proof fn lemma_visual_rows_entries(ranks: Seq<u8>, filtered: Seq<usize>)
    ensures
        row_entries(visual_rows(ranks, filtered)) == filtered,
        has_selectable(visual_rows(ranks, filtered)) <==> filtered.len() > 0,
    decreases filtered.len(),
{
    if filtered.len() > 0 {
        let init = visual_rows(ranks, filtered.drop_last());
        lemma_visual_rows_entries(ranks, filtered.drop_last());
        let idx = filtered.last();
        let head: Seq<Option<usize>> = if filtered.len() == 1 {
            seq![None]
        } else if ranks[filtered[filtered.len() - 2] as int] != ranks[idx as int] {
            seq![None, None]
        } else {
            seq![]
        };
        lemma_row_entries_append(init + head, seq![Some(idx)]);
        lemma_row_entries_append(init, head);
        assert(row_entries(head) =~= seq![]) by {
            reveal_with_fuel(row_entries, 3);
            if head.len() == 2 {
                assert(head.drop_last() =~= seq![None::<usize>]);
                assert(head.drop_last().drop_last() =~= seq![]);
            } else if head.len() == 1 {
                assert(head.drop_last() =~= seq![]);
            }
        }
        assert(row_entries(seq![Some(idx)]) =~= seq![idx]) by {
            reveal_with_fuel(row_entries, 2);
            assert(seq![Some(idx)].drop_last() =~= seq![]);
        }
        assert(filtered =~= filtered.drop_last().push(idx));
        let rows = visual_rows(ranks, filtered);
        assert(selectable(rows, rows.len() - 1));
    } else {
        assert(!has_selectable(visual_rows(ranks, filtered)));
    }
}

/// How many runs of one group the entries `filtered` form, in order.
pub open spec fn group_runs(ranks: Seq<u8>, filtered: Seq<usize>) -> nat
    decreases filtered.len(),
{
    if filtered.len() == 0 {
        0
    } else if filtered.len() == 1 {
        1
    } else {
        group_runs(ranks, filtered.drop_last()) + if ranks[filtered[filtered.len() - 2] as int]
            != ranks[filtered.last() as int] {
            1nat
        } else {
            0nat
        }
    }
}

/// How many rows are headers or spacers.
pub open spec fn gap_rows(rows: Seq<Option<usize>>) -> nat
    decreases rows.len(),
{
    if rows.len() == 0 {
        0
    } else {
        gap_rows(rows.drop_last()) + if rows.last() is None {
            1nat
        } else {
            0nat
        }
    }
}

proof fn lemma_gap_rows_append(a: Seq<Option<usize>>, b: Seq<Option<usize>>)
    ensures
        gap_rows(a + b) == gap_rows(a) + gap_rows(b),
    decreases b.len(),
{
    if b.len() == 0 {
        assert(a + b =~= a);
    } else {
        lemma_gap_rows_append(a, b.drop_last());
        assert((a + b).drop_last() =~= a + b.drop_last());
    }
}

/// The shape of the visual rows: a list with entries starts with a
/// header, and for `g` runs of one group there are `2g - 1` header and
/// spacer rows (a header per run, a spacer between runs).
pub proof fn lemma_visual_rows_shape(ranks: Seq<u8>, filtered: Seq<usize>)
    ensures
        filtered.len() > 0 ==> visual_rows(ranks, filtered)[0] is None,
        filtered.len() > 0 ==> visual_rows(ranks, filtered).last() == Some(filtered.last()),
        filtered.len() > 0 ==> gap_rows(visual_rows(ranks, filtered)) + 1 == 2 * group_runs(
            ranks,
            filtered,
        ),
        filtered.len() == 0 ==> gap_rows(visual_rows(ranks, filtered)) == 0,
    decreases filtered.len(),
{
    if filtered.len() > 0 {
        let init = visual_rows(ranks, filtered.drop_last());
        let idx = filtered.last();
        let head: Seq<Option<usize>> = if filtered.len() == 1 {
            seq![None]
        } else if ranks[filtered[filtered.len() - 2] as int] != ranks[idx as int] {
            seq![None, None]
        } else {
            seq![]
        };
        lemma_visual_rows_shape(ranks, filtered.drop_last());
        lemma_gap_rows_append(init + head, seq![Some(idx)]);
        lemma_gap_rows_append(init, head);
        assert(gap_rows(seq![Some(idx)]) == 0) by {
            reveal_with_fuel(gap_rows, 2);
            assert(seq![Some(idx)].drop_last() =~= Seq::<Option<usize>>::empty());
        }
        assert(gap_rows(head) == head.len()) by {
            reveal_with_fuel(gap_rows, 3);
            if head.len() == 2 {
                assert(head.drop_last() =~= seq![None::<usize>]);
                assert(head.drop_last().drop_last() =~= Seq::<Option<usize>>::empty());
            } else if head.len() == 1 {
                assert(head.drop_last() =~= Seq::<Option<usize>>::empty());
            }
        }
        if filtered.len() == 1 {
            assert(init =~= Seq::<Option<usize>>::empty());
        }
        assert(visual_rows(ranks, filtered) == init + head + seq![Some(idx)]);
    }
}

/// In the visual rows every header stands right above the entry whose
/// group it names: no header is left without an entry below it.
pub proof fn lemma_headers_head_entries(ranks: Seq<u8>, filtered: Seq<usize>, i: int)
    requires
        0 <= i < visual_rows(ranks, filtered).len(),
        row_kind_of(visual_rows(ranks, filtered), i) is Header,
    ensures
        i + 1 < visual_rows(ranks, filtered).len(),
        row_kind_of(visual_rows(ranks, filtered), i) matches RowKind::Header(x) && visual_rows(
            ranks,
            filtered,
        )[i + 1] == Some(x),
{
    lemma_visual_rows_shape(ranks, filtered);
    if filtered.len() == 0 {
        assert(visual_rows(ranks, filtered).len() == 0);
    }
}

/// The visual rows for the filtered entries (`update_*_filter`).
pub fn build_visual_rows(ranks: &Vec<u8>, filtered: &Vec<usize>) -> (rows: Vec<Option<usize>>)
    requires
        forall|k: int| 0 <= k < filtered@.len() ==> (#[trigger] filtered@[k]) < ranks@.len(),
    ensures
        rows@ == visual_rows(ranks@, filtered@),
        row_entries(rows@) == filtered@,
        has_selectable(rows@) <==> filtered@.len() > 0,
{
    let mut rows: Vec<Option<usize>> = Vec::new();
    let mut i: usize = 0;
    assert(filtered@.take(0) =~= seq![]);
    while i < filtered.len()
        invariant
            i <= filtered@.len(),
            forall|k: int| 0 <= k < filtered@.len() ==> (#[trigger] filtered@[k]) < ranks@.len(),
            rows@ == visual_rows(ranks@, filtered@.take(i as int)),
        decreases filtered@.len() - i,
    {
        let idx = filtered[i];
        let ghost t = filtered@.take(i + 1);
        assert(t.drop_last() =~= filtered@.take(i as int));
        assert(t.last() == idx);
        if i == 0 {
            rows.push(None);
        } else {
            assert(t[t.len() - 2] == filtered@[i - 1]);
            if ranks[filtered[i - 1]] != ranks[idx] {
                rows.push(None);
                rows.push(None);
            }
        }
        rows.push(Some(idx));
        assert(rows@ =~= visual_rows(ranks@, t));
        i = i + 1;
    }
    assert(filtered@.take(filtered@.len() as int) =~= filtered@);
    proof {
        lemma_visual_rows_entries(ranks@, filtered@);
    }
    rows
}

// ─── Features and tasks ──────────────────────────────────────────

/// The group ranks of feature entries.
pub open spec fn feature_ranks(s: Seq<FeatureEntry>) -> Seq<u8> {
    s.map_values(|f: FeatureEntry| feature_rank(f.group))
}

/// The names of feature entries.
pub open spec fn feature_names(s: Seq<FeatureEntry>) -> Seq<Seq<char>> {
    s.map_values(|f: FeatureEntry| f.name@)
}

/// The group ranks of task entries.
pub open spec fn task_ranks(s: Seq<TaskEntry>) -> Seq<u8> {
    s.map_values(|t: TaskEntry| task_rank(t.group))
}

/// The names of task entries.
pub open spec fn task_names(s: Seq<TaskEntry>) -> Seq<Seq<char>> {
    s.map_values(|t: TaskEntry| t.name@)
}

/// `r` is `s` reordered by `order`.
pub open spec fn reordered<T>(s: Seq<T>, order: Seq<usize>, r: Seq<T>) -> bool {
    &&& r.len() == order.len()
    &&& forall|k: int| 0 <= k < r.len() ==> r[k] == s[order[k] as int]
}

fn feature_keys(features: &Vec<FeatureEntry>) -> (r: (Vec<u8>, Vec<Vec<char>>))
    ensures
        r.0@ == feature_ranks(features@),
        views(r.1@) == feature_names(features@),
        r.0@.len() == features@.len(),
        r.1@.len() == features@.len(),
{
    let mut ranks: Vec<u8> = Vec::new();
    let mut names: Vec<Vec<char>> = Vec::new();
    let mut i: usize = 0;
    while i < features.len()
        invariant
            i <= features@.len(),
            ranks@ == feature_ranks(features@).take(i as int),
            views(names@) == feature_names(features@).take(i as int),
            names@.len() == i,
        decreases features@.len() - i,
    {
        ranks.push(feature_rank_of(features[i].group));
        let ghost n0 = views(names@);
        names.push(chars_of(features[i].name.as_str()));
        assert(views(names@) =~= n0.push(features@[i as int].name@));
        i = i + 1;
        assert(ranks@ =~= feature_ranks(features@).take(i as int));
        assert(views(names@) =~= feature_names(features@).take(i as int));
    }
    assert(feature_ranks(features@).take(i as int) =~= feature_ranks(features@));
    assert(feature_names(features@).take(i as int) =~= feature_names(features@));
    (ranks, names)
}

fn task_keys(tasks: &Vec<TaskEntry>) -> (r: (Vec<u8>, Vec<Vec<char>>))
    ensures
        r.0@ == task_ranks(tasks@),
        views(r.1@) == task_names(tasks@),
        r.0@.len() == tasks@.len(),
        r.1@.len() == tasks@.len(),
{
    let mut ranks: Vec<u8> = Vec::new();
    let mut names: Vec<Vec<char>> = Vec::new();
    let mut i: usize = 0;
    while i < tasks.len()
        invariant
            i <= tasks@.len(),
            ranks@ == task_ranks(tasks@).take(i as int),
            views(names@) == task_names(tasks@).take(i as int),
            names@.len() == i,
        decreases tasks@.len() - i,
    {
        ranks.push(task_rank_of(tasks[i].group));
        let ghost n0 = views(names@);
        names.push(chars_of(tasks[i].name.as_str()));
        assert(views(names@) =~= n0.push(tasks@[i as int].name@));
        i = i + 1;
        assert(ranks@ =~= task_ranks(tasks@).take(i as int));
        assert(views(names@) =~= task_names(tasks@).take(i as int));
    }
    assert(task_ranks(tasks@).take(i as int) =~= task_ranks(tasks@));
    assert(task_names(tasks@).take(i as int) =~= task_names(tasks@));
    (ranks, names)
}

/// A task group may stand after another in the task selector: Bugs,
/// then User Stories, then Tasks, then Free windows.
pub open spec fn task_group_may_follow(before: TaskGroup, after: TaskGroup) -> bool {
    &&& after == TaskGroup::Bug ==> before == TaskGroup::Bug
    &&& after == TaskGroup::UserStory ==> (before == TaskGroup::Bug || before == TaskGroup::UserStory)
    &&& after == TaskGroup::Task ==> before != TaskGroup::Free
}

/// A feature group may stand after another in the feature selector:
/// linked sessions, then AzDo-only features, then free sessions.
pub open spec fn feature_group_may_follow(before: FeatureGroup, after: FeatureGroup) -> bool {
    &&& after == FeatureGroup::Linked ==> before == FeatureGroup::Linked
    &&& after == FeatureGroup::AzdoOnly ==> before != FeatureGroup::Free
}

/// In a sorted task list every Bug precedes every User Story, which
/// precedes every Task, which precedes every Free window.
pub proof fn lemma_sorted_tasks_grouped(tasks: Seq<TaskEntry>, order: Seq<usize>, r: Seq<TaskEntry>)
    requires
        is_permutation(order, tasks.len()),
        stably_sorted(task_ranks(tasks), task_names(tasks), order),
        reordered(tasks, order, r),
    ensures
        forall|k: int, l: int| 0 <= k < l < r.len() ==> task_group_may_follow(#[trigger] r[k].group, #[trigger] r[l].group),
        forall|k: int, l: int|
            0 <= k < l < r.len() && (#[trigger] r[k]).group == (#[trigger] r[l]).group ==> lex_le(
                r[k].name@,
                r[l].name@,
            ),
{
    assert forall|k: int, l: int| 0 <= k < l < r.len() implies task_group_may_follow(#[trigger] r[k].group, #[trigger] r[l].group) by {
        let a = order[k] as int;
        let b = order[l] as int;
        assert(task_ranks(tasks)[a] == task_rank(tasks[a].group));
        assert(task_ranks(tasks)[b] == task_rank(tasks[b].group));
        assert(key_lt(task_ranks(tasks), task_names(tasks), a, b) || !key_lt(task_ranks(tasks), task_names(tasks), b, a));
        assert(task_ranks(tasks)[a] <= task_ranks(tasks)[b]);
    }
    assert forall|k: int, l: int|
        0 <= k < l < r.len() && (#[trigger] r[k]).group == (#[trigger] r[l]).group implies lex_le(
            r[k].name@,
            r[l].name@,
        ) by {
        let a = order[k] as int;
        let b = order[l] as int;
        assert(task_ranks(tasks)[a] == task_ranks(tasks)[b]);
        assert(task_names(tasks)[a] == r[k].name@);
        assert(task_names(tasks)[b] == r[l].name@);
        assert(key_lt(task_ranks(tasks), task_names(tasks), a, b) || !key_lt(task_ranks(tasks), task_names(tasks), b, a));
        if key_lt(task_ranks(tasks), task_names(tasks), a, b) {
            lemma_lex_asymmetric(r[k].name@, r[l].name@);
        }
    }
}

/// In a sorted feature list every linked session precedes every
/// AzDo-only feature, which precedes every free session.
pub proof fn lemma_sorted_features_grouped(fs: Seq<FeatureEntry>, order: Seq<usize>, r: Seq<FeatureEntry>)
    requires
        is_permutation(order, fs.len()),
        stably_sorted(feature_ranks(fs), feature_names(fs), order),
        reordered(fs, order, r),
    ensures
        forall|k: int, l: int| 0 <= k < l < r.len() ==> feature_group_may_follow(#[trigger] r[k].group, #[trigger] r[l].group),
        forall|k: int, l: int|
            0 <= k < l < r.len() && (#[trigger] r[k]).group == (#[trigger] r[l]).group ==> lex_le(
                r[k].name@,
                r[l].name@,
            ),
{
    assert forall|k: int, l: int| 0 <= k < l < r.len() implies feature_group_may_follow(#[trigger] r[k].group, #[trigger] r[l].group) by {
        let a = order[k] as int;
        let b = order[l] as int;
        assert(feature_ranks(fs)[a] == feature_rank(fs[a].group));
        assert(feature_ranks(fs)[b] == feature_rank(fs[b].group));
        assert(key_lt(feature_ranks(fs), feature_names(fs), a, b) || !key_lt(feature_ranks(fs), feature_names(fs), b, a));
        assert(feature_ranks(fs)[a] <= feature_ranks(fs)[b]);
    }
    assert forall|k: int, l: int|
        0 <= k < l < r.len() && (#[trigger] r[k]).group == (#[trigger] r[l]).group implies lex_le(
            r[k].name@,
            r[l].name@,
        ) by {
        let a = order[k] as int;
        let b = order[l] as int;
        assert(feature_ranks(fs)[a] == feature_ranks(fs)[b]);
        assert(feature_names(fs)[a] == r[k].name@);
        assert(feature_names(fs)[b] == r[l].name@);
        assert(key_lt(feature_ranks(fs), feature_names(fs), a, b) || !key_lt(feature_ranks(fs), feature_names(fs), b, a));
        if key_lt(feature_ranks(fs), feature_names(fs), a, b) {
            lemma_lex_asymmetric(r[k].name@, r[l].name@);
        }
    }
}

/// Sorts features: Linked first, then AzDo-only, then Free; by name
/// within a group; equal keys keep their order.
pub fn sort_features(features: &Vec<FeatureEntry>) -> (r: Vec<FeatureEntry>)
    ensures
        exists|order: Seq<usize>|
            is_permutation(order, features@.len()) && stably_sorted(
                feature_ranks(features@),
                feature_names(features@),
                order,
            ) && reordered(features@, order, r@),
        forall|k: int, l: int| 0 <= k < l < r@.len() ==> feature_group_may_follow(#[trigger] r@[k].group, #[trigger] r@[l].group),
        forall|k: int, l: int|
            0 <= k < l < r@.len() && (#[trigger] r@[k]).group == (#[trigger] r@[l]).group ==> lex_le(
                r@[k].name@,
                r@[l].name@,
            ),
{
    let (ranks, names) = feature_keys(features);
    let order = sort_order(&ranks, &names);
    let mut r: Vec<FeatureEntry> = Vec::new();
    let mut k: usize = 0;
    while k < order.len()
        invariant
            k <= order@.len(),
            is_permutation(order@, features@.len()),
            r@.len() == k,
            forall|j: int| 0 <= j < k ==> r@[j] == features@[order@[j] as int],
        decreases order@.len() - k,
    {
        r.push(features[order[k]].duplicate());
        k = k + 1;
    }
    assert(reordered(features@, order@, r@));
    proof {
        lemma_sorted_features_grouped(features@, order@, r@);
    }
    r
}

/// Sorts tasks: Bugs first, then User Stories, then Tasks, then Free; by
/// name within a group; equal keys keep their order.
pub fn sort_tasks(tasks: &Vec<TaskEntry>) -> (r: Vec<TaskEntry>)
    ensures
        exists|order: Seq<usize>|
            is_permutation(order, tasks@.len()) && stably_sorted(
                task_ranks(tasks@),
                task_names(tasks@),
                order,
            ) && reordered(tasks@, order, r@),
        forall|k: int, l: int| 0 <= k < l < r@.len() ==> task_group_may_follow(#[trigger] r@[k].group, #[trigger] r@[l].group),
        forall|k: int, l: int|
            0 <= k < l < r@.len() && (#[trigger] r@[k]).group == (#[trigger] r@[l]).group ==> lex_le(
                r@[k].name@,
                r@[l].name@,
            ),
{
    let (ranks, names) = task_keys(tasks);
    let order = sort_order(&ranks, &names);
    let mut r: Vec<TaskEntry> = Vec::new();
    let mut k: usize = 0;
    while k < order.len()
        invariant
            k <= order@.len(),
            is_permutation(order@, tasks@.len()),
            r@.len() == k,
            forall|j: int| 0 <= j < k ==> r@[j] == tasks@[order@[j] as int],
        decreases order@.len() - k,
    {
        r.push(tasks[order[k]].duplicate());
        k = k + 1;
    }
    assert(reordered(tasks@, order@, r@));
    proof {
        lemma_sorted_tasks_grouped(tasks@, order@, r@);
    }
    r
}

/// The feature names as a list of strings.
fn feature_labels(features: &Vec<FeatureEntry>) -> (r: Vec<String>)
    ensures
        r@.len() == features@.len(),
        forall|k: int| 0 <= k < r@.len() ==> (#[trigger] r@[k])@ == features@[k].name@,
{
    let mut r: Vec<String> = Vec::new();
    let mut i: usize = 0;
    while i < features.len()
        invariant
            i <= features@.len(),
            r@.len() == i,
            forall|k: int| 0 <= k < i ==> (#[trigger] r@[k])@ == features@[k].name@,
        decreases features@.len() - i,
    {
        r.push(features[i].name.clone());
        i = i + 1;
    }
    r
}

/// The task names as a list of strings.
fn task_labels(tasks: &Vec<TaskEntry>) -> (r: Vec<String>)
    ensures
        r@.len() == tasks@.len(),
        forall|k: int| 0 <= k < r@.len() ==> (#[trigger] r@[k])@ == tasks@[k].name@,
{
    let mut r: Vec<String> = Vec::new();
    let mut i: usize = 0;
    while i < tasks.len()
        invariant
            i <= tasks@.len(),
            r@.len() == i,
            forall|k: int| 0 <= k < i ==> (#[trigger] r@[k])@ == tasks@[k].name@,
        decreases tasks@.len() - i,
    {
        r.push(tasks[i].name.clone());
        i = i + 1;
    }
    r
}

/// The filter accepts these names: an empty filter any names (the fuzzy
/// matcher is not called), another filter names short enough for it.
pub open spec fn names_filterable(filter: Seq<char>, names: Seq<Seq<char>>) -> bool {
    filter.len() == 0 || {
        &&& filter.len() <= 2520
        &&& forall|i: int| 0 <= i < names.len() ==> encode_utf8(#[trigger] names[i]).len() <= u32::MAX
    }
}

/// `filtered` lists the entries (by name) that `filter` keeps, best match
/// first: all of them in order when the filter is empty.
pub open spec fn filter_result(filter: Seq<char>, names: Seq<Seq<char>>, filtered: Seq<usize>) -> bool {
    if filter.len() == 0 {
        filtered == Seq::new(names.len(), |i: int| i as usize)
    } else {
        exists|scores: Seq<u32>|
            scores.len() == filtered.len() && #[trigger] ranking_of(filter, names, filtered, scores)
    }
}

/// `filtered` with `scores` is the fuzzy ranking of the names.
pub open spec fn ranking_of(
    filter: Seq<char>,
    names: Seq<Seq<char>>,
    filtered: Seq<usize>,
    scores: Seq<u32>,
) -> bool {
    &&& forall|k: int| 0 <= k < filtered.len() ==> {
        &&& (#[trigger] filtered[k]) < names.len()
        &&& fuzzy_score(filter, names[filtered[k] as int]) == Some(scores[k])
    }
    &&& forall|i: int|
        0 <= i < names.len() && (#[trigger] fuzzy_score(filter, names[i])) is Some ==> exists|k: int|
            0 <= k < filtered.len() && filtered[k] == i
    &&& forall|k: int, l: int|
        0 <= k < l < filtered.len() ==> scores[k] > scores[l] || (scores[k] == scores[l]
            && filtered[k] < filtered[l])
}

fn ranked_indices(filter: &str, labels: &Vec<String>, names: Ghost<Seq<Seq<char>>>) -> (r: Vec<usize>)
    requires
        labels@.len() == names@.len(),
        forall|k: int| 0 <= k < labels@.len() ==> (#[trigger] labels@[k])@ == names@[k],
        names_filterable(filter@, names@),
    ensures
        filter_result(filter@, names@, r@),
        forall|k: int| 0 <= k < r@.len() ==> (#[trigger] r@[k]) < names@.len(),
{
    assert(fuzzy_inputs_ok(filter@, labels@)) by {
        if filter@.len() > 0 {
            assert forall|i: int| 0 <= i < labels@.len() implies encode_utf8((#[trigger] labels@[i])@).len()
                <= u32::MAX by {
                assert(labels@[i]@ == names@[i]);
            }
        }
    }
    let results = fuzzy_match(filter, labels);
    let mut r: Vec<usize> = Vec::new();
    let mut i: usize = 0;
    while i < results.len()
        invariant
            i <= results@.len(),
            r@ == results@.take(i as int).map_values(|p: (usize, u32)| p.0),
        decreases results@.len() - i,
    {
        r.push(results[i].0);
        i = i + 1;
        assert(r@ =~= results@.take(i as int).map_values(|p: (usize, u32)| p.0));
    }
    assert(results@.take(i as int) =~= results@);
    proof {
        if filter@.len() == 0 {
            assert(r@ =~= Seq::new(names@.len(), |i: int| i as usize));
        } else {
            let scores = results@.map_values(|p: (usize, u32)| p.1);
            assert(is_ranking(filter@, labels@, results@));
            assert forall|k: int| 0 <= k < r@.len() implies (#[trigger] r@[k]) < names@.len()
                && fuzzy_score(filter@, names@[r@[k] as int]) == Some(scores[k]) by {
                assert(results@[k].0 < labels@.len());
                assert(labels@[results@[k].0 as int]@ == names@[results@[k].0 as int]);
            }
            assert forall|j: int|
                0 <= j < names@.len() && (#[trigger] fuzzy_score(filter@, names@[j])) is Some implies exists|k: int|
                0 <= k < r@.len() && r@[k] == j by {
                assert(labels@[j]@ == names@[j]);
                assert(fuzzy_score(filter@, labels@[j]@) is Some);
                let k = choose|k: int| 0 <= k < results@.len() && results@[k].0 == j;
                assert(r@[k] == j);
            }
            assert forall|k: int, l: int| 0 <= k < l < r@.len() implies scores[k] > scores[l]
                || (scores[k] == scores[l] && r@[k] < r@[l]) by {
                assert(ranks_before(results@[k], results@[l]));
            }
            assert(ranking_of(filter@, names@, r@, scores));
            assert(scores.len() == r@.len());
        }
    }
    r
}

/// Recomputes the feature filter: the entries whose names `filter`
/// matches, best first (all, in order, for an empty filter), and their
/// visual rows with section headers.
pub fn update_feature_filter(features: &Vec<FeatureEntry>, filter: &str) -> (r: (
    Vec<usize>,
    Vec<Option<usize>>,
))
    requires
        names_filterable(filter@, feature_names(features@)),
    ensures
        filter_result(filter@, feature_names(features@), r.0@),
        r.1@ == visual_rows(feature_ranks(features@), r.0@),
        row_entries(r.1@) == r.0@,
        has_selectable(r.1@) <==> r.0@.len() > 0,
        r.0@.len() > 0 ==> r.1@[0] is None,
        r.0@.len() > 0 ==> gap_rows(r.1@) + 1 == 2 * group_runs(feature_ranks(features@), r.0@),
        r.0@.len() == 0 ==> r.1@.len() == 0,
{
    let labels = feature_labels(features);
    let filtered = ranked_indices(filter, &labels, Ghost(feature_names(features@)));
    let (ranks, _names) = feature_keys(features);
    let rows = build_visual_rows(&ranks, &filtered);
    proof {
        lemma_visual_rows_shape(ranks@, filtered@);
    }
    (filtered, rows)
}

/// Recomputes the task filter: the entries whose names `filter` matches,
/// best first (all, in order, for an empty filter), and their visual
/// rows with section headers.
pub fn update_task_filter(tasks: &Vec<TaskEntry>, filter: &str) -> (r: (
    Vec<usize>,
    Vec<Option<usize>>,
))
    requires
        names_filterable(filter@, task_names(tasks@)),
    ensures
        filter_result(filter@, task_names(tasks@), r.0@),
        r.1@ == visual_rows(task_ranks(tasks@), r.0@),
        row_entries(r.1@) == r.0@,
        has_selectable(r.1@) <==> r.0@.len() > 0,
        r.0@.len() > 0 ==> r.1@[0] is None,
        r.0@.len() > 0 ==> gap_rows(r.1@) + 1 == 2 * group_runs(task_ranks(tasks@), r.0@),
        r.0@.len() == 0 ==> r.1@.len() == 0,
{
    let labels = task_labels(tasks);
    let filtered = ranked_indices(filter, &labels, Ghost(task_names(tasks@)));
    let (ranks, _names) = task_keys(tasks);
    let rows = build_visual_rows(&ranks, &filtered);
    proof {
        lemma_visual_rows_shape(ranks@, filtered@);
    }
    (filtered, rows)
}

} // verus!
