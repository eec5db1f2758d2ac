//! Merging work items fetched from AzDo into the local feature and task
//! lists.
use vstd::prelude::*;

use crate::config::{clone_opt, display_label_of, WorkItem, WorkItemType};
use crate::entries::{clone_work_item, FeatureEntry, FeatureGroup, TaskEntry, TaskGroup};
use crate::text::{decimal, push_decimal, push_str, string_from};

verus! {

/// The id under which an entry is matched: its work item's id, none when
/// it has no work item (or the work item has no id).
pub open spec fn item_key(w: Option<WorkItem>) -> Option<u64> {
    match w {
        Some(x) => x.id,
        None => None,
    }
}

/// Some entry has a work item with this id (the ids seen before a merge).
pub open spec fn known_id(items: Seq<Option<WorkItem>>, id: Option<u64>) -> bool {
    exists|k: int| 0 <= k < items.len() && (#[trigger] items[k]) is Some && items[k]->0.id == id
}

/// `k` is the first entry whose key is `id`.
pub open spec fn is_first_match(items: Seq<Option<WorkItem>>, id: Option<u64>, k: int) -> bool {
    &&& 0 <= k < items.len()
    &&& item_key(items[k]) == id
    &&& forall|j: int| 0 <= j < k ==> item_key(#[trigger] items[j]) != id
}

/// A local work item refreshed from its AzDo copy: the state is taken
/// over, the description and acceptance criteria only where missing.
pub open spec fn refreshed(local: WorkItem, remote: WorkItem) -> WorkItem {
    WorkItem {
        state: remote.state,
        description: if local.description is None {
            remote.description
        } else {
            local.description
        },
        acceptance_criteria: if local.acceptance_criteria is None {
            remote.acceptance_criteria
        } else {
            local.acceptance_criteria
        },
        ..local
    }
}

/// One AzDo item applied to the local work items: the first entry with the
/// same key is refreshed if it has a work item.
pub open spec fn refresh_one(items: Seq<Option<WorkItem>>, wi: WorkItem) -> Seq<Option<WorkItem>> {
    if exists|k: int| is_first_match(items, wi.id, k) {
        let k = choose|k: int| is_first_match(items, wi.id, k);
        match items[k] {
            Some(w) => items.update(k, Some(refreshed(w, wi))),
            None => items,
        }
    } else {
        items
    }
}

/// All AzDo items applied in order.
pub open spec fn refresh_all(items: Seq<Option<WorkItem>>, azdo: Seq<WorkItem>) -> Seq<
    Option<WorkItem>,
>
    decreases azdo.len(),
{
    if azdo.len() == 0 {
        items
    } else {
        refresh_one(refresh_all(items, azdo.drop_last()), azdo.last())
    }
}

/// The AzDo items whose id no local entry knows, in order.
pub open spec fn fresh_items(items: Seq<Option<WorkItem>>, azdo: Seq<WorkItem>) -> Seq<WorkItem>
    decreases azdo.len(),
{
    if azdo.len() == 0 {
        seq![]
    } else {
        let init = fresh_items(items, azdo.drop_last());
        if known_id(items, azdo.last().id) {
            init
        } else {
            init.push(azdo.last())
        }
    }
}

/// The work items of feature entries.
pub open spec fn feature_items(s: Seq<FeatureEntry>) -> Seq<Option<WorkItem>> {
    s.map_values(|f: FeatureEntry| f.work_item)
}

/// The work items of task entries.
pub open spec fn task_items(s: Seq<TaskEntry>) -> Seq<Option<WorkItem>> {
    s.map_values(|t: TaskEntry| t.work_item)
}

/// The name of a feature entry made for an AzDo item: `#id title`, or the
/// title when the item has no id.
pub open spec fn feature_name_of(wi: WorkItem) -> Seq<char> {
    match wi.id {
        Some(id) => "#"@ + decimal(id as nat) + " "@ + wi.title@,
        None => wi.title@,
    }
}

/// The task group of a work item type (`Free` for other types).
pub open spec fn task_group_of(t: WorkItemType) -> TaskGroup {
    match t {
        WorkItemType::Bug => TaskGroup::Bug,
        WorkItemType::UserStory => TaskGroup::UserStory,
        WorkItemType::Task => TaskGroup::Task,
        _ => TaskGroup::Free,
    }
}

/// `e` is the feature entry made for the AzDo-only item `wi`.
pub open spec fn is_new_feature(e: FeatureEntry, wi: WorkItem) -> bool {
    &&& e.name@ == feature_name_of(wi)
    &&& e.group == FeatureGroup::AzdoOnly
    &&& !e.session_exists
    &&& e.window_count == 0
    &&& e.work_item == Some(wi)
}

/// `e` is the task entry made for the AzDo-only item `wi`.
pub open spec fn is_new_task(e: TaskEntry, wi: WorkItem) -> bool {
    &&& e.name@ == display_label_of(wi)
    &&& e.group == task_group_of(wi.work_item_type)
    &&& !e.window_exists
    &&& e.window_index is None
    &&& e.work_item == Some(wi)
    &&& e.copilot_session_id is None
}

/// `r` is the feature list after merging the AzDo items `azdo` into `old`:
/// the local entries in place with refreshed work items, then one new
/// entry per item that no local entry knows.
pub open spec fn merged_features(old: Seq<FeatureEntry>, azdo: Seq<WorkItem>, r: Seq<FeatureEntry>) -> bool {
    let items = refresh_all(feature_items(old), azdo);
    let fresh = fresh_items(feature_items(old), azdo);
    &&& r.len() == old.len() + fresh.len()
    &&& forall|k: int|
        0 <= k < old.len() ==> (#[trigger] r[k]) == (FeatureEntry { work_item: items[k], ..old[k] })
    &&& forall|j: int| 0 <= j < fresh.len() ==> is_new_feature(#[trigger] r[old.len() + j], fresh[j])
}

/// `r` is the task list after merging the AzDo items `azdo` into `old`.
pub open spec fn merged_tasks(old: Seq<TaskEntry>, azdo: Seq<WorkItem>, r: Seq<TaskEntry>) -> bool {
    let items = refresh_all(task_items(old), azdo);
    let fresh = fresh_items(task_items(old), azdo);
    &&& r.len() == old.len() + fresh.len()
    &&& forall|k: int|
        0 <= k < old.len() ==> (#[trigger] r[k]) == (TaskEntry { work_item: items[k], ..old[k] })
    &&& forall|j: int| 0 <= j < fresh.len() ==> is_new_task(#[trigger] r[old.len() + j], fresh[j])
}

// ─── Proofs ──────────────────────────────────────────────────────

/// Refreshing keeps every entry's key, and whether it has a work item.
pub proof fn lemma_refresh_keeps_keys(items: Seq<Option<WorkItem>>, azdo: Seq<WorkItem>)
    ensures
        refresh_all(items, azdo).len() == items.len(),
        forall|k: int|
            0 <= k < items.len() ==> item_key(#[trigger] refresh_all(items, azdo)[k]) == item_key(
                items[k],
            ) && (refresh_all(items, azdo)[k] is Some <==> items[k] is Some),
    decreases azdo.len(),
{
    if azdo.len() > 0 {
        lemma_refresh_keeps_keys(items, azdo.drop_last());
    }
}

proof fn lemma_fresh_members(items: Seq<Option<WorkItem>>, azdo: Seq<WorkItem>, i: int)
    requires
        0 <= i < azdo.len(),
        !known_id(items, azdo[i].id),
    ensures
        exists|j: int| 0 <= j < fresh_items(items, azdo).len() && (#[trigger] fresh_items(items, azdo)[j]) == azdo[i],
    decreases azdo.len(),
{
    let f = fresh_items(items, azdo);
    if i == azdo.len() - 1 {
        assert(f[f.len() - 1] == azdo[i]);
    } else {
        lemma_fresh_members(items, azdo.drop_last(), i);
        let init = fresh_items(items, azdo.drop_last());
        let j = choose|j: int| 0 <= j < init.len() && (#[trigger] init[j]) == azdo.drop_last()[i];
        assert(f[j] == init[j]);
    }
}

/// After a merge every AzDo item's id is on the list: an entry of the
/// merged features has a work item with that id.
pub proof fn lemma_merge_covers_azdo(old: Seq<FeatureEntry>, azdo: Seq<WorkItem>, r: Seq<FeatureEntry>)
    requires
        merged_features(old, azdo, r),
    ensures
        forall|i: int| 0 <= i < azdo.len() ==> known_id(feature_items(r), (#[trigger] azdo[i]).id),
{
    let items = feature_items(old);
    let fresh = fresh_items(items, azdo);
    lemma_refresh_keeps_keys(items, azdo);
    assert forall|i: int| 0 <= i < azdo.len() implies known_id(feature_items(r), (#[trigger] azdo[i]).id) by {
        if known_id(items, azdo[i].id) {
            let k = choose|k: int| 0 <= k < items.len() && (#[trigger] items[k]) is Some && items[k]->0.id == azdo[i].id;
            let ri = refresh_all(items, azdo);
            assert(item_key(ri[k]) == item_key(items[k]));
            assert(r[k].work_item == ri[k]);
            assert(feature_items(r)[k] == r[k].work_item);
        } else {
            lemma_fresh_members(items, azdo, i);
            let j = choose|j: int| 0 <= j < fresh.len() && (#[trigger] fresh[j]) == azdo[i];
            assert(is_new_feature(r[old.len() + j], fresh[j]));
            assert(feature_items(r)[old.len() + j] == r[old.len() + j].work_item);
        }
    }
}

/// Merging the same AzDo result a second time adds no entry.
pub proof fn lemma_merge_again_adds_nothing(
    old: Seq<FeatureEntry>,
    azdo: Seq<WorkItem>,
    once: Seq<FeatureEntry>,
    twice: Seq<FeatureEntry>,
)
    requires
        merged_features(old, azdo, once),
        merged_features(once, azdo, twice),
    ensures
        twice.len() == once.len(),
{
    lemma_merge_covers_azdo(old, azdo, once);
    lemma_fresh_empty(feature_items(once), azdo);
}

/// After a task merge every AzDo item's id is on the list: an entry of the
/// merged tasks has a work item with that id.
pub proof fn lemma_merge_tasks_covers_azdo(old: Seq<TaskEntry>, azdo: Seq<WorkItem>, r: Seq<TaskEntry>)
    requires
        merged_tasks(old, azdo, r),
    ensures
        forall|i: int| 0 <= i < azdo.len() ==> known_id(task_items(r), (#[trigger] azdo[i]).id),
{
    let items = task_items(old);
    let fresh = fresh_items(items, azdo);
    lemma_refresh_keeps_keys(items, azdo);
    assert forall|i: int| 0 <= i < azdo.len() implies known_id(task_items(r), (#[trigger] azdo[i]).id) by {
        if known_id(items, azdo[i].id) {
            let k = choose|k: int| 0 <= k < items.len() && (#[trigger] items[k]) is Some && items[k]->0.id == azdo[i].id;
            let ri = refresh_all(items, azdo);
            assert(item_key(ri[k]) == item_key(items[k]));
            assert(r[k].work_item == ri[k]);
            assert(task_items(r)[k] == r[k].work_item);
        } else {
            lemma_fresh_members(items, azdo, i);
            let j = choose|j: int| 0 <= j < fresh.len() && (#[trigger] fresh[j]) == azdo[i];
            assert(is_new_task(r[old.len() + j], fresh[j]));
            assert(task_items(r)[old.len() + j] == r[old.len() + j].work_item);
        }
    }
}

/// Merging the same AzDo task result a second time adds no entry.
pub proof fn lemma_merge_tasks_again_adds_nothing(
    old: Seq<TaskEntry>,
    azdo: Seq<WorkItem>,
    once: Seq<TaskEntry>,
    twice: Seq<TaskEntry>,
)
    requires
        merged_tasks(old, azdo, once),
        merged_tasks(once, azdo, twice),
    ensures
        twice.len() == once.len(),
{
    lemma_merge_tasks_covers_azdo(old, azdo, once);
    lemma_fresh_empty(task_items(once), azdo);
}

proof fn lemma_first_match_unique(items: Seq<Option<WorkItem>>, id: Option<u64>, k1: int, k2: int)
    requires
        is_first_match(items, id, k1),
        is_first_match(items, id, k2),
    ensures
        k1 == k2,
{
    if k1 < k2 {
        assert(item_key(items[k1]) != id);
    } else if k2 < k1 {
        assert(item_key(items[k2]) != id);
    }
}

/// Refreshing by an item of another id leaves the first entry of `id`
/// as it was.
proof fn lemma_refresh_one_other(items: Seq<Option<WorkItem>>, wi: WorkItem, id: Option<u64>, k: int)
    requires
        is_first_match(items, id, k),
        wi.id != id,
    ensures
        refresh_one(items, wi).len() == items.len(),
        refresh_one(items, wi)[k] == items[k],
{
    if exists|j: int| is_first_match(items, wi.id, j) {
        let j = choose|j: int| is_first_match(items, wi.id, j);
        assert(item_key(items[j]) == wi.id);
        assert(j != k);
    }
}

/// Refreshing by an item of `id` refreshes the first entry of `id`.
proof fn lemma_refresh_one_same(items: Seq<Option<WorkItem>>, wi: WorkItem, k: int, w: WorkItem)
    requires
        is_first_match(items, wi.id, k),
        items[k] == Some(w),
    ensures
        refresh_one(items, wi)[k] == Some(refreshed(w, wi)),
{
    let j = choose|j: int| is_first_match(items, wi.id, j);
    lemma_first_match_unique(items, wi.id, j, k);
}

/// Refreshing keeps `k` the first entry of its key.
proof fn lemma_refresh_keeps_first(items: Seq<Option<WorkItem>>, azdo: Seq<WorkItem>, id: Option<u64>, k: int)
    requires
        is_first_match(items, id, k),
    ensures
        is_first_match(refresh_all(items, azdo), id, k),
{
    lemma_refresh_keeps_keys(items, azdo);
    let ri = refresh_all(items, azdo);
    assert forall|j: int| 0 <= j < k implies item_key(#[trigger] ri[j]) != id by {
        assert(item_key(ri[j]) == item_key(items[j]));
    }
    assert(item_key(ri[k]) == item_key(items[k]));
}

proof fn lemma_refresh_untouched(items: Seq<Option<WorkItem>>, azdo: Seq<WorkItem>, id: Option<u64>, k: int)
    requires
        is_first_match(items, id, k),
        forall|j: int| 0 <= j < azdo.len() ==> (#[trigger] azdo[j]).id != id,
    ensures
        refresh_all(items, azdo)[k] == items[k],
    decreases azdo.len(),
{
    if azdo.len() > 0 {
        let init = azdo.drop_last();
        assert forall|j: int| 0 <= j < init.len() implies (#[trigger] init[j]).id != id by {
            assert(init[j] == azdo[j]);
        }
        lemma_refresh_untouched(items, init, id, k);
        lemma_refresh_keeps_first(items, init, id, k);
        lemma_refresh_one_other(refresh_all(items, init), azdo.last(), id, k);
    }
}

/// The first local entry of an id that exactly one AzDo item carries ends
/// up refreshed from that item.
proof fn lemma_refresh_by_unique(items: Seq<Option<WorkItem>>, azdo: Seq<WorkItem>, k: int, w: WorkItem, i: int)
    requires
        items[k] == Some(w),
        is_first_match(items, w.id, k),
        0 <= i < azdo.len(),
        azdo[i].id == w.id,
        forall|j: int| 0 <= j < azdo.len() && j != i ==> (#[trigger] azdo[j]).id != w.id,
    ensures
        refresh_all(items, azdo)[k] == Some(refreshed(w, azdo[i])),
    decreases azdo.len(),
{
    let init = azdo.drop_last();
    lemma_refresh_keeps_first(items, init, w.id, k);
    if i == azdo.len() - 1 {
        assert forall|j: int| 0 <= j < init.len() implies (#[trigger] init[j]).id != w.id by {
            assert(init[j] == azdo[j]);
        }
        lemma_refresh_untouched(items, init, w.id, k);
        lemma_refresh_one_same(refresh_all(items, init), azdo.last(), k, w);
    } else {
        assert forall|j: int| 0 <= j < init.len() && j != i implies (#[trigger] init[j]).id != w.id by {
            assert(init[j] == azdo[j]);
        }
        lemma_refresh_by_unique(items, init, k, w, i);
        lemma_refresh_one_other(refresh_all(items, init), azdo.last(), w.id, k);
    }
}

/// What a merge makes of a local work item that exactly one fetched item
/// matches by id (the first local entry with that id): it takes over the
/// fetched state, and the fetched description and acceptance criteria
/// where it has none of its own (keeping its own where it has them); its
/// other fields, and the entry's name and group, stay.
pub proof fn lemma_merge_refreshes_features(
    old: Seq<FeatureEntry>,
    azdo: Seq<WorkItem>,
    r: Seq<FeatureEntry>,
    k: int,
    i: int,
)
    requires
        merged_features(old, azdo, r),
        0 <= k < old.len(),
        old[k].work_item is Some,
        forall|j: int| 0 <= j < k ==> item_key((#[trigger] old[j]).work_item) != old[k].work_item->0.id,
        0 <= i < azdo.len(),
        azdo[i].id == old[k].work_item->0.id,
        forall|j: int| 0 <= j < azdo.len() && j != i ==> (#[trigger] azdo[j]).id != azdo[i].id,
    ensures
        ({
            let w = old[k].work_item->0;
            let a = azdo[i];
            r[k].work_item matches Some(x) && x.state == a.state && x.description == (if w.description is None {
                a.description
            } else {
                w.description
            }) && x.acceptance_criteria == (if w.acceptance_criteria is None {
                a.acceptance_criteria
            } else {
                w.acceptance_criteria
            }) && x.id == w.id && x.title == w.title && x.work_item_type == w.work_item_type
                && x.assigned_to == w.assigned_to && x.parent_id == w.parent_id
        }),
        r[k].name == old[k].name,
        r[k].group == old[k].group,
{
    let items = feature_items(old);
    let w = old[k].work_item->0;
    assert forall|j: int| 0 <= j < k implies item_key(#[trigger] items[j]) != w.id by {
        assert(items[j] == old[j].work_item);
    }
    assert(items[k] == Some(w));
    lemma_refresh_by_unique(items, azdo, k, w, i);
    assert(r[k] == (FeatureEntry { work_item: refresh_all(items, azdo)[k], ..old[k] }));
}

/// The same for tasks: a merge refreshes the first local task of an id
/// that exactly one fetched item carries.
pub proof fn lemma_merge_refreshes_tasks(
    old: Seq<TaskEntry>,
    azdo: Seq<WorkItem>,
    r: Seq<TaskEntry>,
    k: int,
    i: int,
)
    requires
        merged_tasks(old, azdo, r),
        0 <= k < old.len(),
        old[k].work_item is Some,
        forall|j: int| 0 <= j < k ==> item_key((#[trigger] old[j]).work_item) != old[k].work_item->0.id,
        0 <= i < azdo.len(),
        azdo[i].id == old[k].work_item->0.id,
        forall|j: int| 0 <= j < azdo.len() && j != i ==> (#[trigger] azdo[j]).id != azdo[i].id,
    ensures
        ({
            let w = old[k].work_item->0;
            let a = azdo[i];
            r[k].work_item matches Some(x) && x.state == a.state && x.description == (if w.description is None {
                a.description
            } else {
                w.description
            }) && x.acceptance_criteria == (if w.acceptance_criteria is None {
                a.acceptance_criteria
            } else {
                w.acceptance_criteria
            }) && x.id == w.id && x.title == w.title && x.work_item_type == w.work_item_type
                && x.assigned_to == w.assigned_to && x.parent_id == w.parent_id
        }),
        r[k].name == old[k].name,
        r[k].group == old[k].group,
{
    let items = task_items(old);
    let w = old[k].work_item->0;
    assert forall|j: int| 0 <= j < k implies item_key(#[trigger] items[j]) != w.id by {
        assert(items[j] == old[j].work_item);
    }
    assert(items[k] == Some(w));
    lemma_refresh_by_unique(items, azdo, k, w, i);
    assert(r[k] == (TaskEntry { work_item: refresh_all(items, azdo)[k], ..old[k] }));
}

proof fn lemma_fresh_empty(items: Seq<Option<WorkItem>>, azdo: Seq<WorkItem>)
    requires
        forall|i: int| 0 <= i < azdo.len() ==> known_id(items, (#[trigger] azdo[i]).id),
    ensures
        fresh_items(items, azdo).len() == 0,
    decreases azdo.len(),
{
    if azdo.len() > 0 {
        assert forall|i: int| 0 <= i < azdo.drop_last().len() implies known_id(
            items,
            (#[trigger] azdo.drop_last()[i]).id,
        ) by {
            assert(azdo.drop_last()[i] == azdo[i]);
        }
        lemma_fresh_empty(items, azdo.drop_last());
        assert(known_id(items, azdo[azdo.len() - 1].id));
    }
}

// ─── Executable ──────────────────────────────────────────────────

fn key_is(w: &Option<WorkItem>, id: Option<u64>) -> (b: bool)
    ensures
        b == (item_key(*w) == id),
{
    let k = match w {
        Some(x) => x.id,
        None => None,
    };
    match (k, id) {
        (Some(a), Some(b)) => a == b,
        (None, None) => true,
        _ => false,
    }
}

fn refreshed_item(local: &WorkItem, remote: &WorkItem) -> (r: WorkItem)
    ensures
        r == refreshed(*local, *remote),
{
    WorkItem {
        id: local.id,
        title: local.title.clone(),
        work_item_type: local.work_item_type,
        state: remote.state.clone(),
        assigned_to: clone_opt(&local.assigned_to),
        description: if local.description.is_none() {
            clone_opt(&remote.description)
        } else {
            clone_opt(&local.description)
        },
        acceptance_criteria: if local.acceptance_criteria.is_none() {
            clone_opt(&remote.acceptance_criteria)
        } else {
            clone_opt(&local.acceptance_criteria)
        },
        parent_id: local.parent_id,
    }
}

/// Applies one AzDo item to the local work items.
fn refresh_one_exec(items: &mut Vec<Option<WorkItem>>, wi: &WorkItem)
    ensures
        final(items)@ == refresh_one(old(items)@, *wi),
{
    let mut k: usize = 0;
    while k < items.len() && !key_is(&items[k], wi.id)
        invariant
            k <= items@.len(),
            forall|j: int| 0 <= j < k ==> item_key(#[trigger] items@[j]) != wi.id,
        decreases items@.len() - k,
    {
        k = k + 1;
    }
    if k < items.len() {
        assert(is_first_match(items@, wi.id, k as int));
        assert forall|m: int| is_first_match(items@, wi.id, m) implies m == k by {
            if m < k {
                assert(item_key(items@[m]) != wi.id);
            } else if m > k {
                assert(item_key(items@[k as int]) != wi.id);
            }
        }
        let updated = match &items[k] {
            Some(w) => Some(refreshed_item(w, wi)),
            None => None,
        };
        if updated.is_some() {
            items.set(k, updated);
        }
    } else {
        assert(!exists|m: int| is_first_match(items@, wi.id, m));
    }
}

/// Applies the AzDo items in order to the local work items.
fn refresh_all_exec(items: &mut Vec<Option<WorkItem>>, azdo: &Vec<WorkItem>)
    ensures
        final(items)@ == refresh_all(old(items)@, azdo@),
{
    let ghost orig = items@;
    let mut i: usize = 0;
    while i < azdo.len()
        invariant
            i <= azdo@.len(),
            items@ == refresh_all(orig, azdo@.take(i as int)),
        decreases azdo@.len() - i,
    {
        assert(azdo@.take(i + 1).drop_last() =~= azdo@.take(i as int));
        refresh_one_exec(items, &azdo[i]);
        i = i + 1;
    }
    assert(azdo@.take(i as int) =~= azdo@);
}

fn is_known(items: &Vec<Option<WorkItem>>, id: Option<u64>) -> (b: bool)
    ensures
        b == known_id(items@, id),
{
    let mut k: usize = 0;
    while k < items.len()
        invariant
            k <= items@.len(),
            forall|j: int| 0 <= j < k ==> !((#[trigger] items@[j]) is Some && items@[j]->0.id == id),
        decreases items@.len() - k,
    {
        let hit = match &items[k] {
            Some(_) => key_is(&items[k], id),
            None => false,
        };
        if hit {
            return true;
        }
        k = k + 1;
    }
    false
}

/// The AzDo items that no local entry knows, in order.
fn fresh_exec(items: &Vec<Option<WorkItem>>, azdo: &Vec<WorkItem>) -> (r: Vec<WorkItem>)
    ensures
        r@ == fresh_items(items@, azdo@),
{
    let mut r: Vec<WorkItem> = Vec::new();
    let mut i: usize = 0;
    while i < azdo.len()
        invariant
            i <= azdo@.len(),
            r@ == fresh_items(items@, azdo@.take(i as int)),
        decreases azdo@.len() - i,
    {
        assert(azdo@.take(i + 1).drop_last() =~= azdo@.take(i as int));
        assert(azdo@.take(i + 1).last() == azdo@[i as int]);
        if !is_known(items, azdo[i].id) {
            r.push(azdo[i].duplicate());
        }
        i = i + 1;
    }
    assert(azdo@.take(i as int) =~= azdo@);
    r
}

/// The name of the feature entry for an AzDo item.
pub fn feature_name(wi: &WorkItem) -> (s: String)
    ensures
        s@ == feature_name_of(*wi),
{
    match wi.id {
        Some(id) => {
            let mut v: Vec<char> = Vec::new();
            push_str(&mut v, "#");
            push_decimal(&mut v, id);
            push_str(&mut v, " ");
            push_str(&mut v, wi.title.as_str());
            string_from(&v)
        },
        None => wi.title.clone(),
    }
}

/// The task group for a work item type.
pub fn task_group(t: WorkItemType) -> (g: TaskGroup)
    ensures
        g == task_group_of(t),
{
    match t {
        WorkItemType::Bug => TaskGroup::Bug,
        WorkItemType::UserStory => TaskGroup::UserStory,
        WorkItemType::Task => TaskGroup::Task,
        _ => TaskGroup::Free,
    }
}

/// Merges fetched AzDo features into the local feature list: local
/// entries whose work item matches an AzDo item get its state (and the
/// description and acceptance criteria where they had none); AzDo items
/// that no local entry knows are appended as AzDo-only entries.
pub fn merge_features(features: &Vec<FeatureEntry>, azdo: &Vec<WorkItem>) -> (r: Vec<FeatureEntry>)
    ensures
        merged_features(features@, azdo@, r@),
{
    let mut items: Vec<Option<WorkItem>> = Vec::new();
    let mut k: usize = 0;
    while k < features.len()
        invariant
            k <= features@.len(),
            items@ == feature_items(features@).take(k as int),
        decreases features@.len() - k,
    {
        items.push(clone_work_item(&features[k].work_item));
        k = k + 1;
        assert(items@ =~= feature_items(features@).take(k as int));
    }
    assert(feature_items(features@).take(k as int) =~= feature_items(features@));
    let fresh = fresh_exec(&items, azdo);
    refresh_all_exec(&mut items, azdo);
    proof {
        lemma_refresh_keeps_keys(feature_items(features@), azdo@);
    }
    let mut r: Vec<FeatureEntry> = Vec::new();
    let mut k: usize = 0;
    while k < features.len()
        invariant
            k <= features@.len(),
            items@.len() == features@.len(),
            items@ == refresh_all(feature_items(features@), azdo@),
            r@.len() == k,
            forall|j: int|
                0 <= j < k ==> (#[trigger] r@[j]) == (FeatureEntry { work_item: items@[j], ..features@[j] }),
        decreases features@.len() - k,
    {
        let f = &features[k];
        r.push(
            FeatureEntry {
                name: f.name.clone(),
                group: f.group,
                session_exists: f.session_exists,
                window_count: f.window_count,
                work_item: clone_work_item(&items[k]),
            },
        );
        k = k + 1;
    }
    let n = features.len();
    let mut j: usize = 0;
    while j < fresh.len()
        invariant
            j <= fresh@.len(),
            n == features@.len(),
            r@.len() == n + j,
            forall|m: int|
                0 <= m < n ==> (#[trigger] r@[m]) == (FeatureEntry { work_item: items@[m], ..features@[m] }),
            forall|m: int| 0 <= m < j ==> is_new_feature(#[trigger] r@[n + m], fresh@[m]),
        decreases fresh@.len() - j,
    {
        let wi = &fresh[j];
        r.push(
            FeatureEntry {
                name: feature_name(wi),
                group: FeatureGroup::AzdoOnly,
                session_exists: false,
                window_count: 0,
                work_item: Some(wi.duplicate()),
            },
        );
        assert(is_new_feature(r@[n + j], fresh@[j as int]));
        j = j + 1;
    }
    r
}

/// Merges fetched AzDo tasks into the local task list: local entries
/// whose work item matches an AzDo item get its state (and the
/// description and acceptance criteria where they had none); AzDo items
/// that no local entry knows are appended, grouped by their type.
pub fn merge_tasks(tasks: &Vec<TaskEntry>, azdo: &Vec<WorkItem>) -> (r: Vec<TaskEntry>)
    ensures
        merged_tasks(tasks@, azdo@, r@),
{
    let mut items: Vec<Option<WorkItem>> = Vec::new();
    let mut k: usize = 0;
    while k < tasks.len()
        invariant
            k <= tasks@.len(),
            items@ == task_items(tasks@).take(k as int),
        decreases tasks@.len() - k,
    {
        items.push(clone_work_item(&tasks[k].work_item));
        k = k + 1;
        assert(items@ =~= task_items(tasks@).take(k as int));
    }
    assert(task_items(tasks@).take(k as int) =~= task_items(tasks@));
    let fresh = fresh_exec(&items, azdo);
    refresh_all_exec(&mut items, azdo);
    proof {
        lemma_refresh_keeps_keys(task_items(tasks@), azdo@);
    }
    let mut r: Vec<TaskEntry> = Vec::new();
    let mut k: usize = 0;
    while k < tasks.len()
        invariant
            k <= tasks@.len(),
            items@.len() == tasks@.len(),
            items@ == refresh_all(task_items(tasks@), azdo@),
            r@.len() == k,
            forall|j: int|
                0 <= j < k ==> (#[trigger] r@[j]) == (TaskEntry { work_item: items@[j], ..tasks@[j] }),
        decreases tasks@.len() - k,
    {
        let t = &tasks[k];
        r.push(
            TaskEntry {
                name: t.name.clone(),
                group: t.group,
                window_exists: t.window_exists,
                window_index: t.window_index,
                work_item: clone_work_item(&items[k]),
                copilot_session_id: clone_opt(&t.copilot_session_id),
            },
        );
        k = k + 1;
    }
    let n = tasks.len();
    let mut j: usize = 0;
    while j < fresh.len()
        invariant
            j <= fresh@.len(),
            n == tasks@.len(),
            r@.len() == n + j,
            forall|m: int|
                0 <= m < n ==> (#[trigger] r@[m]) == (TaskEntry { work_item: items@[m], ..tasks@[m] }),
            forall|m: int| 0 <= m < j ==> is_new_task(#[trigger] r@[n + m], fresh@[m]),
        decreases fresh@.len() - j,
    {
        let wi = &fresh[j];
        r.push(
            TaskEntry {
                name: wi.display_label(),
                group: task_group(wi.work_item_type),
                window_exists: false,
                window_index: None,
                work_item: Some(wi.duplicate()),
                copilot_session_id: None,
            },
        );
        assert(is_new_task(r@[n + j], fresh@[j as int]));
        j = j + 1;
    }
    r
}

} // verus!
