//! The local lists: feature entries from tmux sessions and their saved
//! mappings, task entries from a session's windows, dashboard rows.
use vstd::prelude::*;

use crate::config::{clone_opt, clone_strings, WorkItem, WorkItemType};
use crate::entries::{DashboardEntry, FeatureEntry, FeatureGroup, TaskEntry, TaskGroup};
use crate::merge::{task_group, task_group_of};
use crate::store::{SessionMapping, WindowMapping};
use crate::text::str_eq;
use crate::tmux::{TmuxSession, TmuxWindow};

verus! {

/// The type that a saved feature mapping names ("Free" for anything
/// else).
pub open spec fn feature_type_of(name: Option<Seq<char>>) -> WorkItemType {
    match name {
        Some(n) => if n == "Feature"@ {
            WorkItemType::Feature
        } else if n == "User Story"@ {
            WorkItemType::UserStory
        } else if n == "Bug"@ {
            WorkItemType::Bug
        } else if n == "Task"@ {
            WorkItemType::Task
        } else {
            WorkItemType::Free
        },
        None => WorkItemType::Free,
    }
}

/// The type that a saved window mapping names: a story, bug or task,
/// "Free" for anything else.
pub open spec fn task_type_of(name: Option<Seq<char>>) -> WorkItemType {
    match name {
        Some(n) => if n == "User Story"@ {
            WorkItemType::UserStory
        } else if n == "Bug"@ {
            WorkItemType::Bug
        } else if n == "Task"@ {
            WorkItemType::Task
        } else {
            WorkItemType::Free
        },
        None => WorkItemType::Free,
    }
}

fn feature_type(name: &Option<String>) -> (t: WorkItemType)
    ensures
        t == feature_type_of(
            match name {
                Some(n) => Some(n@),
                None => None,
            },
        ),
{
    match name {
        Some(n) => {
            let s = n.as_str();
            if str_eq(s, "Feature") {
                WorkItemType::Feature
            } else if str_eq(s, "User Story") {
                WorkItemType::UserStory
            } else if str_eq(s, "Bug") {
                WorkItemType::Bug
            } else if str_eq(s, "Task") {
                WorkItemType::Task
            } else {
                WorkItemType::Free
            }
        },
        None => WorkItemType::Free,
    }
}

fn task_type(name: &Option<String>) -> (t: WorkItemType)
    ensures
        t == task_type_of(
            match name {
                Some(n) => Some(n@),
                None => None,
            },
        ),
{
    match name {
        Some(n) => {
            let s = n.as_str();
            if str_eq(s, "User Story") {
                WorkItemType::UserStory
            } else if str_eq(s, "Bug") {
                WorkItemType::Bug
            } else if str_eq(s, "Task") {
                WorkItemType::Task
            } else {
                WorkItemType::Free
            }
        },
        None => WorkItemType::Free,
    }
}

/// `wi` is the work item rebuilt from a mapping with this id, title and
/// type.
pub open spec fn is_local_item(wi: WorkItem, id: Option<u64>, title: Option<String>, t: WorkItemType) -> bool {
    &&& wi.id == id
    &&& wi.title@ == match title {
        Some(s) => s@,
        None => Seq::<char>::empty(),
    }
    &&& wi.work_item_type == t
    &&& wi.state@ == Seq::<char>::empty()
    &&& wi.assigned_to is None
    &&& wi.description is None
    &&& wi.acceptance_criteria is None
    &&& wi.parent_id is None
}

fn make_local_item(id: Option<u64>, title: &Option<String>, t: WorkItemType) -> (wi: WorkItem)
    ensures
        is_local_item(wi, id, *title, t),
{
    let wi = WorkItem {
        id,
        title: match title {
            Some(s) => s.clone(),
            None => String::new(),
        },
        work_item_type: t,
        state: String::new(),
        assigned_to: None,
        description: None,
        acceptance_criteria: None,
        parent_id: None,
    };
    assert(wi.state@ =~= seq![]);
    assert(title is None ==> wi.title@ =~= seq![]);
    wi
}

// ─── Features ────────────────────────────────────────────────────

/// `e` is the feature entry for a tmux session with its saved mapping (if
/// any): linked when the mapping names a work item id, else free; with a
/// work item rebuilt from the mapping.
pub open spec fn is_session_feature(e: FeatureEntry, s: TmuxSession, m: Option<SessionMapping>) -> bool {
    &&& e.name@ == s.name@
    &&& e.group == (match m {
        Some(mm) => if mm.work_item_id is Some {
            FeatureGroup::Linked
        } else {
            FeatureGroup::Free
        },
        None => FeatureGroup::Free,
    })
    &&& e.session_exists
    &&& e.window_count == s.window_count
    &&& match m {
        Some(mm) => e.work_item is Some && is_local_item(
            e.work_item->0,
            mm.work_item_id,
            mm.work_item_title,
            feature_type_of(
                match mm.work_item_type {
                    Some(n) => Some(n@),
                    None => None,
                },
            ),
        ),
        None => e.work_item is None,
    }
}

/// The feature entry for a tmux session and its saved mapping.
pub fn session_feature(s: &TmuxSession, m: &Option<SessionMapping>) -> (e: FeatureEntry)
    ensures
        is_session_feature(e, *s, *m),
{
    let group = match m {
        Some(mm) => if mm.work_item_id.is_some() {
            FeatureGroup::Linked
        } else {
            FeatureGroup::Free
        },
        None => FeatureGroup::Free,
    };
    let work_item = match m {
        Some(mm) => Some(
            make_local_item(mm.work_item_id, &mm.work_item_title, feature_type(&mm.work_item_type)),
        ),
        None => None,
    };
    FeatureEntry { name: s.name.clone(), group, session_exists: true, window_count: s.window_count, work_item }
}

/// The feature entries for the tmux sessions, each with its saved mapping
/// (`mappings[i]` belongs to `sessions[i]`), in the sessions' order.
pub fn session_features(sessions: &Vec<TmuxSession>, mappings: &Vec<Option<SessionMapping>>) -> (r: Vec<
    FeatureEntry,
>)
    requires
        sessions@.len() == mappings@.len(),
    ensures
        r@.len() == sessions@.len(),
        forall|i: int|
            0 <= i < r@.len() ==> is_session_feature(#[trigger] r@[i], sessions@[i], mappings@[i]),
{
    let mut r: Vec<FeatureEntry> = Vec::new();
    let mut i: usize = 0;
    while i < sessions.len()
        invariant
            i <= sessions@.len(),
            sessions@.len() == mappings@.len(),
            r@.len() == i,
            forall|j: int|
                0 <= j < i ==> is_session_feature(#[trigger] r@[j], sessions@[j], mappings@[j]),
        decreases sessions@.len() - i,
    {
        r.push(session_feature(&sessions[i], &mappings[i]));
        i = i + 1;
    }
    r
}

// ─── Tasks ───────────────────────────────────────────────────────

/// `k` is the first mapping of a window with this name.
pub open spec fn is_first_mapping(ms: Seq<WindowMapping>, name: Seq<char>, k: int) -> bool {
    &&& 0 <= k < ms.len()
    &&& ms[k].window_name@ == name
    &&& forall|j: int| 0 <= j < k ==> (#[trigger] ms[j]).window_name@ != name
}

/// `e` is the task entry for a tmux window given the session's window
/// mappings: the first mapping with the window's name (if any) gives the
/// work item (when it names an id) and the Copilot session; the group
/// follows the work item's type.
pub open spec fn is_window_task(e: TaskEntry, w: TmuxWindow, ms: Seq<WindowMapping>) -> bool {
    &&& e.name@ == w.name@
    &&& e.window_exists
    &&& e.window_index == Some(w.index)
    &&& if exists|k: int| is_first_mapping(ms, w.name@, k) {
        let m = ms[choose|k: int| is_first_mapping(ms, w.name@, k)];
        let t = task_type_of(
            match m.work_item_type {
                Some(n) => Some(n@),
                None => None,
            },
        );
        &&& e.copilot_session_id == m.copilot_session_id
        &&& match m.work_item_id {
            Some(id) => e.work_item is Some && is_local_item(e.work_item->0, Some(id), m.work_item_title, t)
                && e.group == task_group_of(t),
            None => e.work_item is None && e.group == TaskGroup::Free,
        }
    } else {
        e.copilot_session_id is None && e.work_item is None && e.group == TaskGroup::Free
    }
}

/// The task entry for a tmux window given the session's window mappings.
pub fn window_task(w: &TmuxWindow, ms: &Vec<WindowMapping>) -> (e: TaskEntry)
    ensures
        is_window_task(e, *w, ms@),
{
    let mut k: usize = 0;
    while k < ms.len() && !str_eq(ms[k].window_name.as_str(), w.name.as_str())
        invariant
            k <= ms@.len(),
            forall|j: int| 0 <= j < k ==> (#[trigger] ms@[j]).window_name@ != w.name@,
        decreases ms@.len() - k,
    {
        k = k + 1;
    }
    if k < ms.len() {
        assert(is_first_mapping(ms@, w.name@, k as int));
        assert forall|m: int| is_first_mapping(ms@, w.name@, m) implies m == k by {
            if m < k {
                assert(ms@[m].window_name@ != w.name@);
            } else if m > k {
                assert(ms@[k as int].window_name@ != w.name@);
            }
        }
        let m = &ms[k];
        let (work_item, group) = match m.work_item_id {
            Some(id) => {
                let t = task_type(&m.work_item_type);
                (Some(make_local_item(Some(id), &m.work_item_title, t)), task_group(t))
            },
            None => (None, TaskGroup::Free),
        };
        TaskEntry {
            name: w.name.clone(),
            group,
            window_exists: true,
            window_index: Some(w.index),
            work_item,
            copilot_session_id: clone_opt(&m.copilot_session_id),
        }
    } else {
        assert(!exists|m: int| is_first_mapping(ms@, w.name@, m));
        TaskEntry {
            name: w.name.clone(),
            group: TaskGroup::Free,
            window_exists: true,
            window_index: Some(w.index),
            work_item: None,
            copilot_session_id: None,
        }
    }
}

/// The task entries for a session's windows, in the windows' order.
pub fn window_tasks(windows: &Vec<TmuxWindow>, ms: &Vec<WindowMapping>) -> (r: Vec<TaskEntry>)
    ensures
        r@.len() == windows@.len(),
        forall|i: int| 0 <= i < r@.len() ==> is_window_task(#[trigger] r@[i], windows@[i], ms@),
{
    let mut r: Vec<TaskEntry> = Vec::new();
    let mut i: usize = 0;
    while i < windows.len()
        invariant
            i <= windows@.len(),
            r@.len() == i,
            forall|j: int| 0 <= j < i ==> is_window_task(#[trigger] r@[j], windows@[j], ms@),
        decreases windows@.len() - i,
    {
        r.push(window_task(&windows[i], ms));
        i = i + 1;
    }
    r
}

// ─── Dashboard ───────────────────────────────────────────────────

/// The dashboard row for a tmux session, its saved mapping and the names
/// of its windows.
pub fn dashboard_entry(s: &TmuxSession, m: &Option<SessionMapping>, windows: &Vec<String>) -> (e:
    DashboardEntry)
    ensures
        e.session_name@ == s.name@,
        e.window_count == s.window_count,
        e.attached == s.attached,
        e.windows@ == windows@,
        e.work_item_id == match m {
            Some(mm) => mm.work_item_id,
            None => None,
        },
{
    DashboardEntry {
        session_name: s.name.clone(),
        window_count: s.window_count,
        attached: s.attached,
        windows: clone_strings(windows),
        work_item_id: match m {
            Some(mm) => mm.work_item_id,
            None => None,
        },
    }
}

} // verus!
