//! The lists that demo mode shows in place of tmux and AzDo data.
use vstd::prelude::*;

use crate::config::{display_label_of, opt_view, str_views, WorkItem};
use crate::demo::{demo_features, demo_features_spec, demo_tasks_auth, demo_tasks_auth_spec};
use crate::entries::{DashboardEntry, FeatureEntry, FeatureGroup, TaskEntry, TaskGroup};

verus! {

/// The session that demo mode's task selector belongs to.
pub open spec fn demo_session_name() -> Seq<char> {
    "#10001 OAuth 2.0 Authentication"@
}

/// The session that demo mode's task selector belongs to.
pub fn demo_session() -> (s: String)
    ensures
        s@ == demo_session_name(),
{
    "#10001 OAuth 2.0 Authentication".to_string()
}

/// The feature entries of demo mode: three linked sessions, two AzDo-only
/// features and one free session (before sorting).
pub open spec fn demo_feature_entries_spec(r: Seq<FeatureEntry>) -> bool {
    &&& r.len() == 6
    &&& forall|k: int| 0 <= k < 5 ==> (#[trigger] r[k]).work_item is Some
    &&& demo_features_spec(
        seq![
            r[0].work_item->0,
            r[1].work_item->0,
            r[3].work_item->0,
            r[2].work_item->0,
            r[4].work_item->0,
        ],
    )
    &&& r[0].name@ == "#10001 OAuth 2.0 Authentication"@ && r[0].group == FeatureGroup::Linked
        && r[0].session_exists && r[0].window_count == 4
    &&& r[1].name@ == "#10002 Real-time Collaboration Engine"@ && r[1].group == FeatureGroup::Linked
        && r[1].session_exists && r[1].window_count == 3
    &&& r[2].name@ == "#10004 API Rate Limiting & Throttling"@ && r[2].group == FeatureGroup::Linked
        && r[2].session_exists && r[2].window_count == 2
    &&& r[3].name@ == "#10003 Dashboard Analytics"@ && r[3].group == FeatureGroup::AzdoOnly
        && !r[3].session_exists && r[3].window_count == 0
    &&& r[4].name@ == "#10005 Multi-tenant Data Isolation"@ && r[4].group == FeatureGroup::AzdoOnly
        && !r[4].session_exists && r[4].window_count == 0
    &&& r[5].name@ == "scratch-pad"@ && r[5].group == FeatureGroup::Free && r[5].session_exists
        && r[5].window_count == 1 && r[5].work_item is None
}

/// The feature entries of demo mode.
pub fn demo_feature_entries() -> (r: Vec<FeatureEntry>)
    ensures
        demo_feature_entries_spec(r@),
{
    let mut f = demo_features();
    let f4 = f.pop().unwrap();
    let f3 = f.pop().unwrap();
    let f2 = f.pop().unwrap();
    let f1 = f.pop().unwrap();
    let f0 = f.pop().unwrap();
    let mut r: Vec<FeatureEntry> = Vec::new();
    r.push(
        FeatureEntry {
            name: "#10001 OAuth 2.0 Authentication".to_string(),
            group: FeatureGroup::Linked,
            session_exists: true,
            window_count: 4,
            work_item: Some(f0),
        },
    );
    r.push(
        FeatureEntry {
            name: "#10002 Real-time Collaboration Engine".to_string(),
            group: FeatureGroup::Linked,
            session_exists: true,
            window_count: 3,
            work_item: Some(f1),
        },
    );
    r.push(
        FeatureEntry {
            name: "#10004 API Rate Limiting & Throttling".to_string(),
            group: FeatureGroup::Linked,
            session_exists: true,
            window_count: 2,
            work_item: Some(f3),
        },
    );
    r.push(
        FeatureEntry {
            name: "#10003 Dashboard Analytics".to_string(),
            group: FeatureGroup::AzdoOnly,
            session_exists: false,
            window_count: 0,
            work_item: Some(f2),
        },
    );
    r.push(
        FeatureEntry {
            name: "#10005 Multi-tenant Data Isolation".to_string(),
            group: FeatureGroup::AzdoOnly,
            session_exists: false,
            window_count: 0,
            work_item: Some(f4),
        },
    );
    r.push(
        FeatureEntry {
            name: "scratch-pad".to_string(),
            group: FeatureGroup::Free,
            session_exists: true,
            window_count: 1,
            work_item: None,
        },
    );
    r
}

/// The task entries of demo mode: the OAuth feature's work items, some
/// with windows and Copilot sessions, and a free shell window (before
/// sorting).
pub open spec fn demo_task_entries_spec(r: Seq<TaskEntry>) -> bool {
    &&& r.len() == 7
    &&& forall|k: int|
        0 <= k < 6 ==> (#[trigger] r[k]).work_item is Some && r[k].name@ == display_label_of(
            r[k].work_item->0,
        )
    &&& demo_tasks_auth_spec(
        seq![
            r[0].work_item->0,
            r[1].work_item->0,
            r[2].work_item->0,
            r[3].work_item->0,
            r[4].work_item->0,
            r[5].work_item->0,
        ],
    )
    &&& r[0].group == TaskGroup::Bug && r[0].window_exists && r[0].window_index == Some(1usize)
        && opt_view(r[0].copilot_session_id) == Some("abc-123"@)
    &&& r[1].group == TaskGroup::Bug && !r[1].window_exists && r[1].window_index == None::<usize>
        && r[1].copilot_session_id is None
    &&& r[2].group == TaskGroup::UserStory && r[2].window_exists && r[2].window_index == Some(2usize)
        && opt_view(r[2].copilot_session_id) == Some("def-456"@)
    &&& r[3].group == TaskGroup::UserStory && r[3].window_exists && r[3].window_index == Some(3usize)
        && opt_view(r[3].copilot_session_id) == Some("ghi-789"@)
    &&& r[4].group == TaskGroup::Task && !r[4].window_exists && r[4].window_index == None::<usize>
        && r[4].copilot_session_id is None
    &&& r[5].group == TaskGroup::Task && r[5].window_exists && r[5].window_index == Some(4usize)
        && opt_view(r[5].copilot_session_id) == Some("jkl-012"@)
    &&& r[6].name@ == "shell"@ && r[6].group == TaskGroup::Free && r[6].window_exists
        && r[6].window_index == Some(0usize) && r[6].work_item is None
        && r[6].copilot_session_id is None
}

fn demo_task(wi: WorkItem, group: TaskGroup, index: Option<usize>, copilot: Option<String>) -> (t: TaskEntry)
    ensures
        t.name@ == display_label_of(wi),
        t.group == group,
        t.window_exists == index is Some,
        t.window_index == index,
        t.work_item == Some(wi),
        t.copilot_session_id == copilot,
{
    TaskEntry {
        name: wi.display_label(),
        group,
        window_exists: index.is_some(),
        window_index: index,
        work_item: Some(wi),
        copilot_session_id: copilot,
    }
}

/// The task entries of demo mode.
pub fn demo_task_entries() -> (r: Vec<TaskEntry>)
    ensures
        demo_task_entries_spec(r@),
{
    let mut t = demo_tasks_auth();
    let t5 = t.pop().unwrap();
    let t4 = t.pop().unwrap();
    let t3 = t.pop().unwrap();
    let t2 = t.pop().unwrap();
    let t1 = t.pop().unwrap();
    let t0 = t.pop().unwrap();
    let mut r: Vec<TaskEntry> = Vec::new();
    r.push(demo_task(t0, TaskGroup::Bug, Some(1), Some("abc-123".to_string())));
    r.push(demo_task(t1, TaskGroup::Bug, None, None));
    r.push(demo_task(t2, TaskGroup::UserStory, Some(2), Some("def-456".to_string())));
    r.push(demo_task(t3, TaskGroup::UserStory, Some(3), Some("ghi-789".to_string())));
    r.push(demo_task(t4, TaskGroup::Task, None, None));
    r.push(demo_task(t5, TaskGroup::Task, Some(4), Some("jkl-012".to_string())));
    r.push(
        TaskEntry {
            name: "shell".to_string(),
            group: TaskGroup::Free,
            window_exists: true,
            window_index: Some(0),
            work_item: None,
            copilot_session_id: None,
        },
    );
    r
}

/// The dashboard of demo mode: four sessions, the first one attached.
pub open spec fn demo_dashboard_spec(r: Seq<DashboardEntry>) -> bool {
    &&& r.len() == 4
    &&& r[0].session_name@ == "#10001 OAuth 2.0 Authentication"@ && r[0].window_count == 4
        && r[0].attached && r[0].work_item_id == Some(10001u64)
        && str_views(r[0].windows@) == seq![
        "shell"@,
        "🐛 #20001 Google OAuth Safari"@,
        "📖 #20003 GitHub identity provider"@,
        "📖 #20004 RBAC middleware"@,
    ]
    &&& r[1].session_name@ == "#10002 Real-time Collaboration"@ && r[1].window_count == 3
        && !r[1].attached && r[1].work_item_id == Some(10002u64)
        && str_views(r[1].windows@) == seq![
        "shell"@,
        "🐛 #20010 WebSocket idle drops"@,
        "📖 #20011 CRDT text editing"@,
    ]
    &&& r[2].session_name@ == "#10004 API Rate Limiting"@ && r[2].window_count == 2
        && !r[2].attached && r[2].work_item_id == Some(10004u64)
        && str_views(r[2].windows@) == seq!["shell"@, "📖 Token bucket impl"@]
    &&& r[3].session_name@ == "scratch-pad"@ && r[3].window_count == 1 && !r[3].attached
        && r[3].work_item_id == None::<u64> && str_views(r[3].windows@) == seq!["shell"@]
}

/// The dashboard of demo mode.
pub fn demo_dashboard() -> (r: Vec<DashboardEntry>)
    ensures
        demo_dashboard_spec(r@),
{
    let mut r: Vec<DashboardEntry> = Vec::new();
    let mut w0: Vec<String> = Vec::new();
    w0.push("shell".to_string());
    w0.push("🐛 #20001 Google OAuth Safari".to_string());
    w0.push("📖 #20003 GitHub identity provider".to_string());
    w0.push("📖 #20004 RBAC middleware".to_string());
    assert(str_views(w0@) =~= seq![
        "shell"@,
        "🐛 #20001 Google OAuth Safari"@,
        "📖 #20003 GitHub identity provider"@,
        "📖 #20004 RBAC middleware"@,
    ]);
    r.push(
        DashboardEntry {
            session_name: "#10001 OAuth 2.0 Authentication".to_string(),
            window_count: 4,
            attached: true,
            windows: w0,
            work_item_id: Some(10001),
        },
    );
    let mut w1: Vec<String> = Vec::new();
    w1.push("shell".to_string());
    w1.push("🐛 #20010 WebSocket idle drops".to_string());
    w1.push("📖 #20011 CRDT text editing".to_string());
    assert(str_views(w1@) =~= seq![
        "shell"@,
        "🐛 #20010 WebSocket idle drops"@,
        "📖 #20011 CRDT text editing"@,
    ]);
    r.push(
        DashboardEntry {
            session_name: "#10002 Real-time Collaboration".to_string(),
            window_count: 3,
            attached: false,
            windows: w1,
            work_item_id: Some(10002),
        },
    );
    let mut w2: Vec<String> = Vec::new();
    w2.push("shell".to_string());
    w2.push("📖 Token bucket impl".to_string());
    assert(str_views(w2@) =~= seq!["shell"@, "📖 Token bucket impl"@]);
    r.push(
        DashboardEntry {
            session_name: "#10004 API Rate Limiting".to_string(),
            window_count: 2,
            attached: false,
            windows: w2,
            work_item_id: Some(10004),
        },
    );
    let mut w3: Vec<String> = Vec::new();
    w3.push("shell".to_string());
    assert(str_views(w3@) =~= seq!["shell"@]);
    r.push(
        DashboardEntry {
            session_name: "scratch-pad".to_string(),
            window_count: 1,
            attached: false,
            windows: w3,
            work_item_id: None,
        },
    );
    r
}

} // verus!
