use tmux_pilot::config::{WorkItem, WorkItemType};
use tmux_pilot::display::{
    detail_lines, feature_row, state_badge, status_line, task_row, truncate, Gruvbox,
};
use tmux_pilot::entries::{
    sort_features, sort_tasks, update_feature_filter, update_task_filter, FeatureEntry,
    FeatureGroup, TaskEntry, TaskGroup,
};
use tmux_pilot::lists::{
    clicked_row, move_selection_down, move_selection_up, row_kinds, select_row_if_valid, RowKind,
};
use tmux_pilot::merge::{merge_features, merge_tasks};
use tmux_pilot::showcase::{demo_dashboard, demo_feature_entries, demo_task_entries};

fn wi(id: Option<u64>, title: &str, t: WorkItemType, state: &str) -> WorkItem {
    WorkItem {
        id,
        title: title.to_string(),
        work_item_type: t,
        state: state.to_string(),
        assigned_to: None,
        description: None,
        acceptance_criteria: None,
        parent_id: None,
    }
}

fn feature(name: &str, group: FeatureGroup, w: Option<WorkItem>) -> FeatureEntry {
    FeatureEntry { name: name.to_string(), group, session_exists: true, window_count: 2, work_item: w }
}

#[test]
fn features_sort_by_group_then_name() {
    let fs = vec![
        feature("zeta", FeatureGroup::Free, None),
        feature("beta", FeatureGroup::Linked, None),
        feature("alpha", FeatureGroup::AzdoOnly, None),
        feature("alpha", FeatureGroup::Linked, None),
    ];
    let sorted = sort_features(&fs);
    let names: Vec<(&str, FeatureGroup)> = sorted.iter().map(|f| (f.name.as_str(), f.group)).collect();
    assert_eq!(
        names,
        vec![
            ("alpha", FeatureGroup::Linked),
            ("beta", FeatureGroup::Linked),
            ("alpha", FeatureGroup::AzdoOnly),
            ("zeta", FeatureGroup::Free),
        ]
    );
}

#[test]
fn equal_tasks_keep_their_order() {
    let mk = |name: &str, idx: usize| TaskEntry {
        name: name.to_string(),
        group: TaskGroup::Task,
        window_exists: true,
        window_index: Some(idx),
        work_item: None,
        copilot_session_id: None,
    };
    let ts = vec![mk("same", 1), mk("a", 2), mk("same", 3)];
    let sorted = sort_tasks(&ts);
    let idx: Vec<Option<usize>> = sorted.iter().map(|t| t.window_index).collect();
    assert_eq!(idx, vec![Some(2), Some(1), Some(3)]);
}

#[test]
fn filter_rows_have_headers_and_spacers() {
    let fs = vec![
        feature("a", FeatureGroup::Linked, None),
        feature("b", FeatureGroup::Linked, None),
        feature("c", FeatureGroup::Free, None),
    ];
    let (filtered, rows) = update_feature_filter(&fs, "");
    assert_eq!(filtered, vec![0, 1, 2]);
    assert_eq!(rows, vec![None, Some(0), Some(1), None, None, Some(2)]);
    assert_eq!(
        row_kinds(&rows),
        vec![
            RowKind::Header(0),
            RowKind::Entry(0),
            RowKind::Entry(1),
            RowKind::Spacer,
            RowKind::Header(2),
            RowKind::Entry(2),
        ]
    );
    let (none, empty) = update_feature_filter(&fs, "zzz");
    assert!(none.is_empty());
    assert!(empty.is_empty());
}

#[test]
fn task_rows_have_one_header_per_group() {
    let mk = |name: &str, group: TaskGroup| TaskEntry {
        name: name.to_string(),
        group,
        window_exists: false,
        window_index: None,
        work_item: None,
        copilot_session_id: None,
    };
    let ts = vec![
        mk("crash", TaskGroup::Bug),
        mk("leak", TaskGroup::Bug),
        mk("login", TaskGroup::UserStory),
        mk("docs", TaskGroup::Task),
    ];
    let (filtered, rows) = update_task_filter(&ts, "");
    assert_eq!(filtered, vec![0, 1, 2, 3]);
    assert_eq!(rows[0], None);
    // three runs of one group: three headers and two spacers
    assert_eq!(rows.iter().filter(|r| r.is_none()).count(), 5);
    assert_eq!(rows, vec![None, Some(0), Some(1), None, None, Some(2), None, None, Some(3)]);
}

#[test]
fn task_filter_keeps_matches() {
    let mk = |name: &str| TaskEntry {
        name: name.to_string(),
        group: TaskGroup::Bug,
        window_exists: false,
        window_index: None,
        work_item: None,
        copilot_session_id: None,
    };
    let ts = vec![mk("login page"), mk("payments"), mk("logout")];
    let (filtered, rows) = update_task_filter(&ts, "log");
    assert_eq!(filtered.len(), 2);
    assert!(filtered.contains(&0) && filtered.contains(&2));
    assert_eq!(rows.len(), 3);
    assert_eq!(rows[0], None);
}

#[test]
fn cursor_skips_headers_and_wraps() {
    let rows = vec![None, Some(0), Some(1), None, None, Some(2)];
    assert_eq!(move_selection_down(&rows, Some(1)), Some(2));
    assert_eq!(move_selection_down(&rows, Some(2)), Some(5));
    assert_eq!(move_selection_down(&rows, Some(5)), Some(1));
    assert_eq!(move_selection_up(&rows, Some(1)), Some(5));
    assert_eq!(move_selection_up(&rows, Some(5)), Some(2));
    // down then up comes back
    let d = move_selection_down(&rows, Some(2));
    assert_eq!(move_selection_up(&rows, d), Some(2));
}

#[test]
fn clicks_pick_rows_under_the_pointer() {
    // list drawn from screen row 3 over 10 rows, scrolled by 4
    assert_eq!(clicked_row(3, 3, 10, 4), Some(4));
    assert_eq!(clicked_row(12, 3, 10, 0), Some(9));
    assert_eq!(clicked_row(2, 3, 10, 4), None);
    assert_eq!(clicked_row(13, 3, 10, 4), None);
    let rows = vec![None, Some(0), Some(1)];
    assert_eq!(select_row_if_valid(&rows, 0, Some(1)), Some(1));
    assert_eq!(select_row_if_valid(&rows, 2, Some(1)), Some(2));
    assert_eq!(select_row_if_valid(&rows, 7, None), None);
}

#[test]
fn merge_refreshes_and_appends() {
    let mut local = wi(Some(1), "Local", WorkItemType::Feature, "");
    local.description = Some("mine".to_string());
    let fs = vec![
        feature("#1 Local", FeatureGroup::Linked, Some(local)),
        feature("free", FeatureGroup::Free, None),
    ];
    let mut remote = wi(Some(1), "Remote", WorkItemType::Feature, "Active");
    remote.description = Some("theirs".to_string());
    remote.acceptance_criteria = Some("ac".to_string());
    let azdo = vec![remote, wi(Some(2), "New one", WorkItemType::Feature, "New")];
    let merged = merge_features(&fs, &azdo);
    assert_eq!(merged.len(), 3);
    let w0 = merged[0].work_item.as_ref().unwrap();
    assert_eq!(w0.state, "Active");
    assert_eq!(w0.title, "Local");
    assert_eq!(w0.description.as_deref(), Some("mine"));
    assert_eq!(w0.acceptance_criteria.as_deref(), Some("ac"));
    assert_eq!(merged[2].name, "#2 New one");
    assert_eq!(merged[2].group, FeatureGroup::AzdoOnly);
    assert!(!merged[2].session_exists);
    // merging the same result again adds nothing
    let again = merge_features(&merged, &azdo);
    assert_eq!(again.len(), merged.len());
}

#[test]
fn merged_tasks_are_grouped_by_type() {
    let azdo = vec![
        wi(Some(5), "Crash", WorkItemType::Bug, "New"),
        wi(None, "Untracked", WorkItemType::Feature, ""),
    ];
    let merged = merge_tasks(&Vec::new(), &azdo);
    assert_eq!(merged.len(), 2);
    assert_eq!(merged[0].group, TaskGroup::Bug);
    assert_eq!(merged[0].name, "🐛 #5 Crash");
    assert_eq!(merged[1].group, TaskGroup::Free);
    assert_eq!(merged[1].name, "🏗 Untracked");
    assert!(!merged[1].window_exists);
    // a second merge of the same reply adds nothing
    let again = merge_tasks(&merged, &azdo);
    assert_eq!(again.len(), merged.len());
}

#[test]
fn truncate_by_bytes() {
    assert_eq!(truncate("short", 30), "short");
    assert_eq!(truncate("abcdefghij", 5), "abcd…");
}

#[test]
fn badges() {
    assert_eq!(state_badge("Active"), ("●", Gruvbox::Green));
    assert_eq!(state_badge("New"), ("○", Gruvbox::Blue));
    assert_eq!(state_badge(""), ("", Gruvbox::Gray));
    assert_eq!(state_badge("Blocked"), ("◌", Gruvbox::Yellow));
}

#[test]
fn feature_row_texts() {
    let f = FeatureEntry {
        name: "#7 Login".to_string(),
        group: FeatureGroup::Linked,
        session_exists: true,
        window_count: 3,
        work_item: Some(wi(Some(7), "Login", WorkItemType::Feature, "Resolved")),
    };
    let texts: Vec<String> = feature_row(&f).into_iter().map(|p| p.text).collect();
    assert_eq!(texts, vec!["  ", "🏗 ", "#7 Login", "   #7  3w", " ◉"]);
    let t = TaskEntry {
        name: "shell".to_string(),
        group: TaskGroup::Free,
        window_exists: false,
        window_index: None,
        work_item: None,
        copilot_session_id: None,
    };
    let row = task_row(&t);
    assert_eq!(row.len(), 4);
    assert_eq!(row[3].text, " ⊕ new");
    assert_eq!(row[1].tone, Some(Gruvbox::Gray));
}

#[test]
fn detail_body_lines() {
    let mut w = wi(Some(1), "X", WorkItemType::Task, "New");
    w.description = Some("<p>one</p><p>two</p>".to_string());
    w.assigned_to = Some("Bo".to_string());
    let lines = detail_lines(&w);
    let first: Vec<String> = lines.iter().map(|l| l.iter().map(|p| p.text.clone()).collect::<String>()).collect();
    assert_eq!(first[0], "  Description");
    assert_eq!(first[2], "  one");
    assert_eq!(first[3], "  two");
    assert_eq!(first[4], "");
    assert_eq!(first[5], "  Acceptance Criteria");
    assert_eq!(first[7], "  (none)");
    assert_eq!(first[9], "  Assigned: Bo");
}

#[test]
fn status_line_spinner() {
    assert_eq!(status_line(true, 11, "Loading"), "  ⠙ Loading");
    assert_eq!(status_line(false, 0, "boom"), "  ⚠ boom");
}

#[test]
fn demo_lists() {
    let fs = demo_feature_entries();
    assert_eq!(fs.len(), 6);
    assert_eq!(fs[2].work_item.as_ref().unwrap().id, Some(10004));
    let ts = demo_task_entries();
    assert_eq!(ts.len(), 7);
    assert_eq!(ts[6].name, "shell");
    let d = demo_dashboard();
    assert_eq!(d.len(), 4);
    assert!(d[0].attached);
    assert_eq!(d[3].windows, vec!["shell".to_string()]);
}
