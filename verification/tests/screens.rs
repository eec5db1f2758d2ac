use tmux_pilot::config::{WorkItem, WorkItemType};
use tmux_pilot::entries::{FeatureEntry, FeatureGroup, TaskEntry, TaskGroup};
use tmux_pilot::hierarchy::Hierarchy;
use tmux_pilot::keys::{
    center_key, demo_tick, features_cache_key, key_intents, manager_key, restored_selection, CenterAction, ManagerAction, tasks_cache_key, tasks_parent,
    text_key, Intent, KeyCode, KeyPress, Nudge, TextAction, TextOutcome,
};
use tmux_pilot::listing::{session_features, window_tasks};
use tmux_pilot::plans::{
    copilot_window_plan, feature_plan, free_session_plan, task_plan, task_window_name,
    terminal_window_plan, Step,
};
use tmux_pilot::screen::View;
use tmux_pilot::setup::{pick_key, prompt_text, text_answer, update_filter, wizard_azdo, PickKey, Picked, Picker};
use tmux_pilot::store::{SessionMapping, WindowMapping};
use tmux_pilot::tmux::{TmuxSession, TmuxWindow};

fn key(code: KeyCode) -> KeyPress {
    KeyPress { code, ctrl: false }
}

fn wi(id: Option<u64>, title: &str, t: WorkItemType) -> WorkItem {
    WorkItem {
        id,
        title: title.to_string(),
        work_item_type: t,
        state: String::new(),
        assigned_to: None,
        description: None,
        acceptance_criteria: None,
        parent_id: None,
    }
}

#[test]
fn keys_of_the_feature_selector() {
    let (i, p) = key_intents(View::FeatureSelector, false, false, key(KeyCode::Char('x')), true, true);
    assert_eq!(i, vec![Intent::FilterPush('x')]);
    assert!(!p);
    let (i, p) = key_intents(View::FeatureSelector, false, false, key(KeyCode::Char('g')), true, true);
    assert!(i.is_empty());
    assert!(p);
    let (i, _) = key_intents(View::FeatureSelector, false, true, key(KeyCode::Char('g')), true, true);
    assert_eq!(i, vec![Intent::JumpFirst]);
    let (i, _) = key_intents(View::FeatureSelector, false, true, key(KeyCode::Char('j')), true, true);
    assert_eq!(i, vec![Intent::FilterPush('g'), Intent::MoveDown]);
    let ctrl_n = KeyPress { code: KeyCode::Char('n'), ctrl: true };
    let (i, _) = key_intents(View::FeatureSelector, false, false, ctrl_n, true, true);
    assert_eq!(i, vec![Intent::Prompt(TextAction::CreateFreeSession)]);
    let (i, _) = key_intents(View::Dashboard, false, false, key(KeyCode::Char('q')), true, true);
    assert_eq!(i, vec![Intent::Quit]);
    let (i, _) = key_intents(View::TaskSelector, true, true, key(KeyCode::Char('q')), true, true);
    assert_eq!(i, vec![Intent::TextKey(KeyCode::Char('q'))]);
}

#[test]
fn backspace_in_the_task_selector() {
    let bs = key(KeyCode::Backspace);
    assert_eq!(key_intents(View::TaskSelector, false, false, bs, true, false).0, vec![Intent::Back]);
    assert_eq!(
        key_intents(View::TaskSelector, false, false, bs, true, true).0,
        vec![Intent::SwitchTo(View::FeatureSelector)]
    );
    assert_eq!(key_intents(View::TaskSelector, false, false, bs, false, true).0, vec![Intent::FilterPop]);
    let ctrl_o = KeyPress { code: KeyCode::Char('o'), ctrl: true };
    assert_eq!(key_intents(View::TaskDetail, false, false, ctrl_o, true, true).0, vec![Intent::Back]);
    assert_eq!(
        key_intents(View::TaskDetail, false, false, key(KeyCode::Enter), true, true).0,
        vec![Intent::Show(View::TaskSelector), Intent::OpenTask]
    );
}

#[test]
fn text_prompt_keys() {
    let mut b: Vec<char> = "  name ".chars().collect();
    assert_eq!(text_key(&mut b, KeyCode::Char('x')), TextOutcome::Editing);
    assert_eq!(text_key(&mut b, KeyCode::Backspace), TextOutcome::Editing);
    assert_eq!(text_key(&mut b, KeyCode::Enter), TextOutcome::Submit(Some("name".to_string())));
    assert!(b.is_empty());
    assert_eq!(text_key(&mut b, KeyCode::Enter), TextOutcome::Submit(None));
    let mut c: Vec<char> = vec!['a'];
    assert_eq!(text_key(&mut c, KeyCode::Esc), TextOutcome::Cancel);
    assert!(c.is_empty());
}

#[test]
fn demo_animation_script() {
    assert_eq!(demo_tick(0, 500), (0, vec![]));
    assert_eq!(demo_tick(0, 1400), (2, vec![Nudge::Down]));
    assert_eq!(demo_tick(2, 3500), (8, vec![Nudge::Down, Nudge::Down, Nudge::Down, Nudge::Down, Nudge::Up, Nudge::Up]));
    assert_eq!(demo_tick(8, 6000), (10, vec![Nudge::Up, Nudge::Quit]));
    assert_eq!(demo_tick(10, 9000), (10, vec![]));
}

#[test]
fn small_decisions() {
    let parent = Some(wi(Some(7), "p", WorkItemType::UserStory));
    assert_eq!(tasks_parent(true, &parent, Some(1)), Some(7));
    assert_eq!(tasks_parent(false, &parent, Some(1)), Some(1));
    assert_eq!(tasks_parent(false, &parent, None), Some(7));
    assert_eq!(features_cache_key("o", "p"), "features:o:p");
    assert_eq!(tasks_cache_key("o", "p", 9), "tasks:o:p:9");
    let rows = vec![None, Some(0), Some(1)];
    assert_eq!(restored_selection(&rows, Some(2), Some(1)), Some(2));
    assert_eq!(restored_selection(&rows, Some(0), Some(1)), Some(1));
    assert_eq!(restored_selection(&rows, Some(9), None), None);
}

fn step_text(s: &Step) -> String {
    match s {
        Step::SwitchSession(n) => format!("switch {}", n),
        Step::CreateSession(n) => format!("create {}", n),
        Step::SaveSession(m) => format!("save-session {} {:?} {:?}", m.session_name, m.work_item_id, m.work_item_type),
        Step::LaunchCopilot(t, w) => format!("launch {} {:?}", t, w.as_ref().and_then(|w| w.id)),
        Step::LaunchCopilotHere => "launch-here".to_string(),
        Step::SaveWindow(m) => format!("save-window {} {} {}", m.session_name, m.window_name, m.window_type),
        Step::RenameWindow(s, i, n) => format!("rename {}:{} {}", s, i, n),
        Step::SelectWindow(s, i) => format!("select {}:{}", s, i),
        Step::CreateWindow(s, n) => format!("new-window {} {}", s, n),
    }
}

#[test]
fn opening_a_feature() {
    let f = FeatureEntry {
        name: "#10003 Dashboard".to_string(),
        group: FeatureGroup::AzdoOnly,
        session_exists: false,
        window_count: 0,
        work_item: Some(wi(Some(10003), "Dashboard", WorkItemType::Feature)),
    };
    let steps: Vec<String> = feature_plan(&f, true).iter().map(step_text).collect();
    assert_eq!(
        steps,
        vec![
            "create #10003 Dashboard",
            "save-session #10003 Dashboard Some(10003) Some(\"Feature\")",
            "launch #10003 Dashboard:1 Some(10003)",
            "save-window #10003 Dashboard copilot copilot",
            "rename #10003 Dashboard:1 copilot",
            "switch #10003 Dashboard",
        ]
    );
    let existing = FeatureEntry { session_exists: true, ..f };
    assert_eq!(feature_plan(&existing, true).iter().map(step_text).collect::<Vec<_>>(), vec!["switch #10003 Dashboard"]);
}

#[test]
fn opening_a_task() {
    let t = TaskEntry {
        name: "🐛 #5 A very long bug title that goes on and on".to_string(),
        group: TaskGroup::Bug,
        window_exists: false,
        window_index: None,
        work_item: Some(wi(Some(5), "A very long bug title that goes on and on", WorkItemType::Bug)),
        copilot_session_id: None,
    };
    assert_eq!(task_window_name(&t), "#5 A very long bug title that go…");
    let steps: Vec<String> = task_plan(&t, "feat", true, &None, false).iter().map(step_text).collect();
    assert_eq!(
        steps,
        vec![
            "new-window feat #5 A very long bug title that go…",
            "save-window feat #5 A very long bug title that go… copilot",
            "switch feat",
        ]
    );
    let parent = Some(wi(Some(1), "Feat", WorkItemType::Feature));
    let existing = TaskEntry { window_exists: true, window_index: Some(3), ..t };
    let steps: Vec<String> = task_plan(&existing, "feat", false, &parent, true).iter().map(step_text).collect();
    assert_eq!(
        steps,
        vec!["create feat", "save-session feat Some(1) Some(\"Feature\")", "select feat:3", "switch feat"]
    );
}

#[test]
fn new_sessions_and_windows() {
    let steps: Vec<String> = free_session_plan("scratch", false, true).iter().map(step_text).collect();
    assert_eq!(
        steps,
        vec![
            "create scratch",
            "save-session scratch None Some(\"Free\")",
            "launch scratch:1 None",
            "rename scratch:1 copilot",
            "switch scratch",
        ]
    );
    let s = Some("feat".to_string());
    let steps: Vec<String> = copilot_window_plan(&s, None).iter().map(step_text).collect();
    assert_eq!(steps, vec!["new-window feat copilot", "launch-here", "save-window feat copilot copilot"]);
    let steps: Vec<String> = terminal_window_plan(&s, "logs").iter().map(step_text).collect();
    assert_eq!(steps, vec!["new-window feat logs", "save-window feat logs shell"]);
    assert!(terminal_window_plan(&None, "logs").is_empty());
}

#[test]
fn local_lists_from_tmux() {
    let sessions = vec![
        TmuxSession { name: "a".to_string(), window_count: 2, attached: false, created: None },
        TmuxSession { name: "b".to_string(), window_count: 1, attached: true, created: None },
    ];
    let mappings = vec![
        Some(SessionMapping {
            session_name: "a".to_string(),
            work_item_id: Some(4),
            work_item_title: Some("Four".to_string()),
            work_item_type: Some("User Story".to_string()),
            template: None,
            created_at: String::new(),
        }),
        None,
    ];
    let fs = session_features(&sessions, &mappings);
    assert_eq!(fs[0].group, FeatureGroup::Linked);
    assert_eq!(fs[0].work_item.as_ref().unwrap().work_item_type, WorkItemType::UserStory);
    assert_eq!(fs[1].group, FeatureGroup::Free);
    assert!(fs[1].work_item.is_none());
    let windows = vec![
        TmuxWindow { index: 1, name: "bugfix".to_string(), active: true, panes: 1 },
        TmuxWindow { index: 2, name: "shell".to_string(), active: false, panes: 1 },
    ];
    let ms = vec![WindowMapping {
        session_name: "a".to_string(),
        window_name: "bugfix".to_string(),
        work_item_id: Some(8),
        work_item_title: None,
        work_item_type: Some("Bug".to_string()),
        copilot_session_id: Some("uuid".to_string()),
        window_type: "copilot".to_string(),
    }];
    let ts = window_tasks(&windows, &ms);
    assert_eq!(ts[0].group, TaskGroup::Bug);
    assert_eq!(ts[0].copilot_session_id.as_deref(), Some("uuid"));
    assert_eq!(ts[0].work_item.as_ref().unwrap().title, "");
    assert_eq!(ts[1].group, TaskGroup::Free);
    assert_eq!(ts[1].window_index, Some(2));
}

#[test]
fn wizard_steps() {
    assert_eq!(prompt_text("AzDo organization", Some("nn-bank")), "  AzDo organization [nn-bank] > ");
    assert_eq!(prompt_text("Iteration", Some("")), "  Iteration > ");
    assert_eq!(text_answer("  acme \n", Some("nn-bank")), "acme");
    assert_eq!(text_answer("   \n", Some("nn-bank")), "nn-bank");
    assert_eq!(text_answer("\n", None), "");
    let items = vec!["Alpha".to_string(), "beta".to_string(), "ALPINE".to_string()];
    assert_eq!(update_filter("", &items), vec![0, 1, 2]);
    assert_eq!(update_filter("AL", &items), vec![0, 2]);
    let a = wizard_azdo("o".to_string(), "p".to_string(), None, Some("p\\a".to_string()), "".to_string());
    assert_eq!(a.filters.states, vec!["New", "Active", "Resolved"]);
    assert_eq!(a.filters.area_paths, vec!["p\\a"]);
}

#[test]
fn list_picker() {
    let items = vec!["Alpha".to_string(), "beta".to_string(), "ALPINE".to_string()];
    let mut p = Picker::new(items.len());
    assert_eq!(pick_key(&mut p, &items, PickKey::Up), Picked::Continue);
    assert_eq!(p.selected, Some(2));
    assert_eq!(pick_key(&mut p, &items, PickKey::Char('l')), Picked::Continue);
    assert_eq!(p.filtered, vec![0, 2]);
    assert_eq!(p.selected, Some(0));
    assert_eq!(pick_key(&mut p, &items, PickKey::Down), Picked::Continue);
    assert_eq!(pick_key(&mut p, &items, PickKey::Enter), Picked::Chosen(2));
    assert_eq!(pick_key(&mut p, &items, PickKey::Char('z')), Picked::Continue);
    assert_eq!(p.selected, None);
    assert_eq!(pick_key(&mut p, &items, PickKey::Enter), Picked::Continue);
    assert_eq!(pick_key(&mut p, &items, PickKey::Backspace), Picked::Continue);
    assert_eq!(p.filtered, vec![0, 2]);
    assert_eq!(p.search_line(), "🔍 l");
    assert_eq!(pick_key(&mut p, &items, PickKey::Esc), Picked::Cancelled);
}

#[test]
fn drilling_into_children_and_back() {
    let feature = wi(Some(1), "Feature", WorkItemType::Feature);
    let story = wi(Some(2), "Story", WorkItemType::UserStory);
    let task = wi(Some(3), "Task", WorkItemType::Task);
    let mut place = Hierarchy::top(Some(feature));
    assert!(!place.is_drilled());
    place.drill(story);
    place.drill(task);
    assert_eq!(place.depth(), 2);
    assert_eq!(place.current.as_ref().and_then(|w| w.id), Some(3));
    assert!(place.back());
    assert_eq!(place.current.as_ref().and_then(|w| w.id), Some(2));
    assert!(place.back());
    assert_eq!(place.current.as_ref().and_then(|w| w.id), Some(1));
    assert!(!place.back());
    assert_eq!(place.current.as_ref().and_then(|w| w.id), Some(1));
    assert_eq!(place.depth(), 0);
}

#[test]
fn longer_queries_keep_fewer_items() {
    let items = vec!["Alpha".to_string(), "beta".to_string(), "ALPINE".to_string(), "alps".to_string()];
    let short = update_filter("al", &items);
    let long = update_filter("ALP", &items);
    assert_eq!(short, vec![0, 2, 3]);
    assert_eq!(long, vec![0, 2, 3]);
    let longer = update_filter("alpi", &items);
    assert_eq!(longer, vec![2]);
    assert!(longer.iter().all(|i| long.contains(i)));
    assert_eq!(update_filter("", &items), vec![0, 1, 2, 3]);
}

#[test]
fn watcher_manager_keys() {
    assert_eq!(manager_key(KeyCode::Esc), ManagerAction::Quit);
    assert_eq!(manager_key(KeyCode::Char('q')), ManagerAction::Quit);
    assert_eq!(manager_key(KeyCode::Char('k')), ManagerAction::Up);
    assert_eq!(manager_key(KeyCode::Down), ManagerAction::Down);
    assert_eq!(manager_key(KeyCode::Char('s')), ManagerAction::Stop);
    assert_eq!(manager_key(KeyCode::Char('X')), ManagerAction::Cleanup);
    assert_eq!(manager_key(KeyCode::Char('d')), ManagerAction::Delete);
    assert_eq!(manager_key(KeyCode::Char('R')), ManagerAction::Restart);
    assert_eq!(manager_key(KeyCode::Char('r')), ManagerAction::Refresh);
    assert_eq!(manager_key(KeyCode::Enter), ManagerAction::Nothing);
}

#[test]
fn notification_center_keys() {
    assert_eq!(center_key(KeyCode::Char('q')), CenterAction::Quit);
    assert_eq!(center_key(KeyCode::Up), CenterAction::Up);
    assert_eq!(center_key(KeyCode::Char('j')), CenterAction::Down);
    assert_eq!(center_key(KeyCode::Char('d')), CenterAction::Read);
    assert_eq!(center_key(KeyCode::Char('D')), CenterAction::ReadAll);
    assert_eq!(center_key(KeyCode::Char('x')), CenterAction::Delete);
    assert_eq!(center_key(KeyCode::Enter), CenterAction::Open);
    assert_eq!(center_key(KeyCode::Char('z')), CenterAction::Nothing);
}
