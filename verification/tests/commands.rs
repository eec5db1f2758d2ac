use tmux_pilot::cli::{
    child_pids, config_lines, copilot_in_pane, is_copilot_command, lock_pid, lock_session, parse_pane,
    session_line, window_target,
};
use tmux_pilot::config::{AppConfig, AzdoConfig, AzdoFilters};
use tmux_pilot::env_config::EnvValues;
use tmux_pilot::notices::{
    after_delete, level_icon, mark_all_read, mark_read, notification_row, notifications_json,
    notifications_title, opens_in_browser, tmux_count, unread_count,
};
use tmux_pilot::display::Gruvbox;
use tmux_pilot::store::{Notification, WindowMapping};
use tmux_pilot::tmux::TmuxSession;

fn note(id: i64, title: &str, read: bool, source: Option<&str>) -> Notification {
    Notification {
        id,
        level: "warn".to_string(),
        title: title.to_string(),
        body: None,
        source: source.map(|s| s.to_string()),
        link: None,
        read,
        created_at: "2024-01-02 03:04:05".to_string(),
    }
}

#[test]
fn notification_counts_and_titles() {
    let ns = vec![note(1, "a", false, None), note(2, "b", true, None), note(3, "c", false, None)];
    assert_eq!(unread_count(&ns), 2);
    assert_eq!(notifications_title(2), "🔔 Notifications  (2 unread)");
    assert_eq!(notifications_title(0), "🔔 Notifications");
    assert_eq!(tmux_count(3), "#[fg=colour208,bold]🔔 3 #[default]");
    assert_eq!(tmux_count(0), "");
}

#[test]
fn marking_notifications_read() {
    let mut ns = vec![note(1, "a", false, None), note(2, "b", true, None), note(3, "c", false, None)];
    mark_read(&mut ns, 0);
    assert!(ns[0].read);
    assert_eq!(ns[0].title, "a");
    assert_eq!(unread_count(&ns), 1);
    mark_read(&mut ns, 1);
    assert_eq!(unread_count(&ns), 1);
    mark_all_read(&mut ns);
    assert_eq!(unread_count(&ns), 0);
    assert_eq!(ns.len(), 3);
    assert_eq!(ns[2].id, 3);
}

#[test]
fn notification_json_lists_unread() {
    let ns = vec![
        note(1, "say \"hi\"", false, Some("pr")),
        note(2, "read", true, None),
        note(-3, "x", false, None),
    ];
    assert_eq!(
        notifications_json(&ns),
        "[{\"id\":1,\"level\":\"warn\",\"title\":\"say \\\"hi\\\"\",\"source\":\"pr\",\"created_at\":\"2024-01-02 03:04:05\"},{\"id\":-3,\"level\":\"warn\",\"title\":\"x\",\"source\":null,\"created_at\":\"2024-01-02 03:04:05\"}]"
    );
    assert_eq!(notifications_json(&vec![]), "[]");
}

#[test]
fn notification_rows() {
    assert_eq!(level_icon("error"), ("✘", Gruvbox::Red));
    assert_eq!(level_icon("other"), ("ℹ", Gruvbox::Blue));
    let texts: Vec<String> = notification_row(&note(1, "Build", false, Some("ci"))).into_iter().map(|p| p.text).collect();
    assert_eq!(texts, vec!["• ", "⚠ ", "[ci] ", "Build", "  2024-01-02 03:04"]);
    assert_eq!(after_delete(2, 2), 1);
    assert_eq!(after_delete(2, 0), 0);
    assert_eq!(after_delete(0, 0), 0);
    assert!(opens_in_browser("https://x"));
    assert!(!opens_in_browser("session:1"));
}

#[test]
fn session_listing_line() {
    let s = TmuxSession { name: "main".to_string(), window_count: 3, attached: true, created: None };
    assert_eq!(session_line(&s), "  main (3 windows) *");
}

#[test]
fn copilot_detection() {
    assert!(is_copilot_command("node"));
    assert!(is_copilot_command("github-copilot"));
    assert!(!is_copilot_command("zsh"));
    assert!(!is_copilot_command(" node"));
    assert!(copilot_in_pane("node\n"));
    assert!(!copilot_in_pane("bash\n"));
}

#[test]
fn lock_files_and_panes() {
    assert_eq!(lock_pid("inuse.1234.lock"), Some(1234));
    assert_eq!(lock_pid("inuse.x.lock"), None);
    assert_eq!(lock_pid("events.jsonl"), None);
    assert_eq!(lock_pid("inuse..lock"), None);
    assert_eq!(
        parse_pane("dev|copilot|4321|node"),
        Some(("dev".to_string(), "copilot".to_string(), 4321, "node".to_string()))
    );
    assert_eq!(parse_pane("dev|w|abc|node"), None);
    assert_eq!(parse_pane("dev|w|1"), None);
    assert_eq!(child_pids("12\n  34 \nx\n"), vec![12, 34]);
    let locks = vec![(34u32, "old".to_string()), (12u32, "u1".to_string()), (34u32, "u2".to_string())];
    assert_eq!(lock_session(&vec![99, 34, 12], &locks), Some("u2".to_string()));
    assert_eq!(lock_session(&vec![99], &locks), None);
    let m = WindowMapping {
        session_name: "s".to_string(),
        window_name: "w".to_string(),
        work_item_id: None,
        work_item_title: None,
        work_item_type: None,
        copilot_session_id: None,
        window_type: "copilot".to_string(),
    };
    assert_eq!(window_target(&m), "s:w");
}

#[test]
fn environment_fills_config() {
    let mut cfg = AppConfig::default();
    let env = EnvValues {
        org: Some("acme".to_string()),
        project: Some("web".to_string()),
        team: Some("".to_string()),
        area: Some("web\\ui".to_string()),
        code_path: Some("~/code".to_string()),
    };
    cfg.enrich_from_env(&env);
    let a = cfg.azdo.as_ref().unwrap();
    assert_eq!(a.organization, "acme");
    assert_eq!(a.project, "web");
    assert_eq!(a.team, None);
    assert_eq!(a.filters.area_paths, vec!["web\\ui".to_string()]);
    assert_eq!(a.filters.iteration, "current");
    assert_eq!(cfg.copilot.extra_flags, vec!["--add-dir".to_string(), "~/code".to_string()]);
    // a second fill keeps what is set and adds no second --add-dir
    cfg.enrich_from_env(&env);
    assert_eq!(cfg.copilot.extra_flags.len(), 2);
}

#[test]
fn environment_without_project_drops_azdo() {
    let mut cfg = AppConfig::default();
    let env = EnvValues { org: Some("acme".to_string()), project: None, team: None, area: None, code_path: None };
    cfg.enrich_from_env(&env);
    assert!(cfg.azdo.is_none());
    let mut set = AppConfig::default();
    set.azdo = Some(AzdoConfig {
        organization: "mine".to_string(),
        project: "p".to_string(),
        team: Some("t".to_string()),
        filters: AzdoFilters { iteration: "".to_string(), states: vec![], area_paths: vec![] },
    });
    set.enrich_from_env(&env);
    let a = set.azdo.unwrap();
    // a set variable overrides the configured value; an unset one keeps it
    assert_eq!(a.organization, "acme");
    assert_eq!(a.project, "p");
    assert_eq!(a.team.as_deref(), Some("t"));
}

#[test]
fn environment_overrides_config() {
    let mut cfg = AppConfig::default();
    cfg.azdo = Some(AzdoConfig {
        organization: "org-a".to_string(),
        project: "proj".to_string(),
        team: Some("old-team".to_string()),
        filters: AzdoFilters { iteration: "current".to_string(), states: vec![], area_paths: vec!["A".to_string(), "B".to_string()] },
    });
    let env = EnvValues {
        org: Some("org-b".to_string()),
        project: Some("".to_string()),
        team: Some("new-team".to_string()),
        area: Some("C".to_string()),
        code_path: None,
    };
    cfg.enrich_from_env(&env);
    let a = cfg.azdo.as_ref().unwrap();
    assert_eq!(a.organization, "org-b");
    assert_eq!(a.project, "proj");
    assert_eq!(a.team.as_deref(), Some("new-team"));
    assert_eq!(a.filters.area_paths, vec!["C".to_string()]);
}

#[test]
fn config_listing() {
    let mut cfg = AppConfig::default();
    cfg.azdo = None;
    cfg.copilot.default_agent = None;
    let lines = config_lines(&cfg);
    assert_eq!(lines[0], "Configuration:");
    assert_eq!(lines[1], format!("  Copilot binary: {}", cfg.copilot.bin));
    assert_eq!(lines[2], format!("  Yolo mode: {}", cfg.copilot.yolo));
    assert_eq!(lines[3], "  AzDo: not configured");
    assert_eq!(lines.len(), 4);
    cfg.copilot.default_agent = Some("planner".to_string());
    cfg.azdo = Some(AzdoConfig {
        organization: "acme".to_string(),
        project: "web".to_string(),
        team: None,
        filters: AzdoFilters { iteration: "".to_string(), states: vec![], area_paths: vec![] },
    });
    let lines = config_lines(&cfg);
    assert_eq!(lines[3], "  Default agent: planner");
    assert_eq!(lines[4], "  AzDo org: acme");
    assert_eq!(lines[5], "  AzDo project: web");
    assert_eq!(lines.len(), 6);
}
