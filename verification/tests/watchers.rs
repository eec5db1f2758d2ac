use tmux_pilot::poll::{comments_poll, pipeline_poll, pr_closed_poll, pr_merge_poll, sonar_poll};
use tmux_pilot::store::Watcher;
use tmux_pilot::watch::{
    background_args, build_restart_args, check_watch, dead_watchers, find_watcher, listed_status,
    revival, script_outcome, sonar_path, split_restart_args, watcher_id, watcher_line, Revival,
    WatchKind,
    WatcherArgs,
};
use tmux_pilot::watch_list::{
    build_display_rows, first_selectable, next_selectable, refreshed_selection, reselect, status_display, type_icon,
    watcher_row, watchers_title, DisplayRow,
};
use tmux_pilot::display::Gruvbox;

fn args(id: Option<u64>, name: Option<&str>, persistent: bool) -> WatcherArgs {
    WatcherArgs {
        id,
        project_key: None,
        script: Some("curl -sf https://api/health".to_string()),
        name: name.map(|s| s.to_string()),
        persistent,
    }
}

fn watcher(id: &str, status: &str, persistent: bool, restart: Option<&str>) -> Watcher {
    Watcher {
        id: id.to_string(),
        watcher_type: "custom".to_string(),
        config: String::new(),
        pid: Some(1),
        status: status.to_string(),
        started_at: "2024-05-01 10:20:30".to_string(),
        last_check_at: None,
        last_output: None,
        persistent,
        restart_args: restart.map(|s| s.to_string()),
    }
}

#[test]
fn restart_args_round_trip() {
    let a = args(Some(5), Some("api-health"), true);
    let text = build_restart_args("custom", &a, 60);
    assert_eq!(
        text,
        "watch\0custom\0--interval\060\0--id\05\0--script\0curl -sf https://api/health\0--name\0api-health\0--persistent"
    );
    let back = split_restart_args(&text);
    assert_eq!(
        back,
        vec!["watch", "custom", "--interval", "60", "--id", "5", "--script", "curl -sf https://api/health", "--name", "api-health", "--persistent"]
    );
}

#[test]
fn background_launch_arguments() {
    let a = args(None, None, false);
    assert_eq!(
        background_args("custom", &a, 120),
        vec!["watch", "custom", "--interval", "120", "--foreground", "--script", "curl -sf https://api/health"]
    );
}

#[test]
fn ids_of_watchers() {
    assert_eq!(watcher_id(&Some("api".to_string()), "custom", 9), "api");
    assert_eq!(watcher_id(&None, "pipeline", 4242), "pipeline-4242");
}

#[test]
fn watch_requirements() {
    let none = WatcherArgs { id: None, project_key: None, script: None, name: None, persistent: false };
    assert_eq!(check_watch("nope", &none, true), Err("Unknown watcher type: nope".to_string()));
    assert_eq!(check_watch("pipeline", &none, true), Err("--id required for pipeline watcher".to_string()));
    let with_id = WatcherArgs { id: Some(1), ..none.clone() };
    assert_eq!(check_watch("pr-merge", &with_id, false), Err("AzDo not configured".to_string()));
    assert_eq!(check_watch("pr-comments", &with_id, true), Ok(WatchKind::PrComments));
    assert_eq!(check_watch("sonarqube", &none, true), Err("--project-key required for sonarqube watcher".to_string()));
    assert_eq!(check_watch("custom", &none, true), Err("--script required for custom watcher".to_string()));
}

#[test]
fn pipeline_replies() {
    let n = pipeline_poll("{\"status\":\"completed\",\"result\":\"failed\"}", 77, "o", "p").unwrap();
    assert_eq!(n.level, "error");
    assert_eq!(n.title, "✘ Build #77 failed");
    assert_eq!(n.source, "pipeline");
    assert_eq!(n.link.as_deref(), Some("https://dev.azure.com/o/p/_build/results?buildId=77"));
    let other = pipeline_poll("{\"status\":\"completed\",\"result\":\"partial\"}", 1, "o", "p").unwrap();
    assert_eq!(other.title, "Build #1 completed: partial");
    assert!(pipeline_poll("{\"status\":\"inProgress\"}", 1, "o", "p").is_none());
    assert!(pipeline_poll("not json", 1, "o", "p").is_none());
}

#[test]
fn pr_replies() {
    let n = pr_merge_poll("{\"status\":\"completed\"}", 12, "o", "p").unwrap();
    assert_eq!(n.title, "✓ PR #12 merged");
    assert_eq!(n.link.as_deref(), Some("https://dev.azure.com/o/p/_git/pullrequest/12"));
    assert_eq!(pr_merge_poll("{\"status\":\"abandoned\"}", 12, "o", "p").unwrap().level, "warn");
    assert!(pr_merge_poll("{\"status\":\"active\"}", 12, "o", "p").is_none());
    assert!(pr_closed_poll("{\"status\":\"abandoned\"}"));
    assert!(!pr_closed_poll("{}"));
}

#[test]
fn comment_replies() {
    let (n, last) = comments_poll(None, "{\"value\":[1,2]}", 3, "o", "p");
    assert!(n.is_none());
    assert_eq!(last, Some(2));
    let (n, last) = comments_poll(Some(2), "{\"value\":[1,2,3,4,5]}", 3, "o", "p");
    assert_eq!(n.unwrap().title, "💬 3 new comment thread(s) on PR #3");
    assert_eq!(last, Some(5));
    let (n, last) = comments_poll(Some(5), "oops", 3, "o", "p");
    assert!(n.is_none());
    assert_eq!(last, Some(5));
    let (_, last) = comments_poll(Some(5), "{}", 3, "o", "p");
    assert_eq!(last, Some(0));
}

#[test]
fn sonar_replies() {
    let ok = sonar_poll("{\"projectStatus\":{\"status\":\"OK\"}}", "KEY").unwrap();
    assert_eq!(ok.level, "success");
    assert_eq!(ok.title, "✓ SonarQube gate passed: KEY");
    let bad = sonar_poll("{\"projectStatus\":{\"status\":\"ERROR\"}}", "KEY").unwrap();
    assert_eq!(bad.level, "error");
    assert!(sonar_poll("{\"projectStatus\":{\"status\":\"WARN\"}}", "KEY").is_none());
    assert_eq!(sonar_path("K", Some(4)), "/api/qualitygates/project_status?projectKey=K&pullRequest=4");
    assert_eq!(sonar_path("K", None), "/api/qualitygates/project_status?projectKey=K");
}

#[test]
fn custom_script_outcomes() {
    let first = script_outcome(true, None, false, "", "boom\nmore");
    assert!(first.notice.is_none());
    assert_eq!(first.last_success, Some(false));
    assert!(!first.stop);
    let fail = script_outcome(true, Some(true), false, "", "boom\nmore");
    assert_eq!(fail.notice.unwrap().title, "⚠ boom");
    let recover = script_outcome(true, Some(false), true, "  up  \n", "");
    let n = recover.notice.unwrap();
    assert_eq!(n.level, "success");
    assert_eq!(n.title, "up");
    assert_eq!(recover.output.as_deref(), Some("up"));
    let eph = script_outcome(false, None, true, "done\nline2\nline3", "");
    let n = eph.notice.unwrap();
    assert_eq!(n.title, "done");
    assert_eq!(n.body.as_deref(), Some("line2\nline3"));
    assert!(eph.stop);
    let quiet = script_outcome(false, None, true, "", "");
    assert_eq!(quiet.notice.unwrap().title, "Custom watcher triggered");
}

#[test]
fn listing_and_stopping() {
    assert_eq!(listed_status(false, "running"), "dead");
    assert_eq!(listed_status(true, "running"), "running");
    assert_eq!(listed_status(false, "stopped"), "stopped");
    let ws = vec![watcher("api-health", "running", true, None), watcher("pipeline-1", "running", false, None)];
    assert_eq!(find_watcher(&ws, "pipe"), Some(1));
    assert_eq!(find_watcher(&ws, "api-health"), Some(0));
    assert_eq!(find_watcher(&ws, "zzz"), None);
    assert_eq!(dead_watchers(&ws, &vec![true, false]), vec![1]);
    // an exact id wins over an earlier row it is only a prefix of
    let ws = vec![watcher("api-health-2", "running", true, None), watcher("api-health", "running", true, None)];
    assert_eq!(find_watcher(&ws, "api-health"), Some(1));
    assert_eq!(find_watcher(&ws, "api"), Some(0));
    assert_eq!(find_watcher(&ws, "api-health-2"), Some(0));
    assert_eq!(find_watcher(&ws, "x"), None);
}

#[test]
fn listing_lines() {
    let mut w = watcher("api-health", "running", true, None);
    assert_eq!(watcher_line(&w, false), "  🔄 api-health [dead] custom (pid: 1, since: 2024-05-01 10:20)");
    w.last_output = Some("200 OK".to_string());
    w.pid = None;
    w.persistent = false;
    assert_eq!(watcher_line(&w, true), "  ⚡ api-health [running] custom — 200 OK (pid: -, since: 2024-05-01 10:20)");
    w.last_output = Some(String::new());
    w.started_at = "today".to_string();
    assert_eq!(watcher_line(&w, true), "  ⚡ api-health [running] custom (pid: -, since: today)");
}

#[test]
fn resurrection_decisions() {
    let eph = watcher("e", "running", false, None);
    assert!(matches!(revival(&eph, false), Revival::Delete));
    assert!(matches!(revival(&eph, true), Revival::Keep));
    let p = watcher("p", "running", true, Some("watch\0custom"));
    match revival(&p, false) {
        Revival::Restart(a) => assert_eq!(a, vec!["watch", "custom"]),
        _ => panic!("expected a restart"),
    }
    let empty = watcher("q", "running", true, Some(""));
    assert!(matches!(revival(&empty, false), Revival::MarkDead));
}

#[test]
fn manager_rows() {
    let ws = vec![
        watcher("a", "running", false, None),
        watcher("b", "running", true, None),
        watcher("c", "stopped", false, None),
    ];
    let rows = build_display_rows(&ws);
    let shape: Vec<String> = rows
        .iter()
        .map(|r| match r {
            DisplayRow::Header(h) => format!("H:{}", h),
            DisplayRow::Entry(i) => format!("E:{}", i),
        })
        .collect();
    assert_eq!(shape, vec!["H:🔄 Persistent (1)", "E:1", "H:", "H:⚡ Ephemeral (2)", "E:0", "E:2"]);
    assert_eq!(first_selectable(&rows), Some(1));
    assert_eq!(next_selectable(&rows, 1, 1), 4);
    assert_eq!(next_selectable(&rows, 1, -1), 5);
    assert_eq!(next_selectable(&rows, 5, 1), 1);
    // a cursor past the end still finds an entry
    assert_eq!(next_selectable(&rows, 9, 1), 1);
    assert_eq!(next_selectable(&rows, 6, -1), 5);
    assert_eq!(next_selectable(&rows, 9, -1), 5);
    let first_is_entry = vec![DisplayRow::Entry(0), DisplayRow::Header(String::new()), DisplayRow::Entry(1)];
    assert_eq!(next_selectable(&first_is_entry, 7, -1), 0);
    assert_eq!(next_selectable(&first_is_entry, 3, -1), 2);
}

#[test]
fn manager_texts() {
    assert_eq!(status_display("running", false), ("✘ dead".to_string(), Gruvbox::Red));
    assert_eq!(status_display("completed", true), ("✔ done".to_string(), Gruvbox::Aqua));
    assert_eq!(status_display("weird", true), ("weird".to_string(), Gruvbox::Gray));
    assert_eq!(type_icon("pr-merge"), ("⎇", Gruvbox::Purple));
    assert_eq!(type_icon("x"), ("?", Gruvbox::Gray));
    assert_eq!(watchers_title(0, 0), "👁 Watchers");
    assert_eq!(watchers_title(1, 3), "👁 Watchers  (1 active, 3 total)");
    let mut w = watcher("api", "running", true, None);
    w.last_output = Some("200 OK".to_string());
    let texts: Vec<String> = watcher_row(&w, true).into_iter().map(|p| p.text).collect();
    assert_eq!(
        texts,
        vec![
            "    ⚡ ".to_string(),
            format!("{:<20}", "api"),
            format!("{:<12}", "▶ running"),
            "  200 OK  ".to_string(),
            "  custom  ".to_string(),
            "2024-05-01 10:20".to_string(),
        ]
    );
}

#[test]
fn refresh_keeps_the_selected_watcher() {
    let ws = vec![
        watcher("a", "running", false, None),
        watcher("b", "running", true, None),
        watcher("c", "stopped", false, None),
    ];
    let old = build_display_rows(&ws);
    // rows: H, E:1, H, H, E:0, E:2 — select watcher 2 (row 5)
    let fewer = vec![watcher("a", "running", false, None), watcher("b", "running", true, None), watcher("c", "stopped", false, None), watcher("d", "running", false, None)];
    let rows = build_display_rows(&fewer);
    assert_eq!(reselect(&old, Some(5), &rows), Some(5));
    // the selected watcher is gone: the first entry is taken
    let gone = vec![watcher("a", "running", false, None), watcher("b", "running", true, None)];
    let rows = build_display_rows(&gone);
    assert_eq!(reselect(&old, Some(5), &rows), first_selectable(&rows));
    assert_eq!(reselect(&old, Some(5), &rows), Some(1));
    // nothing was selected: the first entry
    assert_eq!(reselect(&old, None, &rows), Some(1));
    assert_eq!(refreshed_selection(&rows, Some(0)), Some(1));
    assert_eq!(refreshed_selection(&rows, Some(4)), Some(4));
}
