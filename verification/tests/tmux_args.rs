use tmux_pilot::tmux::{
    create_session, create_window, list_sessions, list_windows, rename_window, select_window,
    send_keys, switch_session,
};

#[test]
fn argument_lists() {
    assert_eq!(send_keys("s:1", "ls"), vec!["send-keys", "-t", "s:1", "ls", "Enter"]);
    assert_eq!(create_session("x", None), vec!["new-session", "-d", "-s", "x"]);
    assert_eq!(create_session("x", Some("/tmp")), vec!["new-session", "-d", "-s", "x", "-c", "/tmp"]);
    assert_eq!(switch_session("x", true), vec!["switch-client", "-t", "x"]);
    assert_eq!(switch_session("x", false), vec!["attach-session", "-t", "x"]);
    assert_eq!(create_window("s", "w", None), vec!["new-window", "-t", "s", "-n", "w"]);
    assert_eq!(select_window("s", 3), vec!["select-window", "-t", "s:3"]);
    assert_eq!(rename_window("s", 1, "copilot"), vec!["rename-window", "-t", "s:1", "copilot"]);
}

#[test]
fn parses_session_lines() {
    let out = "main\t3\t1\tMon Jan  1\nside\t1\t0\tTue\n\n";
    let s = list_sessions(out);
    assert_eq!(s.len(), 2);
    assert_eq!(s[0].name, "main");
    assert_eq!(s[0].window_count, 3);
    assert!(s[0].attached);
    assert_eq!(s[1].name, "side");
    assert!(!s[1].attached);
}

#[test]
fn parses_window_lines() {
    let out = "0\tshell\t1\t1\n2\tcopilot\t0\t2\n";
    let w = list_windows(out);
    assert_eq!(w.len(), 2);
    assert_eq!(w[1].index, 2);
    assert_eq!(w[1].name, "copilot");
    assert!(!w[1].active);
    assert_eq!(w[1].panes, 2);
}
