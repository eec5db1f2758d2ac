use tmux_pilot::config::{
    AppConfig, CopilotConfig, KeybindingsConfig, NotifyConfig, WorkItem, WorkItemType,
};
use tmux_pilot::copilot::{
    build_command, build_resume_command, launch_in_target, resume_in_target,
    wrap_with_session_capture,
};

fn test_config() -> AppConfig {
    AppConfig {
        copilot: CopilotConfig {
            bin: "copilot".to_string(),
            yolo: true,
            default_agent: Some("my-agent".to_string()),
            extra_flags: vec!["--add-dir".to_string(), "~/code".to_string()],
            auto_launch: true,
            prompt_template: "Working on {type} #{id}: {title}".to_string(),
            plan_mode: true,
        },
        azdo: None,
        keybindings: KeybindingsConfig::default(),
        notify: NotifyConfig::default(),
    }
}

fn iban_bug() -> WorkItem {
    WorkItem {
        id: Some(12345),
        title: "Fix IBAN validation".to_string(),
        work_item_type: WorkItemType::Bug,
        state: "Active".to_string(),
        assigned_to: None,
        description: Some("The IBAN validation fails for NL accounts".to_string()),
        acceptance_criteria: Some("All NL IBANs pass validation".to_string()),
        parent_id: None,
    }
}

#[test]
fn test_build_command_with_work_item() {
    let cfg = test_config();
    let wi = iban_bug();

    let cmd = build_command(&cfg, Some(&wi));
    assert!(cmd.contains("--yolo"));
    assert!(cmd.contains("--agent my-agent"));
    assert!(cmd.contains("--add-dir ~/code"));
    assert!(cmd.contains("-i"));
    assert!(cmd.contains("Bug #12345"));
    assert!(cmd.contains("Fix IBAN validation"));
}

#[test]
fn test_build_command_without_work_item() {
    let cfg = test_config();
    let cmd = build_command(&cfg, None);
    assert!(cmd.contains("--yolo"));
    assert!(cmd.contains("--agent my-agent"));
    assert!(!cmd.contains("-i")); // no work item, no -i
}

#[test]
fn test_build_resume_command() {
    let cfg = test_config();
    let cmd = build_resume_command(&cfg, "abc-123");
    assert!(cmd.contains("--resume=abc-123"));
    assert!(cmd.contains("--yolo"));
}

#[test]
fn resume_keeps_the_extra_flags() {
    let cfg = test_config();
    assert_eq!(
        build_resume_command(&cfg, "abc-123"),
        "copilot --yolo --agent my-agent --add-dir ~/code --resume=abc-123"
    );
}

#[test]
fn build_command_exact_text() {
    let cfg = test_config();
    let wi = iban_bug();
    assert_eq!(
        build_command(&cfg, Some(&wi)),
        "copilot --yolo --agent my-agent --add-dir ~/code -i \"[[PLAN]]Working on Bug #12345: Fix IBAN validation\""
    );
    let mut plain = test_config();
    plain.copilot.plan_mode = false;
    assert_eq!(
        build_command(&plain, Some(&wi)),
        "copilot --yolo --agent my-agent --add-dir ~/code -i \"Working on Bug #12345: Fix IBAN validation\""
    );
    assert_eq!(build_command(&plain, None), "copilot --yolo --agent my-agent --add-dir ~/code");
    assert_eq!(build_command(&cfg, None), "copilot --yolo --agent my-agent --add-dir ~/code");
}

#[test]
fn build_command_default_template_escapes_quotes_and_newlines() {
    let mut cfg = test_config();
    cfg.copilot = CopilotConfig::default();
    let mut wi = iban_bug();
    wi.description = None;
    wi.acceptance_criteria = None;
    wi.title = "Say \"hi\"".to_string();
    let cmd = build_command(&cfg, Some(&wi));
    assert_eq!(
        cmd,
        "copilot --yolo -i \"[[PLAN]]I'm going to work on Bug #12345: Say 'hi' \\n  \\n Description: \\n (no description) \\n  \\n Acceptance Criteria: \\n (none) \\n  \\n Don't take any action yet. Just acknowledge this context.\""
    );
}

#[test]
fn build_command_without_yolo_or_agent() {
    let mut cfg = test_config();
    cfg.copilot.yolo = false;
    cfg.copilot.default_agent = None;
    cfg.copilot.extra_flags = vec![];
    assert_eq!(build_command(&cfg, None), "copilot");
    assert_eq!(build_resume_command(&cfg, "s1"), "copilot --resume=s1");
}

#[test]
fn work_item_without_id_leaves_id_empty() {
    let cfg = test_config();
    let mut wi = iban_bug();
    wi.id = None;
    wi.work_item_type = WorkItemType::UserStory;
    let cmd = build_command(&cfg, Some(&wi));
    assert!(cmd.ends_with("-i \"[[PLAN]]Working on User Story #: Fix IBAN validation\""));
}

#[test]
fn session_capture_wraps_command() {
    let wrapped = wrap_with_session_capture("copilot --yolo");
    assert!(wrapped.starts_with("_PILOT_PRE=$(ls ~/.copilot/session-state 2>/dev/null|sort); copilot --yolo; "));
    assert!(wrapped.ends_with("unset _PILOT_PRE _PILOT_POST 2>/dev/null"));
    assert!(wrapped.contains("pilot session-link"));
}

#[test]
fn launch_and_resume_send_keys_to_target() {
    let cfg = test_config();
    let args = launch_in_target(&cfg, "s:1", None);
    assert_eq!(args.len(), 5);
    assert_eq!(args[0], "send-keys");
    assert_eq!(args[2], "s:1");
    assert_eq!(args[3], wrap_with_session_capture(&build_command(&cfg, None)));
    assert_eq!(args[4], "Enter");
    let args = resume_in_target(&cfg, "s:w", "abc-123");
    assert_eq!(
        args,
        vec!["send-keys", "-t", "s:w", "copilot --yolo --agent my-agent --add-dir ~/code --resume=abc-123", "Enter"]
    );
}
