//! What opening a feature, a task or a new session does, as a list of
//! steps that the front end carries out against tmux and the database in
//! order, stopping at the first that fails.
use vstd::prelude::*;

use crate::config::{type_label, WorkItem};
use crate::display::{can_truncate, truncate, truncated};
use crate::entries::{clone_work_item, FeatureEntry, TaskEntry};
use crate::store::{SessionMapping, SessionMappingView, WindowMapping, WindowMappingView};
use crate::text::{decimal, push_decimal, push_str, string_from};

verus! {

/// One step of a plan.
#[derive(Debug)]
pub enum Step {
    /// Switch the client to a session (attach outside tmux).
    SwitchSession(String),
    /// Create a detached session.
    CreateSession(String),
    /// Persist a session mapping.
    SaveSession(SessionMapping),
    /// Launch Copilot in a target pane, with a work item's context.
    LaunchCopilot(String, Option<WorkItem>),
    /// Launch Copilot in the current pane, with no context.
    LaunchCopilotHere,
    /// Persist a window mapping.
    SaveWindow(WindowMapping),
    /// Rename a session's window (session, index, new name).
    RenameWindow(String, usize, String),
    /// Select a session's window by index.
    SelectWindow(String, usize),
    /// Create a window (session, window name).
    CreateWindow(String, String),
}

/// A step as plain values.
pub enum StepView {
    SwitchSession(Seq<char>),
    CreateSession(Seq<char>),
    SaveSession(SessionMappingView),
    LaunchCopilot(Seq<char>, Option<WorkItem>),
    LaunchCopilotHere,
    SaveWindow(WindowMappingView),
    RenameWindow(Seq<char>, usize, Seq<char>),
    SelectWindow(Seq<char>, usize),
    CreateWindow(Seq<char>, Seq<char>),
}

impl View for Step {
    type V = StepView;

    open spec fn view(&self) -> StepView {
        match self {
            Step::SwitchSession(s) => StepView::SwitchSession(s@),
            Step::CreateSession(s) => StepView::CreateSession(s@),
            Step::SaveSession(m) => StepView::SaveSession(m@),
            Step::LaunchCopilot(t, w) => StepView::LaunchCopilot(t@, *w),
            Step::LaunchCopilotHere => StepView::LaunchCopilotHere,
            Step::SaveWindow(m) => StepView::SaveWindow(m@),
            Step::RenameWindow(s, i, n) => StepView::RenameWindow(s@, *i, n@),
            Step::SelectWindow(s, i) => StepView::SelectWindow(s@, *i),
            Step::CreateWindow(s, n) => StepView::CreateWindow(s@, n@),
        }
    }
}

/// A plan as plain values.
pub open spec fn plan_view(p: Seq<Step>) -> Seq<StepView> {
    p.map_values(|s: Step| s@)
}

/// The mapping saved for a session made for a work item (or none).
pub open spec fn session_mapping_of(name: Seq<char>, wi: Option<WorkItem>) -> SessionMappingView {
    SessionMappingView {
        session_name: name,
        work_item_id: match wi {
            Some(w) => w.id,
            None => None,
        },
        work_item_title: match wi {
            Some(w) => Some(w.title@),
            None => None,
        },
        work_item_type: match wi {
            Some(w) => Some(type_label(w.work_item_type)),
            None => None,
        },
        template: None,
        created_at: seq![],
    }
}

/// The mapping saved for a window made for a work item (or none), of the
/// given kind ("copilot" or "shell").
pub open spec fn window_mapping_of(
    session: Seq<char>,
    window: Seq<char>,
    wi: Option<WorkItem>,
    kind: Seq<char>,
) -> WindowMappingView {
    WindowMappingView {
        session_name: session,
        window_name: window,
        work_item_id: match wi {
            Some(w) => w.id,
            None => None,
        },
        work_item_title: match wi {
            Some(w) => Some(w.title@),
            None => None,
        },
        work_item_type: match wi {
            Some(w) => Some(type_label(w.work_item_type)),
            None => None,
        },
        copilot_session_id: None,
        window_type: kind,
    }
}

/// The session mapping for a session made for a work item (or none).
pub fn session_mapping_for(name: &str, wi: &Option<WorkItem>) -> (m: SessionMapping)
    ensures
        m@ == session_mapping_of(name@, *wi),
{
    let m = SessionMapping {
        session_name: name.to_string(),
        work_item_id: match wi {
            Some(w) => w.id,
            None => None,
        },
        work_item_title: match wi {
            Some(w) => Some(w.title.clone()),
            None => None,
        },
        work_item_type: match wi {
            Some(w) => Some(w.work_item_type.to_string()),
            None => None,
        },
        template: None,
        created_at: String::new(),
    };
    assert(m@.created_at =~= seq![]);
    m
}

/// The window mapping for a window made for a work item (or none).
pub fn window_mapping_for(session: &str, window: &str, wi: &Option<WorkItem>, kind: &str) -> (m:
    WindowMapping)
    ensures
        m@ == window_mapping_of(session@, window@, *wi, kind@),
{
    WindowMapping {
        session_name: session.to_string(),
        window_name: window.to_string(),
        work_item_id: match wi {
            Some(w) => w.id,
            None => None,
        },
        work_item_title: match wi {
            Some(w) => Some(w.title.clone()),
            None => None,
        },
        work_item_type: match wi {
            Some(w) => Some(w.work_item_type.to_string()),
            None => None,
        },
        copilot_session_id: None,
        window_type: kind.to_string(),
    }
}

fn joined(a: &str, sep: &str, b: &str) -> (s: String)
    ensures
        s@ == a@ + sep@ + b@,
{
    let mut v: Vec<char> = Vec::new();
    push_str(&mut v, a);
    push_str(&mut v, sep);
    push_str(&mut v, b);
    string_from(&v)
}

// ─── Opening a feature ───────────────────────────────────────────

/// The steps of opening a feature: switch to its session, or create the
/// session, save its mapping, launch Copilot in the first window when
/// configured (mapping and renaming that window), then switch to it.
pub open spec fn feature_plan_of(f: FeatureEntry, auto_launch: bool) -> Seq<StepView> {
    let name = f.name@;
    if f.session_exists {
        seq![StepView::SwitchSession(name)]
    } else {
        seq![
            StepView::CreateSession(name),
            StepView::SaveSession(session_mapping_of(name, f.work_item)),
        ] + (if auto_launch {
            seq![
                StepView::LaunchCopilot(name + ":1"@, f.work_item),
                StepView::SaveWindow(window_mapping_of(name, "copilot"@, f.work_item, "copilot"@)),
                StepView::RenameWindow(name, 1, "copilot"@),
            ]
        } else {
            seq![]
        }) + seq![StepView::SwitchSession(name)]
    }
}

/// The steps of opening a feature.
pub fn feature_plan(f: &FeatureEntry, auto_launch: bool) -> (p: Vec<Step>)
    ensures
        plan_view(p@) == feature_plan_of(*f, auto_launch),
{
    let mut p: Vec<Step> = Vec::new();
    let name = f.name.as_str();
    if f.session_exists {
        p.push(Step::SwitchSession(name.to_string()));
    } else {
        p.push(Step::CreateSession(name.to_string()));
        p.push(Step::SaveSession(session_mapping_for(name, &f.work_item)));
        if auto_launch {
            proof {
                reveal_strlit(":");
                reveal_strlit("1");
                reveal_strlit(":1");
                assert(name@ + ":"@ + "1"@ =~= name@ + ":1"@);
            }
            p.push(Step::LaunchCopilot(joined(name, ":", "1"), clone_work_item(&f.work_item)));
            p.push(Step::SaveWindow(window_mapping_for(name, "copilot", &f.work_item, "copilot")));
            p.push(Step::RenameWindow(name.to_string(), 1, "copilot".to_string()));
        }
        p.push(Step::SwitchSession(name.to_string()));
    }
    assert(plan_view(p@) =~= feature_plan_of(*f, auto_launch));
    p
}

// ─── Opening a task ──────────────────────────────────────────────

/// The session a task opens in: the current one, else "default".
pub open spec fn task_session_of(current: Option<Seq<char>>) -> Seq<char> {
    match current {
        Some(s) => s,
        None => "default"@,
    }
}

/// The session a task opens in.
pub fn task_session(current: &Option<String>) -> (s: String)
    ensures
        s@ == task_session_of(
            match current {
                Some(c) => Some(c@),
                None => None,
            },
        ),
{
    match current {
        Some(c) => c.clone(),
        None => "default".to_string(),
    }
}

/// A new window for a task can be named: its title can be cut to 30
/// bytes.
pub open spec fn window_name_ok(t: TaskEntry) -> bool {
    match t.work_item {
        Some(wi) => can_truncate(wi.title@, 30),
        None => true,
    }
}

/// The name of the window made for a task: `#id` and the title cut to 30
/// bytes, or the entry's name when it has no work item.
pub open spec fn task_window_name_of(t: TaskEntry) -> Seq<char> {
    match t.work_item {
        Some(wi) => match wi.id {
            Some(id) => "#"@ + decimal(id as nat) + " "@ + truncated(wi.title@, 30),
            None => truncated(wi.title@, 30),
        },
        None => t.name@,
    }
}

/// The name of the window made for a task.
pub fn task_window_name(t: &TaskEntry) -> (s: String)
    requires
        window_name_ok(*t),
    ensures
        s@ == task_window_name_of(*t),
{
    match &t.work_item {
        Some(wi) => {
            let title = truncate(wi.title.as_str(), 30);
            match wi.id {
                Some(id) => {
                    let mut v: Vec<char> = Vec::new();
                    push_str(&mut v, "#");
                    push_decimal(&mut v, id);
                    push_str(&mut v, " ");
                    push_str(&mut v, title.as_str());
                    string_from(&v)
                },
                None => title,
            }
        },
        None => t.name.clone(),
    }
}

/// The steps of opening a task in `session` (which exists or not): make
/// the session if needed and save its mapping to the parent work item;
/// select the task's window, or make one (renaming the new session's
/// first window), launch Copilot there when configured and save the
/// window's mapping; then switch to the session.
pub open spec fn task_plan_of(
    t: TaskEntry,
    session: Seq<char>,
    session_exists: bool,
    parent: Option<WorkItem>,
    auto_launch: bool,
) -> Seq<StepView> {
    let pre = if session_exists {
        seq![]
    } else {
        seq![
            StepView::CreateSession(session),
            StepView::SaveSession(session_mapping_of(session, parent)),
        ]
    };
    let mid = if t.window_exists {
        match t.window_index {
            Some(i) => seq![StepView::SelectWindow(session, i)],
            None => seq![],
        }
    } else {
        let w = task_window_name_of(t);
        (if session_exists {
            seq![StepView::CreateWindow(session, w)]
        } else {
            seq![StepView::RenameWindow(session, 1, w)]
        }) + (if auto_launch {
            seq![StepView::LaunchCopilot(session + ":"@ + w, t.work_item)]
        } else {
            seq![]
        }) + seq![StepView::SaveWindow(window_mapping_of(session, w, t.work_item, "copilot"@))]
    };
    pre + mid + seq![StepView::SwitchSession(session)]
}

/// The steps of opening a task.
pub fn task_plan(
    t: &TaskEntry,
    session: &str,
    session_exists: bool,
    parent: &Option<WorkItem>,
    auto_launch: bool,
) -> (p: Vec<Step>)
    requires
        t.window_exists || window_name_ok(*t),
    ensures
        plan_view(p@) == task_plan_of(*t, session@, session_exists, *parent, auto_launch),
{
    let mut p: Vec<Step> = Vec::new();
    if !session_exists {
        p.push(Step::CreateSession(session.to_string()));
        p.push(Step::SaveSession(session_mapping_for(session, parent)));
    }
    let ghost pre = plan_view(p@);
    if t.window_exists {
        match t.window_index {
            Some(i) => {
                p.push(Step::SelectWindow(session.to_string(), i));
            },
            None => {},
        }
    } else {
        let w = task_window_name(t);
        if session_exists {
            p.push(Step::CreateWindow(session.to_string(), w.clone()));
        } else {
            p.push(Step::RenameWindow(session.to_string(), 1, w.clone()));
        }
        if auto_launch {
            p.push(Step::LaunchCopilot(joined(session, ":", w.as_str()), clone_work_item(&t.work_item)));
        }
        p.push(Step::SaveWindow(window_mapping_for(session, w.as_str(), &t.work_item, "copilot")));
    }
    p.push(Step::SwitchSession(session.to_string()));
    assert(plan_view(p@) =~= task_plan_of(*t, session@, session_exists, *parent, auto_launch));
    p
}

// ─── New sessions and windows ────────────────────────────────────

/// The steps of creating a free session: switch to it if it exists, else
/// create it, save a "Free" mapping, launch Copilot in its first window
/// when configured, and switch to it.
pub open spec fn free_session_plan_of(name: Seq<char>, exists: bool, auto_launch: bool) -> Seq<StepView> {
    if exists {
        seq![StepView::SwitchSession(name)]
    } else {
        seq![
            StepView::CreateSession(name),
            StepView::SaveSession(
                SessionMappingView {
                    session_name: name,
                    work_item_id: None,
                    work_item_title: None,
                    work_item_type: Some("Free"@),
                    template: None,
                    created_at: seq![],
                },
            ),
        ] + (if auto_launch {
            seq![
                StepView::LaunchCopilot(name + ":1"@, None),
                StepView::RenameWindow(name, 1, "copilot"@),
            ]
        } else {
            seq![]
        }) + seq![StepView::SwitchSession(name)]
    }
}

/// The steps of creating a free session.
pub fn free_session_plan(name: &str, exists: bool, auto_launch: bool) -> (p: Vec<Step>)
    ensures
        plan_view(p@) == free_session_plan_of(name@, exists, auto_launch),
{
    let mut p: Vec<Step> = Vec::new();
    if exists {
        p.push(Step::SwitchSession(name.to_string()));
    } else {
        p.push(Step::CreateSession(name.to_string()));
        let m = SessionMapping {
            session_name: name.to_string(),
            work_item_id: None,
            work_item_title: None,
            work_item_type: Some("Free".to_string()),
            template: None,
            created_at: String::new(),
        };
        p.push(Step::SaveSession(m));
        if auto_launch {
            proof {
                reveal_strlit(":");
                reveal_strlit("1");
                reveal_strlit(":1");
                assert(name@ + ":"@ + "1"@ =~= name@ + ":1"@);
            }
            p.push(Step::LaunchCopilot(joined(name, ":", "1"), None));
            p.push(Step::RenameWindow(name.to_string(), 1, "copilot".to_string()));
        }
        p.push(Step::SwitchSession(name.to_string()));
    }
    assert(plan_view(p@) =~= free_session_plan_of(name@, exists, auto_launch));
    p
}

/// The steps of a new Copilot window in the current session (named
/// "copilot" unless a name is given): nothing without a session.
pub open spec fn copilot_window_plan_of(session: Option<Seq<char>>, name: Option<Seq<char>>) -> Seq<StepView> {
    match session {
        Some(s) => {
            let w = match name {
                Some(n) => n,
                None => "copilot"@,
            };
            seq![
                StepView::CreateWindow(s, w),
                StepView::LaunchCopilotHere,
                StepView::SaveWindow(window_mapping_of(s, w, None, "copilot"@)),
            ]
        },
        None => seq![],
    }
}

/// The steps of a new Copilot window.
pub fn copilot_window_plan(session: &Option<String>, name: Option<&str>) -> (p: Vec<Step>)
    ensures
        plan_view(p@) == copilot_window_plan_of(
            match session {
                Some(s) => Some(s@),
                None => None,
            },
            match name {
                Some(n) => Some(n@),
                None => None,
            },
        ),
{
    let mut p: Vec<Step> = Vec::new();
    match session {
        Some(s) => {
            let w = match name {
                Some(n) => n,
                None => "copilot",
            };
            p.push(Step::CreateWindow(s.clone(), w.to_string()));
            p.push(Step::LaunchCopilotHere);
            p.push(Step::SaveWindow(window_mapping_for(s.as_str(), w, &None, "copilot")));
        },
        None => {},
    }
    assert(plan_view(p@) =~= copilot_window_plan_of(
        match session {
            Some(s) => Some(s@),
            None => None,
        },
        match name {
            Some(n) => Some(n@),
            None => None,
        },
    ));
    p
}

/// The steps of a new terminal window in the current session: nothing
/// without a session.
pub open spec fn terminal_window_plan_of(session: Option<Seq<char>>, name: Seq<char>) -> Seq<StepView> {
    match session {
        Some(s) => seq![
            StepView::CreateWindow(s, name),
            StepView::SaveWindow(window_mapping_of(s, name, None, "shell"@)),
        ],
        None => seq![],
    }
}

/// The steps of a new terminal window.
pub fn terminal_window_plan(session: &Option<String>, name: &str) -> (p: Vec<Step>)
    ensures
        plan_view(p@) == terminal_window_plan_of(
            match session {
                Some(s) => Some(s@),
                None => None,
            },
            name@,
        ),
{
    let mut p: Vec<Step> = Vec::new();
    match session {
        Some(s) => {
            p.push(Step::CreateWindow(s.clone(), name.to_string()));
            p.push(Step::SaveWindow(window_mapping_for(s.as_str(), name, &None, "shell")));
        },
        None => {},
    }
    assert(plan_view(p@) =~= terminal_window_plan_of(
        match session {
            Some(s) => Some(s@),
            None => None,
        },
        name@,
    ));
    p
}

} // verus!
