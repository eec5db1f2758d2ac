//! Configuration and work-item types.
use vstd::prelude::*;

use crate::text::{decimal, push_decimal, push_str, string_from};

verus! {

/// The whole user configuration.
#[derive(Debug, Clone)]
pub struct AppConfig {
    pub copilot: CopilotConfig,
    pub azdo: Option<AzdoConfig>,
    pub keybindings: KeybindingsConfig,
    pub notify: NotifyConfig,
}

/// How the copilot CLI is launched.
#[derive(Debug, Clone)]
pub struct CopilotConfig {
    /// Path to the copilot binary
    pub bin: String,
    /// Always launch with --yolo (auto-approve all actions)
    pub yolo: bool,
    /// Default agent to use (user-specific, not project default)
    pub default_agent: Option<String>,
    /// Extra flags to pass to copilot on every launch
    pub extra_flags: Vec<String>,
    /// Auto-launch copilot when creating new windows
    pub auto_launch: bool,
    /// Prompt template for context injection.
    /// Placeholders: {type}, {id}, {title}, {description}, {acceptance_criteria}
    pub prompt_template: String,
    /// Always start copilot in plan mode (the prompt starts with `[[PLAN]]`)
    pub plan_mode: bool,
}

/// Connection to Azure DevOps.
#[derive(Debug, Clone)]
pub struct AzdoConfig {
    pub organization: String,
    pub project: String,
    pub team: Option<String>,
    pub filters: AzdoFilters,
}

/// Which work items are queried.
#[derive(Debug, Clone)]
pub struct AzdoFilters {
    /// "current" or a specific iteration path
    pub iteration: String,
    /// Work item states to include
    pub states: Vec<String>,
    /// Area paths to filter
    pub area_paths: Vec<String>,
}

/// tmux keys (prefix + key) of the views.
#[derive(Debug, Clone)]
pub struct KeybindingsConfig {
    pub feature_selector: String,
    pub task_selector: String,
    pub dashboard: String,
}

/// How notifications reach the user.
#[derive(Debug, Clone)]
pub struct NotifyConfig {
    /// Fire a native desktop notification
    pub native: bool,
    /// Play a sound with each notification
    pub sound: bool,
    /// Days after which notifications are cleaned up
    pub ttl_days: u32,
}

/// A work item from Azure DevOps (or a free-form item).
#[derive(Debug, Clone)]
pub struct WorkItem {
    pub id: Option<u64>,
    pub title: String,
    pub work_item_type: WorkItemType,
    pub state: String,
    pub assigned_to: Option<String>,
    pub description: Option<String>,
    pub acceptance_criteria: Option<String>,
    pub parent_id: Option<u64>,
}

/// The kinds of work item.
#[derive(Debug, Clone, Copy, PartialEq, Eq, Structural)]
pub enum WorkItemType {
    Feature,
    UserStory,
    Bug,
    Task,
    Free,
}

/// The character views of a list of strings.
pub open spec fn str_views(v: Seq<String>) -> Seq<Seq<char>> {
    v.map_values(|s: String| s@)
}

/// The view of an optional string.
pub open spec fn opt_view(o: Option<String>) -> Option<Seq<char>> {
    match o {
        Some(s) => Some(s@),
        None => None,
    }
}

/// A copy of an optional string.
pub fn clone_opt(o: &Option<String>) -> (r: Option<String>)
    ensures
        r == *o,
{
    match o {
        Some(s) => Some(s.clone()),
        None => None,
    }
}

/// A copy of a list of strings.
pub fn clone_strings(v: &Vec<String>) -> (r: Vec<String>)
    ensures
        r@ == v@,
{
    let mut r: Vec<String> = Vec::new();
    let mut i: usize = 0;
    while i < v.len()
        invariant
            i <= v.len(),
            r@ == v@.take(i as int),
        decreases v.len() - i,
    {
        r.push(v[i].clone());
        i = i + 1;
        assert(r@ =~= v@.take(i as int));
    }
    assert(v@.take(v.len() as int) =~= v@);
    r
}

/// The name under which a work item type is shown.
pub open spec fn type_label(t: WorkItemType) -> Seq<char> {
    match t {
        WorkItemType::Feature => "Feature"@,
        WorkItemType::UserStory => "User Story"@,
        WorkItemType::Bug => "Bug"@,
        WorkItemType::Task => "Task"@,
        WorkItemType::Free => "Free"@,
    }
}

/// The icon of a work item type.
pub open spec fn type_icon(t: WorkItemType) -> Seq<char> {
    match t {
        WorkItemType::Feature => "🏗"@,
        WorkItemType::UserStory => "📖"@,
        WorkItemType::Bug => "🐛"@,
        WorkItemType::Task => "✅"@,
        WorkItemType::Free => "📁"@,
    }
}

impl WorkItemType {
    /// The name under which this type is shown ("User Story", ...).
    pub fn name(&self) -> (s: &'static str)
        ensures
            s@ == type_label(*self),
    {
        match self {
            WorkItemType::Feature => "Feature",
            WorkItemType::UserStory => "User Story",
            WorkItemType::Bug => "Bug",
            WorkItemType::Task => "Task",
            WorkItemType::Free => "Free",
        }
    }

    /// The name of this type as a `String` (what the type displays as).
    pub fn to_string(&self) -> (s: String)
        ensures
            s@ == type_label(*self),
    {
        self.name().to_string()
    }
}

/// The label of a work item in TUI lists.
pub open spec fn display_label_of(wi: WorkItem) -> Seq<char> {
    match wi.id {
        Some(id) => type_icon(wi.work_item_type) + " #"@ + decimal(id as nat) + " "@ + wi.title@,
        None => type_icon(wi.work_item_type) + " "@ + wi.title@,
    }
}

impl WorkItem {
    /// The icon for this work item type.
    pub fn icon(&self) -> (s: &'static str)
        ensures
            s@ == type_icon(self.work_item_type),
    {
        match self.work_item_type {
            WorkItemType::Feature => "🏗",
            WorkItemType::UserStory => "📖",
            WorkItemType::Bug => "🐛",
            WorkItemType::Task => "✅",
            WorkItemType::Free => "📁",
        }
    }

    /// The display string for TUI lists: icon, `#id` when there is one,
    /// and title.
    pub fn display_label(&self) -> (s: String)
        ensures
            s@ == display_label_of(*self),
    {
        let mut v: Vec<char> = Vec::new();
        push_str(&mut v, self.icon());
        match self.id {
            Some(id) => {
                push_str(&mut v, " #");
                push_decimal(&mut v, id);
                push_str(&mut v, " ");
            },
            None => {
                push_str(&mut v, " ");
            },
        }
        push_str(&mut v, self.title.as_str());
        string_from(&v)
    }

    /// A field-for-field copy.
    pub fn duplicate(&self) -> (r: WorkItem)
        ensures
            r == *self,
    {
        WorkItem {
            id: self.id,
            title: self.title.clone(),
            work_item_type: self.work_item_type,
            state: self.state.clone(),
            assigned_to: clone_opt(&self.assigned_to),
            description: clone_opt(&self.description),
            acceptance_criteria: clone_opt(&self.acceptance_criteria),
            parent_id: self.parent_id,
        }
    }
}

// ─── Defaults ────────────────────────────────────────────────────

/// The default prompt template.
pub open spec fn default_prompt_template() -> Seq<char> {
    "I'm going to work on {type} #{id}: {title}\n\nDescription:\n{description}\n\nAcceptance Criteria:\n{acceptance_criteria}\n\nDon't take any action yet. Just acknowledge this context."@
}

impl Default for CopilotConfig {
    fn default() -> (r: Self)
        ensures
            r.bin@ == "copilot"@,
            r.yolo,
            r.default_agent is None,
            r.extra_flags@.len() == 0,
            r.auto_launch,
            r.prompt_template@ == default_prompt_template(),
            r.plan_mode,
    {
        CopilotConfig {
            bin: "copilot".to_string(),
            yolo: true,
            default_agent: None,
            extra_flags: Vec::new(),
            auto_launch: true,
            prompt_template: "I'm going to work on {type} #{id}: {title}\n\nDescription:\n{description}\n\nAcceptance Criteria:\n{acceptance_criteria}\n\nDon't take any action yet. Just acknowledge this context.".to_string(),
            plan_mode: true,
        }
    }
}

impl Default for AzdoFilters {
    fn default() -> (r: Self)
        ensures
            r.iteration@ == "current"@,
            str_views(r.states@) == seq!["New"@, "Active"@, "Resolved"@],
            r.area_paths@.len() == 0,
    {
        let mut states: Vec<String> = Vec::new();
        states.push("New".to_string());
        states.push("Active".to_string());
        states.push("Resolved".to_string());
        let r = AzdoFilters { iteration: "current".to_string(), states, area_paths: Vec::new() };
        assert(str_views(r.states@) =~= seq!["New"@, "Active"@, "Resolved"@]);
        r
    }
}

impl Default for AzdoConfig {
    fn default() -> (r: Self)
        ensures
            r.organization@.len() == 0,
            r.project@.len() == 0,
            r.team is None,
            r.filters.iteration@ == "current"@,
            str_views(r.filters.states@) == seq!["New"@, "Active"@, "Resolved"@],
            r.filters.area_paths@.len() == 0,
    {
        AzdoConfig {
            organization: String::new(),
            project: String::new(),
            team: None,
            filters: AzdoFilters::default(),
        }
    }
}

impl Default for KeybindingsConfig {
    fn default() -> (r: Self)
        ensures
            r.feature_selector@ == "F"@,
            r.task_selector@ == "T"@,
            r.dashboard@ == "D"@,
    {
        KeybindingsConfig {
            feature_selector: "F".to_string(),
            task_selector: "T".to_string(),
            dashboard: "D".to_string(),
        }
    }
}

impl Default for NotifyConfig {
    fn default() -> (r: Self)
        ensures
            r.native,
            r.sound,
            r.ttl_days == 7,
    {
        NotifyConfig { native: true, sound: true, ttl_days: 7 }
    }
}

impl Default for AppConfig {
    fn default() -> (r: Self)
        ensures
            r.azdo is None,
            r.copilot.bin@ == "copilot"@,
            r.copilot.yolo,
            r.copilot.default_agent is None,
            r.copilot.extra_flags@.len() == 0,
            r.copilot.auto_launch,
            r.copilot.prompt_template@ == default_prompt_template(),
            r.copilot.plan_mode,
            r.keybindings.feature_selector@ == "F"@,
            r.keybindings.task_selector@ == "T"@,
            r.keybindings.dashboard@ == "D"@,
            r.notify.native,
            r.notify.sound,
            r.notify.ttl_days == 7,
    {
        AppConfig {
            copilot: CopilotConfig::default(),
            azdo: None,
            keybindings: KeybindingsConfig::default(),
            notify: NotifyConfig::default(),
        }
    }
}

} // verus!
