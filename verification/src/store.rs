//! The records that the database keeps: session and window mappings,
//! notifications and background watchers.
use vstd::prelude::*;

use crate::config::{clone_opt, opt_view};

verus! {

/// A persisted session-to-feature mapping.
#[derive(Debug, Clone)]
pub struct SessionMapping {
    pub session_name: String,
    pub work_item_id: Option<u64>,
    pub work_item_title: Option<String>,
    pub work_item_type: Option<String>,
    pub template: Option<String>,
    pub created_at: String,
}

/// A persisted window-to-task mapping.
#[derive(Debug, Clone)]
pub struct WindowMapping {
    pub session_name: String,
    pub window_name: String,
    pub work_item_id: Option<u64>,
    pub work_item_title: Option<String>,
    pub work_item_type: Option<String>,
    pub copilot_session_id: Option<String>,
    /// "copilot" or "shell"
    pub window_type: String,
}

/// A notification entry.
#[derive(Debug, Clone)]
pub struct Notification {
    pub id: i64,
    /// info, warn, error or success
    pub level: String,
    pub title: String,
    pub body: Option<String>,
    pub source: Option<String>,
    pub link: Option<String>,
    pub read: bool,
    pub created_at: String,
}

/// A background watcher entry.
#[derive(Debug, Clone)]
pub struct Watcher {
    pub id: String,
    pub watcher_type: String,
    pub config: String,
    pub pid: Option<u32>,
    pub status: String,
    pub started_at: String,
    pub last_check_at: Option<String>,
    /// The first line of the last check's output.
    pub last_output: Option<String>,
    /// Restarted by `resurrect` when its process is gone.
    pub persistent: bool,
    /// The arguments that restart it, separated by NUL characters.
    pub restart_args: Option<String>,
}

/// A session mapping as plain values.
pub struct SessionMappingView {
    pub session_name: Seq<char>,
    pub work_item_id: Option<u64>,
    pub work_item_title: Option<Seq<char>>,
    pub work_item_type: Option<Seq<char>>,
    pub template: Option<Seq<char>>,
    pub created_at: Seq<char>,
}

/// A window mapping as plain values.
pub struct WindowMappingView {
    pub session_name: Seq<char>,
    pub window_name: Seq<char>,
    pub work_item_id: Option<u64>,
    pub work_item_title: Option<Seq<char>>,
    pub work_item_type: Option<Seq<char>>,
    pub copilot_session_id: Option<Seq<char>>,
    pub window_type: Seq<char>,
}

impl View for SessionMapping {
    type V = SessionMappingView;

    open spec fn view(&self) -> SessionMappingView {
        SessionMappingView {
            session_name: self.session_name@,
            work_item_id: self.work_item_id,
            work_item_title: opt_view(self.work_item_title),
            work_item_type: opt_view(self.work_item_type),
            template: opt_view(self.template),
            created_at: self.created_at@,
        }
    }
}

impl View for WindowMapping {
    type V = WindowMappingView;

    open spec fn view(&self) -> WindowMappingView {
        WindowMappingView {
            session_name: self.session_name@,
            window_name: self.window_name@,
            work_item_id: self.work_item_id,
            work_item_title: opt_view(self.work_item_title),
            work_item_type: opt_view(self.work_item_type),
            copilot_session_id: opt_view(self.copilot_session_id),
            window_type: self.window_type@,
        }
    }
}

impl SessionMapping {
    /// A field-for-field copy.
    pub fn duplicate(&self) -> (r: SessionMapping)
        ensures
            r == *self,
    {
        SessionMapping {
            session_name: self.session_name.clone(),
            work_item_id: self.work_item_id,
            work_item_title: clone_opt(&self.work_item_title),
            work_item_type: clone_opt(&self.work_item_type),
            template: clone_opt(&self.template),
            created_at: self.created_at.clone(),
        }
    }
}

impl WindowMapping {
    /// A field-for-field copy.
    pub fn duplicate(&self) -> (r: WindowMapping)
        ensures
            r == *self,
    {
        WindowMapping {
            session_name: self.session_name.clone(),
            window_name: self.window_name.clone(),
            work_item_id: self.work_item_id,
            work_item_title: clone_opt(&self.work_item_title),
            work_item_type: clone_opt(&self.work_item_type),
            copilot_session_id: clone_opt(&self.copilot_session_id),
            window_type: self.window_type.clone(),
        }
    }
}

impl Watcher {
    /// A field-for-field copy.
    pub fn duplicate(&self) -> (r: Watcher)
        ensures
            r == *self,
    {
        Watcher {
            id: self.id.clone(),
            watcher_type: self.watcher_type.clone(),
            config: self.config.clone(),
            pid: self.pid,
            status: self.status.clone(),
            started_at: self.started_at.clone(),
            last_check_at: clone_opt(&self.last_check_at),
            last_output: clone_opt(&self.last_output),
            persistent: self.persistent,
            restart_args: clone_opt(&self.restart_args),
        }
    }
}

} // verus!
