//! Sample work items and notifications for demo mode.
use vstd::prelude::*;

use crate::config::{opt_view, WorkItem, WorkItemType};

verus! {

/// The items that `demo_features` returns.
pub open spec fn demo_features_spec(v: Seq<WorkItem>) -> bool {
    &&& v.len() == 5
    &&& v[0].id == Some(10001u64)
    &&& v[0].title@ == "OAuth 2.0 Authentication"@
    &&& v[0].work_item_type == WorkItemType::Feature
    &&& v[0].state@ == "Active"@
    &&& opt_view(v[0].assigned_to) == Some("Alice Chen"@)
    &&& opt_view(v[0].description) == Some("Implement OAuth 2.0 authentication flow with support for Google, GitHub, and Microsoft identity providers. Include token refresh, session management, and role-based access control."@)
    &&& opt_view(v[0].acceptance_criteria) == Some("- Users can sign in with Google, GitHub, or Microsoft\n- Tokens refresh automatically before expiry\n- RBAC with admin, editor, and viewer roles\n- Session timeout after 30 minutes of inactivity"@)
    &&& v[0].parent_id == None::<u64>
    &&& v[1].id == Some(10002u64)
    &&& v[1].title@ == "Real-time Collaboration Engine"@
    &&& v[1].work_item_type == WorkItemType::Feature
    &&& v[1].state@ == "Active"@
    &&& opt_view(v[1].assigned_to) == Some("Bob Martinez"@)
    &&& opt_view(v[1].description) == Some("Build a real-time collaboration system using WebSockets for live document editing, cursor tracking, and presence indicators."@)
    &&& opt_view(v[1].acceptance_criteria) == Some("- Multiple users can edit the same document simultaneously\n- Cursor positions are visible to all collaborators\n- Conflict resolution via CRDT\n- Presence indicators show who is online"@)
    &&& v[1].parent_id == None::<u64>
    &&& v[2].id == Some(10003u64)
    &&& v[2].title@ == "Dashboard Analytics"@
    &&& v[2].work_item_type == WorkItemType::Feature
    &&& v[2].state@ == "New"@
    &&& opt_view(v[2].assigned_to) == None::<Seq<char>>
    &&& opt_view(v[2].description) == Some("Create an analytics dashboard with charts, KPIs, and exportable reports for project metrics."@)
    &&& opt_view(v[2].acceptance_criteria) == None::<Seq<char>>
    &&& v[2].parent_id == None::<u64>
    &&& v[3].id == Some(10004u64)
    &&& v[3].title@ == "API Rate Limiting & Throttling"@
    &&& v[3].work_item_type == WorkItemType::Feature
    &&& v[3].state@ == "Active"@
    &&& opt_view(v[3].assigned_to) == Some("Carol Park"@)
    &&& opt_view(v[3].description) == Some("Implement rate limiting middleware with configurable thresholds per API key, IP address, and endpoint."@)
    &&& opt_view(v[3].acceptance_criteria) == Some("- Token bucket algorithm with configurable rates\n- Per-API-key and per-IP limits\n- Return 429 with Retry-After header\n- Admin dashboard for monitoring"@)
    &&& v[3].parent_id == None::<u64>
    &&& v[4].id == Some(10005u64)
    &&& v[4].title@ == "Multi-tenant Data Isolation"@
    &&& v[4].work_item_type == WorkItemType::Feature
    &&& v[4].state@ == "Resolved"@
    &&& opt_view(v[4].assigned_to) == Some("David Kim"@)
    &&& opt_view(v[4].description) == Some("Ensure complete data isolation between tenants using row-level security and schema separation."@)
    &&& opt_view(v[4].acceptance_criteria) == None::<Seq<char>>
    &&& v[4].parent_id == None::<u64>
}

/// Demo features for --demo mode (generic project management tool).
pub fn demo_features() -> (v: Vec<WorkItem>)
    ensures
        demo_features_spec(v@),
{
    let mut v: Vec<WorkItem> = Vec::new();
    v.push(WorkItem {
        id: Some(10001),
        title: "OAuth 2.0 Authentication".to_string(),
        work_item_type: WorkItemType::Feature,
        state: "Active".to_string(),
        assigned_to: Some("Alice Chen".to_string()),
        description: Some("Implement OAuth 2.0 authentication flow with support for Google, GitHub, and Microsoft identity providers. Include token refresh, session management, and role-based access control.".to_string()),
        acceptance_criteria: Some("- Users can sign in with Google, GitHub, or Microsoft\n- Tokens refresh automatically before expiry\n- RBAC with admin, editor, and viewer roles\n- Session timeout after 30 minutes of inactivity".to_string()),
        parent_id: None,
    });
    v.push(WorkItem {
        id: Some(10002),
        title: "Real-time Collaboration Engine".to_string(),
        work_item_type: WorkItemType::Feature,
        state: "Active".to_string(),
        assigned_to: Some("Bob Martinez".to_string()),
        description: Some("Build a real-time collaboration system using WebSockets for live document editing, cursor tracking, and presence indicators.".to_string()),
        acceptance_criteria: Some("- Multiple users can edit the same document simultaneously\n- Cursor positions are visible to all collaborators\n- Conflict resolution via CRDT\n- Presence indicators show who is online".to_string()),
        parent_id: None,
    });
    v.push(WorkItem {
        id: Some(10003),
        title: "Dashboard Analytics".to_string(),
        work_item_type: WorkItemType::Feature,
        state: "New".to_string(),
        assigned_to: None,
        description: Some("Create an analytics dashboard with charts, KPIs, and exportable reports for project metrics.".to_string()),
        acceptance_criteria: None,
        parent_id: None,
    });
    v.push(WorkItem {
        id: Some(10004),
        title: "API Rate Limiting & Throttling".to_string(),
        work_item_type: WorkItemType::Feature,
        state: "Active".to_string(),
        assigned_to: Some("Carol Park".to_string()),
        description: Some("Implement rate limiting middleware with configurable thresholds per API key, IP address, and endpoint.".to_string()),
        acceptance_criteria: Some("- Token bucket algorithm with configurable rates\n- Per-API-key and per-IP limits\n- Return 429 with Retry-After header\n- Admin dashboard for monitoring".to_string()),
        parent_id: None,
    });
    v.push(WorkItem {
        id: Some(10005),
        title: "Multi-tenant Data Isolation".to_string(),
        work_item_type: WorkItemType::Feature,
        state: "Resolved".to_string(),
        assigned_to: Some("David Kim".to_string()),
        description: Some("Ensure complete data isolation between tenants using row-level security and schema separation.".to_string()),
        acceptance_criteria: None,
        parent_id: None,
    });
    v
}

/// The items that `demo_tasks_auth` returns.
pub open spec fn demo_tasks_auth_spec(v: Seq<WorkItem>) -> bool {
    &&& v.len() == 6
    &&& v[0].id == Some(20001u64)
    &&& v[0].title@ == "Google OAuth integration broken on Safari"@
    &&& v[0].work_item_type == WorkItemType::Bug
    &&& v[0].state@ == "Active"@
    &&& opt_view(v[0].assigned_to) == Some("Alice Chen"@)
    &&& opt_view(v[0].description) == Some("The Google OAuth redirect fails silently on Safari 17+ due to ITP blocking third-party cookies."@)
    &&& opt_view(v[0].acceptance_criteria) == Some("- OAuth flow works on Safari 17+\n- No cookie-based workarounds\n- Add integration test for Safari UA"@)
    &&& v[0].parent_id == Some(10001u64)
    &&& v[1].id == Some(20002u64)
    &&& v[1].title@ == "Token refresh returns 401 intermittently"@
    &&& v[1].work_item_type == WorkItemType::Bug
    &&& v[1].state@ == "New"@
    &&& opt_view(v[1].assigned_to) == None::<Seq<char>>
    &&& opt_view(v[1].description) == Some("Under high load, the token refresh endpoint returns 401 instead of a new token. Race condition suspected in the token store."@)
    &&& opt_view(v[1].acceptance_criteria) == None::<Seq<char>>
    &&& v[1].parent_id == Some(10001u64)
    &&& v[2].id == Some(20003u64)
    &&& v[2].title@ == "Add GitHub identity provider"@
    &&& v[2].work_item_type == WorkItemType::UserStory
    &&& v[2].state@ == "Active"@
    &&& opt_view(v[2].assigned_to) == Some("Alice Chen"@)
    &&& opt_view(v[2].description) == Some("As a user, I want to sign in with my GitHub account so that I can use my existing developer identity."@)
    &&& opt_view(v[2].acceptance_criteria) == Some("- GitHub OAuth app configured\n- User profile mapped from GitHub API\n- Avatar synced from GitHub\n- Link/unlink GitHub account"@)
    &&& v[2].parent_id == Some(10001u64)
    &&& v[3].id == Some(20004u64)
    &&& v[3].title@ == "Implement RBAC middleware"@
    &&& v[3].work_item_type == WorkItemType::UserStory
    &&& v[3].state@ == "Active"@
    &&& opt_view(v[3].assigned_to) == Some("Eve Wilson"@)
    &&& opt_view(v[3].description) == Some("As an admin, I want role-based access control so that I can restrict actions based on user roles."@)
    &&& opt_view(v[3].acceptance_criteria) == Some("- Three roles: admin, editor, viewer\n- Middleware checks permissions per route\n- 403 returned for unauthorized access\n- Role assignment via admin panel"@)
    &&& v[3].parent_id == Some(10001u64)
    &&& v[4].id == Some(20005u64)
    &&& v[4].title@ == "Write OAuth integration tests"@
    &&& v[4].work_item_type == WorkItemType::Task
    &&& v[4].state@ == "New"@
    &&& opt_view(v[4].assigned_to) == None::<Seq<char>>
    &&& opt_view(v[4].description) == Some("Create comprehensive integration tests for all OAuth flows including edge cases."@)
    &&& opt_view(v[4].acceptance_criteria) == None::<Seq<char>>
    &&& v[4].parent_id == Some(10001u64)
    &&& v[5].id == Some(20006u64)
    &&& v[5].title@ == "Session timeout configuration"@
    &&& v[5].work_item_type == WorkItemType::Task
    &&& v[5].state@ == "Active"@
    &&& opt_view(v[5].assigned_to) == Some("Alice Chen"@)
    &&& opt_view(v[5].description) == Some("Make session timeout configurable per tenant with sensible defaults."@)
    &&& opt_view(v[5].acceptance_criteria) == None::<Seq<char>>
    &&& v[5].parent_id == Some(10001u64)
}

/// Demo tasks (children of feature 10001 — OAuth).
pub fn demo_tasks_auth() -> (v: Vec<WorkItem>)
    ensures
        demo_tasks_auth_spec(v@),
{
    let mut v: Vec<WorkItem> = Vec::new();
    v.push(WorkItem {
        id: Some(20001),
        title: "Google OAuth integration broken on Safari".to_string(),
        work_item_type: WorkItemType::Bug,
        state: "Active".to_string(),
        assigned_to: Some("Alice Chen".to_string()),
        description: Some("The Google OAuth redirect fails silently on Safari 17+ due to ITP blocking third-party cookies.".to_string()),
        acceptance_criteria: Some("- OAuth flow works on Safari 17+\n- No cookie-based workarounds\n- Add integration test for Safari UA".to_string()),
        parent_id: Some(10001),
    });
    v.push(WorkItem {
        id: Some(20002),
        title: "Token refresh returns 401 intermittently".to_string(),
        work_item_type: WorkItemType::Bug,
        state: "New".to_string(),
        assigned_to: None,
        description: Some("Under high load, the token refresh endpoint returns 401 instead of a new token. Race condition suspected in the token store.".to_string()),
        acceptance_criteria: None,
        parent_id: Some(10001),
    });
    v.push(WorkItem {
        id: Some(20003),
        title: "Add GitHub identity provider".to_string(),
        work_item_type: WorkItemType::UserStory,
        state: "Active".to_string(),
        assigned_to: Some("Alice Chen".to_string()),
        description: Some("As a user, I want to sign in with my GitHub account so that I can use my existing developer identity.".to_string()),
        acceptance_criteria: Some("- GitHub OAuth app configured\n- User profile mapped from GitHub API\n- Avatar synced from GitHub\n- Link/unlink GitHub account".to_string()),
        parent_id: Some(10001),
    });
    v.push(WorkItem {
        id: Some(20004),
        title: "Implement RBAC middleware".to_string(),
        work_item_type: WorkItemType::UserStory,
        state: "Active".to_string(),
        assigned_to: Some("Eve Wilson".to_string()),
        description: Some("As an admin, I want role-based access control so that I can restrict actions based on user roles.".to_string()),
        acceptance_criteria: Some("- Three roles: admin, editor, viewer\n- Middleware checks permissions per route\n- 403 returned for unauthorized access\n- Role assignment via admin panel".to_string()),
        parent_id: Some(10001),
    });
    v.push(WorkItem {
        id: Some(20005),
        title: "Write OAuth integration tests".to_string(),
        work_item_type: WorkItemType::Task,
        state: "New".to_string(),
        assigned_to: None,
        description: Some("Create comprehensive integration tests for all OAuth flows including edge cases.".to_string()),
        acceptance_criteria: None,
        parent_id: Some(10001),
    });
    v.push(WorkItem {
        id: Some(20006),
        title: "Session timeout configuration".to_string(),
        work_item_type: WorkItemType::Task,
        state: "Active".to_string(),
        assigned_to: Some("Alice Chen".to_string()),
        description: Some("Make session timeout configurable per tenant with sensible defaults.".to_string()),
        acceptance_criteria: None,
        parent_id: Some(10001),
    });
    v
}

/// The items that `demo_tasks_collab` returns.
pub open spec fn demo_tasks_collab_spec(v: Seq<WorkItem>) -> bool {
    &&& v.len() == 3
    &&& v[0].id == Some(20010u64)
    &&& v[0].title@ == "WebSocket connection drops after idle"@
    &&& v[0].work_item_type == WorkItemType::Bug
    &&& v[0].state@ == "Active"@
    &&& opt_view(v[0].assigned_to) == Some("Bob Martinez"@)
    &&& opt_view(v[0].description) == Some("WebSocket connections are silently dropped after 60s of inactivity. Need heartbeat mechanism."@)
    &&& opt_view(v[0].acceptance_criteria) == Some("- Implement ping/pong heartbeat every 30s\n- Auto-reconnect on disconnect\n- Buffer pending changes during reconnect"@)
    &&& v[0].parent_id == Some(10002u64)
    &&& v[1].id == Some(20011u64)
    &&& v[1].title@ == "Implement CRDT for text editing"@
    &&& v[1].work_item_type == WorkItemType::UserStory
    &&& v[1].state@ == "Active"@
    &&& opt_view(v[1].assigned_to) == Some("Bob Martinez"@)
    &&& opt_view(v[1].description) == Some("As a user, I want to edit documents simultaneously with others without conflicts."@)
    &&& opt_view(v[1].acceptance_criteria) == Some("- Yjs-based CRDT implementation\n- Works offline with sync on reconnect\n- Undo/redo per user\n- No data loss on concurrent edits"@)
    &&& v[1].parent_id == Some(10002u64)
    &&& v[2].id == Some(20012u64)
    &&& v[2].title@ == "Add presence indicators"@
    &&& v[2].work_item_type == WorkItemType::UserStory
    &&& v[2].state@ == "New"@
    &&& opt_view(v[2].assigned_to) == None::<Seq<char>>
    &&& opt_view(v[2].description) == Some("As a user, I want to see who else is viewing or editing the document."@)
    &&& opt_view(v[2].acceptance_criteria) == None::<Seq<char>>
    &&& v[2].parent_id == Some(10002u64)
}

/// Demo tasks (children of feature 10002 — Collaboration).
pub fn demo_tasks_collab() -> (v: Vec<WorkItem>)
    ensures
        demo_tasks_collab_spec(v@),
{
    let mut v: Vec<WorkItem> = Vec::new();
    v.push(WorkItem {
        id: Some(20010),
        title: "WebSocket connection drops after idle".to_string(),
        work_item_type: WorkItemType::Bug,
        state: "Active".to_string(),
        assigned_to: Some("Bob Martinez".to_string()),
        description: Some("WebSocket connections are silently dropped after 60s of inactivity. Need heartbeat mechanism.".to_string()),
        acceptance_criteria: Some("- Implement ping/pong heartbeat every 30s\n- Auto-reconnect on disconnect\n- Buffer pending changes during reconnect".to_string()),
        parent_id: Some(10002),
    });
    v.push(WorkItem {
        id: Some(20011),
        title: "Implement CRDT for text editing".to_string(),
        work_item_type: WorkItemType::UserStory,
        state: "Active".to_string(),
        assigned_to: Some("Bob Martinez".to_string()),
        description: Some("As a user, I want to edit documents simultaneously with others without conflicts.".to_string()),
        acceptance_criteria: Some("- Yjs-based CRDT implementation\n- Works offline with sync on reconnect\n- Undo/redo per user\n- No data loss on concurrent edits".to_string()),
        parent_id: Some(10002),
    });
    v.push(WorkItem {
        id: Some(20012),
        title: "Add presence indicators".to_string(),
        work_item_type: WorkItemType::UserStory,
        state: "New".to_string(),
        assigned_to: None,
        description: Some("As a user, I want to see who else is viewing or editing the document.".to_string()),
        acceptance_criteria: None,
        parent_id: Some(10002),
    });
    v
}

/// The notifications that `demo_notifications` returns: (title, level,
/// source, body).
pub open spec fn demo_notifications_spec(v: Seq<(String, String, String, String)>) -> bool {
    &&& v.len() == 5
    &&& v[0].0@ == "Pipeline #4521 succeeded"@ && v[0].1@ == "success"@ && v[0].2@ == "pipeline"@ && v[0].3@ == "All 247 tests passed, coverage 94.2%"@
    &&& v[1].0@ == "PR #189 has merge conflicts"@ && v[1].1@ == "warn"@ && v[1].2@ == "pr-review"@ && v[1].3@ == "Branch feature/oauth-github has conflicts with main"@
    &&& v[2].0@ == "SonarQube: 2 new code smells"@ && v[2].1@ == "info"@ && v[2].2@ == "sonarqube"@ && v[2].3@ == "Detected in src/auth/token.rs and src/auth/session.rs"@
    &&& v[3].0@ == "Build #4519 failed"@ && v[3].1@ == "error"@ && v[3].2@ == "pipeline"@ && v[3].3@ == "Test auth::refresh_token_race timed out after 30s"@
    &&& v[4].0@ == "PR #187 approved by Carol"@ && v[4].1@ == "success"@ && v[4].2@ == "pr-review"@ && v[4].3@ == "Ready to merge: API Rate Limiting implementation"@
}

/// Demo notifications for the notification center view, as
/// (title, level, source, body).
pub fn demo_notifications() -> (v: Vec<(String, String, String, String)>)
    ensures
        demo_notifications_spec(v@),
{
    let mut v: Vec<(String, String, String, String)> = Vec::new();
    v.push(("Pipeline #4521 succeeded".to_string(), "success".to_string(), "pipeline".to_string(), "All 247 tests passed, coverage 94.2%".to_string()));
    v.push(("PR #189 has merge conflicts".to_string(), "warn".to_string(), "pr-review".to_string(), "Branch feature/oauth-github has conflicts with main".to_string()));
    v.push(("SonarQube: 2 new code smells".to_string(), "info".to_string(), "sonarqube".to_string(), "Detected in src/auth/token.rs and src/auth/session.rs".to_string()));
    v.push(("Build #4519 failed".to_string(), "error".to_string(), "pipeline".to_string(), "Test auth::refresh_token_race timed out after 30s".to_string()));
    v.push(("PR #187 approved by Carol".to_string(), "success".to_string(), "pr-review".to_string(), "Ready to merge: API Rate Limiting implementation".to_string()));
    v
}

} // verus!
