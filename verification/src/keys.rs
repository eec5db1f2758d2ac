//! What the selector screens do with a key, a text-input key or a tick
//! of the demo animation: each is turned into intents that the front end
//! carries out.
use vstd::prelude::*;

use crate::config::WorkItem;
use crate::lists::selectable;
use crate::text::{decimal, push_decimal, push_str, string_from, trim, trim_chars};

verus! {

/// The keys that the screens tell apart.
#[derive(Debug, Clone, Copy, PartialEq, Eq, Structural)]
pub enum KeyCode {
    Char(char),
    Up,
    Down,
    Enter,
    Esc,
    Backspace,
    Other,
}

/// A key press: its code and whether Control was held.
#[derive(Debug, Clone, Copy, PartialEq, Eq, Structural)]
pub struct KeyPress {
    pub code: KeyCode,
    pub ctrl: bool,
}

/// What a text prompt creates once confirmed.
#[derive(Debug, Clone, Copy, PartialEq, Eq, Structural)]
pub enum TextAction {
    CreateFreeSession,
    CreateNamedWindow,
    CreateCopilotWindow,
}

/// What a key asks of the front end.
#[derive(Debug, Clone, Copy, PartialEq, Eq, Structural)]
pub enum Intent {
    /// Pass the key to the open text prompt.
    TextKey(KeyCode),
    /// Select the first entry (or scroll the detail view to its top).
    JumpFirst,
    /// Select the last entry.
    JumpLast,
    /// Add a character to the current view's filter and select the first
    /// entry.
    FilterPush(char),
    /// Remove the last character of the current view's filter and select
    /// the first entry.
    FilterPop,
    /// Go up one level of work items, or to the feature selector at the
    /// top.
    Back,
    /// Switch to a view, reloading it.
    SwitchTo(crate::screen::View),
    /// Show a view without reloading.
    Show(crate::screen::View),
    /// Clear the AzDo cache and fetch again.
    Refresh,
    /// Leave.
    Quit,
    MoveUp,
    MoveDown,
    ScrollUp,
    ScrollDown,
    /// Open the selected feature's session.
    OpenFeature,
    /// Open the selected task's window.
    OpenTask,
    /// Show the task selector for the selected feature.
    FeatureChildren,
    /// Show the children of the selected task.
    TaskChildren,
    /// Show the selected entry's work item in the detail view.
    Detail,
    /// Open a text prompt.
    Prompt(TextAction),
    /// Create a Copilot window in the current session.
    NewCopilotWindow,
    /// Attach to the selected dashboard session.
    Attach,
    /// Kill the selected dashboard session.
    Kill,
}

/// A printable character (not an ASCII control).
pub open spec fn printable(c: char) -> bool {
    !((c as u32) < 32 || c as u32 == 127)
}

fn is_printable(c: char) -> (b: bool)
    ensures
        b == printable(c),
{
    let code = c as u32;
    !(code < 32 || code == 127)
}

/// The intents of a key in a view once the keys that every view shares
/// are handled.
pub open spec fn view_intents(
    view: crate::screen::View,
    k: KeyPress,
    filter_empty: bool,
    stack_empty: bool,
) -> Seq<Intent> {
    match view {
        crate::screen::View::FeatureSelector => if k.ctrl && k.code == KeyCode::Char('n') {
            seq![Intent::Prompt(TextAction::CreateFreeSession)]
        } else {
            match k.code {
                KeyCode::Up | KeyCode::Char('k') => seq![Intent::MoveUp],
                KeyCode::Down | KeyCode::Char('j') => seq![Intent::MoveDown],
                KeyCode::Enter => seq![Intent::OpenFeature],
                KeyCode::Char('o') => seq![Intent::FeatureChildren],
                KeyCode::Char('d') => seq![Intent::Detail],
                KeyCode::Backspace => seq![Intent::FilterPop],
                KeyCode::Char(c) => if printable(c) {
                    seq![Intent::FilterPush(c)]
                } else {
                    seq![]
                },
                _ => seq![],
            }
        },
        crate::screen::View::TaskSelector => if k.ctrl && k.code == KeyCode::Char('n') {
            seq![Intent::NewCopilotWindow]
        } else if k.ctrl && k.code == KeyCode::Char('t') {
            seq![Intent::Prompt(TextAction::CreateNamedWindow)]
        } else {
            match k.code {
                KeyCode::Up | KeyCode::Char('k') => seq![Intent::MoveUp],
                KeyCode::Down | KeyCode::Char('j') => seq![Intent::MoveDown],
                KeyCode::Enter => seq![Intent::OpenTask],
                KeyCode::Char('d') => seq![Intent::Detail],
                KeyCode::Char('o') => seq![Intent::TaskChildren],
                KeyCode::Backspace => if filter_empty && !stack_empty {
                    seq![Intent::Back]
                } else if filter_empty {
                    seq![Intent::SwitchTo(crate::screen::View::FeatureSelector)]
                } else {
                    seq![Intent::FilterPop]
                },
                KeyCode::Char(c) => if printable(c) {
                    seq![Intent::FilterPush(c)]
                } else {
                    seq![]
                },
                _ => seq![],
            }
        },
        crate::screen::View::TaskDetail => match k.code {
            KeyCode::Up | KeyCode::Char('k') => seq![Intent::ScrollUp],
            KeyCode::Down | KeyCode::Char('j') => seq![Intent::ScrollDown],
            KeyCode::Backspace => seq![Intent::Show(crate::screen::View::TaskSelector)],
            KeyCode::Enter => seq![Intent::Show(crate::screen::View::TaskSelector), Intent::OpenTask],
            _ => seq![],
        },
        crate::screen::View::Dashboard => match k.code {
            KeyCode::Up | KeyCode::Char('k') => seq![Intent::MoveUp],
            KeyCode::Down | KeyCode::Char('j') => seq![Intent::MoveDown],
            KeyCode::Enter => seq![Intent::Attach],
            KeyCode::Char('o') => seq![Intent::SwitchTo(crate::screen::View::FeatureSelector)],
            KeyCode::Char('d') => seq![Intent::Kill],
            _ => seq![],
        },
    }
}

/// The intents of a key and whether a `g` is pending afterwards. In text
/// input every key goes to the prompt. A pending `g` followed by `g`
/// jumps to the top; followed by anything else it is first typed into the
/// filter. Then Ctrl+O goes back, `G` jumps to the bottom, `R` refreshes,
/// `g` waits for a second `g`, Esc and `q` quit; other keys depend on
/// the view.
pub open spec fn key_intents_of(
    view: crate::screen::View,
    text_input: bool,
    pending_g: bool,
    k: KeyPress,
    filter_empty: bool,
    stack_empty: bool,
) -> (Seq<Intent>, bool) {
    if text_input {
        (seq![Intent::TextKey(k.code)], false)
    } else if pending_g && k.code == KeyCode::Char('g') {
        (seq![Intent::JumpFirst], false)
    } else {
        let pre = if pending_g && (view == crate::screen::View::FeatureSelector || view
            == crate::screen::View::TaskSelector) {
            seq![Intent::FilterPush('g')]
        } else {
            seq![]
        };
        let filter_empty = filter_empty && !(pending_g && (view == crate::screen::View::FeatureSelector
            || view == crate::screen::View::TaskSelector));
        if k.ctrl && k.code == KeyCode::Char('o') {
            (
                pre + match view {
                    crate::screen::View::TaskSelector | crate::screen::View::TaskDetail => seq![
                        Intent::Back,
                    ],
                    crate::screen::View::FeatureSelector => seq![
                        Intent::SwitchTo(crate::screen::View::TaskSelector),
                    ],
                    crate::screen::View::Dashboard => seq![
                        Intent::SwitchTo(crate::screen::View::FeatureSelector),
                    ],
                },
                false,
            )
        } else if k.code == KeyCode::Char('G') {
            (pre + seq![Intent::JumpLast], false)
        } else if k.code == KeyCode::Char('R') {
            (pre + seq![Intent::Refresh], false)
        } else if k.code == KeyCode::Char('g') {
            (pre, true)
        } else if k.code == KeyCode::Esc || k.code == KeyCode::Char('q') {
            (pre + seq![Intent::Quit], false)
        } else {
            (pre + view_intents(view, k, filter_empty, stack_empty), false)
        }
    }
}

fn view_intents_exec(view: crate::screen::View, k: KeyPress, filter_empty: bool, stack_empty: bool) -> (r:
    Vec<Intent>)
    ensures
        r@ == view_intents(view, k, filter_empty, stack_empty),
{
    let mut r: Vec<Intent> = Vec::new();
    match view {
        crate::screen::View::FeatureSelector => {
            if k.ctrl && k.code == KeyCode::Char('n') {
                r.push(Intent::Prompt(TextAction::CreateFreeSession));
            } else {
                match k.code {
                    KeyCode::Up | KeyCode::Char('k') => r.push(Intent::MoveUp),
                    KeyCode::Down | KeyCode::Char('j') => r.push(Intent::MoveDown),
                    KeyCode::Enter => r.push(Intent::OpenFeature),
                    KeyCode::Char('o') => r.push(Intent::FeatureChildren),
                    KeyCode::Char('d') => r.push(Intent::Detail),
                    KeyCode::Backspace => r.push(Intent::FilterPop),
                    KeyCode::Char(c) => if is_printable(c) {
                        r.push(Intent::FilterPush(c));
                    },
                    _ => {},
                }
            }
        },
        crate::screen::View::TaskSelector => {
            if k.ctrl && k.code == KeyCode::Char('n') {
                r.push(Intent::NewCopilotWindow);
            } else if k.ctrl && k.code == KeyCode::Char('t') {
                r.push(Intent::Prompt(TextAction::CreateNamedWindow));
            } else {
                match k.code {
                    KeyCode::Up | KeyCode::Char('k') => r.push(Intent::MoveUp),
                    KeyCode::Down | KeyCode::Char('j') => r.push(Intent::MoveDown),
                    KeyCode::Enter => r.push(Intent::OpenTask),
                    KeyCode::Char('d') => r.push(Intent::Detail),
                    KeyCode::Char('o') => r.push(Intent::TaskChildren),
                    KeyCode::Backspace => {
                        if filter_empty && !stack_empty {
                            r.push(Intent::Back);
                        } else if filter_empty {
                            r.push(Intent::SwitchTo(crate::screen::View::FeatureSelector));
                        } else {
                            r.push(Intent::FilterPop);
                        }
                    },
                    KeyCode::Char(c) => if is_printable(c) {
                        r.push(Intent::FilterPush(c));
                    },
                    _ => {},
                }
            }
        },
        crate::screen::View::TaskDetail => {
            match k.code {
                KeyCode::Up | KeyCode::Char('k') => r.push(Intent::ScrollUp),
                KeyCode::Down | KeyCode::Char('j') => r.push(Intent::ScrollDown),
                KeyCode::Backspace => r.push(Intent::Show(crate::screen::View::TaskSelector)),
                KeyCode::Enter => {
                    r.push(Intent::Show(crate::screen::View::TaskSelector));
                    r.push(Intent::OpenTask);
                },
                _ => {},
            }
        },
        crate::screen::View::Dashboard => {
            match k.code {
                KeyCode::Up | KeyCode::Char('k') => r.push(Intent::MoveUp),
                KeyCode::Down | KeyCode::Char('j') => r.push(Intent::MoveDown),
                KeyCode::Enter => r.push(Intent::Attach),
                KeyCode::Char('o') => r.push(Intent::SwitchTo(crate::screen::View::FeatureSelector)),
                KeyCode::Char('d') => r.push(Intent::Kill),
                _ => {},
            }
        },
    }
    assert(r@ =~= view_intents(view, k, filter_empty, stack_empty));
    r
}

/// The intents of a key press and whether a `g` is pending afterwards.
pub fn key_intents(
    view: crate::screen::View,
    text_input: bool,
    pending_g: bool,
    k: KeyPress,
    filter_empty: bool,
    stack_empty: bool,
) -> (r: (Vec<Intent>, bool))
    ensures
        (r.0@, r.1) == key_intents_of(view, text_input, pending_g, k, filter_empty, stack_empty),
{
    let mut r: Vec<Intent> = Vec::new();
    if text_input {
        r.push(Intent::TextKey(k.code));
        assert(r@ =~= seq![Intent::TextKey(k.code)]);
        return (r, false);
    }
    if pending_g && k.code == KeyCode::Char('g') {
        r.push(Intent::JumpFirst);
        assert(r@ =~= seq![Intent::JumpFirst]);
        return (r, false);
    }
    let in_list = view == crate::screen::View::FeatureSelector || view == crate::screen::View::TaskSelector;
    if pending_g && in_list {
        r.push(Intent::FilterPush('g'));
    }
    let fe = filter_empty && !(pending_g && in_list);
    let ghost pre = r@;
    assert(pre =~= (if pending_g && in_list {
        seq![Intent::FilterPush('g')]
    } else {
        seq![]
    }));
    if k.ctrl && k.code == KeyCode::Char('o') {
        match view {
            crate::screen::View::TaskSelector | crate::screen::View::TaskDetail => r.push(Intent::Back),
            crate::screen::View::FeatureSelector => r.push(
                Intent::SwitchTo(crate::screen::View::TaskSelector),
            ),
            crate::screen::View::Dashboard => r.push(
                Intent::SwitchTo(crate::screen::View::FeatureSelector),
            ),
        }
        assert(r@ =~= key_intents_of(view, text_input, pending_g, k, filter_empty, stack_empty).0);
        return (r, false);
    }
    if k.code == KeyCode::Char('G') {
        r.push(Intent::JumpLast);
        assert(r@ =~= pre + seq![Intent::JumpLast]);
        return (r, false);
    }
    if k.code == KeyCode::Char('R') {
        r.push(Intent::Refresh);
        assert(r@ =~= pre + seq![Intent::Refresh]);
        return (r, false);
    }
    if k.code == KeyCode::Char('g') {
        return (r, true);
    }
    if k.code == KeyCode::Esc || k.code == KeyCode::Char('q') {
        r.push(Intent::Quit);
        assert(r@ =~= pre + seq![Intent::Quit]);
        return (r, false);
    }
    let rest = view_intents_exec(view, k, fe, stack_empty);
    let mut i: usize = 0;
    while i < rest.len()
        invariant
            i <= rest@.len(),
            r@ == pre + rest@.take(i as int),
        decreases rest@.len() - i,
    {
        r.push(rest[i]);
        i = i + 1;
        assert(r@ =~= pre + rest@.take(i as int));
    }
    assert(rest@.take(i as int) =~= rest@);
    (r, false)
}

// ─── Text prompts ────────────────────────────────────────────────

/// What a key does to an open text prompt.
#[derive(Debug, Clone, PartialEq, Eq)]
pub enum TextOutcome {
    /// Keep editing, with this text.
    Editing,
    /// Close the prompt; create with the trimmed text when it is not
    /// empty.
    Submit(Option<String>),
    /// Close the prompt without creating.
    Cancel,
}

/// Handles a key of a text prompt: Enter submits the trimmed text (none
/// when it is empty) and clears it, Esc cancels and clears it, Backspace
/// removes the last character, a character is added.
pub fn text_key(buffer: &mut Vec<char>, code: KeyCode) -> (r: TextOutcome)
    ensures
        code == KeyCode::Enter ==> final(buffer)@.len() == 0 && match r {
            TextOutcome::Submit(Some(s)) => trim(old(buffer)@).len() > 0 && s@ == trim(old(buffer)@),
            TextOutcome::Submit(None) => trim(old(buffer)@).len() == 0,
            _ => false,
        },
        code == KeyCode::Esc ==> final(buffer)@.len() == 0 && r == TextOutcome::Cancel,
        code == KeyCode::Backspace ==> r == TextOutcome::Editing && final(buffer)@ == (if old(
            buffer,
        )@.len() > 0 {
            old(buffer)@.drop_last()
        } else {
            old(buffer)@
        }),
        code matches KeyCode::Char(c) ==> r == TextOutcome::Editing && final(buffer)@ == old(
            buffer,
        )@.push(c),
        code == KeyCode::Up || code == KeyCode::Down || code == KeyCode::Other ==> r
            == TextOutcome::Editing && final(buffer)@ == old(buffer)@,
{
    match code {
        KeyCode::Enter => {
            let t = trim_chars(buffer);
            buffer.clear();
            if t.len() > 0 {
                TextOutcome::Submit(Some(string_from(&t)))
            } else {
                TextOutcome::Submit(None)
            }
        },
        KeyCode::Esc => {
            buffer.clear();
            TextOutcome::Cancel
        },
        KeyCode::Backspace => {
            if buffer.len() > 0 {
                buffer.pop();
            }
            TextOutcome::Editing
        },
        KeyCode::Char(c) => {
            buffer.push(c);
            TextOutcome::Editing
        },
        _ => TextOutcome::Editing,
    }
}

// ─── Demo animation ──────────────────────────────────────────────

/// A synthetic step of the demo animation.
#[derive(Debug, Clone, Copy, PartialEq, Eq, Structural)]
pub enum Nudge {
    Down,
    Up,
    Quit,
}

/// The demo script: when (in milliseconds after start) each step is due,
/// and what it does: wait, five moves down, three up, then quit.
pub open spec fn script_at(i: nat) -> (u64, Option<Nudge>) {
    if i == 0 {
        (1000, None)
    } else if i == 1 {
        (1350, Some(Nudge::Down))
    } else if i == 2 {
        (1700, Some(Nudge::Down))
    } else if i == 3 {
        (2050, Some(Nudge::Down))
    } else if i == 4 {
        (2400, Some(Nudge::Down))
    } else if i == 5 {
        (2750, Some(Nudge::Down))
    } else if i == 6 {
        (3100, Some(Nudge::Up))
    } else if i == 7 {
        (3450, Some(Nudge::Up))
    } else if i == 8 {
        (3800, Some(Nudge::Up))
    } else {
        (5300, Some(Nudge::Quit))
    }
}

fn script_step(i: usize) -> (r: (u64, Option<Nudge>))
    requires
        i < 10,
    ensures
        r == script_at(i as nat),
{
    if i == 0 {
        (1000, None)
    } else if i == 1 {
        (1350, Some(Nudge::Down))
    } else if i == 2 {
        (1700, Some(Nudge::Down))
    } else if i == 3 {
        (2050, Some(Nudge::Down))
    } else if i == 4 {
        (2400, Some(Nudge::Down))
    } else if i == 5 {
        (2750, Some(Nudge::Down))
    } else if i == 6 {
        (3100, Some(Nudge::Up))
    } else if i == 7 {
        (3450, Some(Nudge::Up))
    } else if i == 8 {
        (3800, Some(Nudge::Up))
    } else {
        (5300, Some(Nudge::Quit))
    }
}

/// The nudges of the script steps `from..to`, in order.
pub open spec fn nudges(from: nat, to: nat) -> Seq<Nudge>
    decreases to - from,
{
    if to <= from {
        seq![]
    } else {
        let init = nudges(from, (to - 1) as nat);
        match script_at((to - 1) as nat).1 {
            Some(n) => init.push(n),
            None => init,
        }
    }
}

/// The whole demo script moves down five times, up three times, then
/// quits, the last step being due at 5.3 s.
pub proof fn lemma_demo_script()
    ensures
        nudges(0, 10) == seq![
            Nudge::Down,
            Nudge::Down,
            Nudge::Down,
            Nudge::Down,
            Nudge::Down,
            Nudge::Up,
            Nudge::Up,
            Nudge::Up,
            Nudge::Quit,
        ],
        forall|i: nat| i < 10 ==> script_at(i).0 <= 5300,
{
    reveal_with_fuel(nudges, 11);
    assert(nudges(0, 10) =~= seq![
        Nudge::Down,
        Nudge::Down,
        Nudge::Down,
        Nudge::Down,
        Nudge::Down,
        Nudge::Up,
        Nudge::Up,
        Nudge::Up,
        Nudge::Quit,
    ]);
}

/// Advances the demo animation to `elapsed_ms`: every step from `step` on
/// that is due runs, in order; gives the next step and the nudges run.
pub fn demo_tick(step: usize, elapsed_ms: u64) -> (r: (usize, Vec<Nudge>))
    ensures
        step <= r.0,
        r.0 == step || r.0 <= 10,
        forall|i: nat| step <= i < r.0 ==> script_at(i).0 <= elapsed_ms,
        r.0 < 10 ==> script_at(r.0 as nat).0 > elapsed_ms,
        r.1@ == nudges(step as nat, r.0 as nat),
{
    let mut s = step;
    let mut out: Vec<Nudge> = Vec::new();
    assert(out@ =~= nudges(step as nat, step as nat));
    while s < 10 && script_step(s).0 <= elapsed_ms
        invariant
            step <= s,
            s == step || s <= 10,
            forall|i: nat| step <= i < s ==> script_at(i).0 <= elapsed_ms,
            out@ == nudges(step as nat, s as nat),
        decreases 10 - s,
    {
        match script_step(s).1 {
            Some(n) => out.push(n),
            None => {},
        }
        s = s + 1;
    }
    (s, out)
}

// ─── Small decisions ─────────────────────────────────────────────

/// The parent whose children the task selector fetches: the current
/// parent's id when drilled down, else the session's mapped work item,
/// else the current parent's id.
pub open spec fn tasks_parent_of(drilled: bool, parent: Option<WorkItem>, mapped: Option<u64>) -> Option<u64> {
    let parent_id = match parent {
        Some(w) => w.id,
        None => None,
    };
    if drilled {
        parent_id
    } else {
        match mapped {
            Some(id) => Some(id),
            None => parent_id,
        }
    }
}

/// The parent whose children the task selector fetches.
pub fn tasks_parent(drilled: bool, parent: &Option<WorkItem>, mapped: Option<u64>) -> (r: Option<u64>)
    ensures
        r == tasks_parent_of(drilled, *parent, mapped),
{
    let parent_id = match parent {
        Some(w) => w.id,
        None => None,
    };
    if drilled {
        parent_id
    } else {
        match mapped {
            Some(id) => Some(id),
            None => parent_id,
        }
    }
}

/// The cache key of a project's features.
pub open spec fn features_key_of(org: Seq<char>, project: Seq<char>) -> Seq<char> {
    "features:"@ + org + ":"@ + project
}

/// The cache key of a project's features.
pub fn features_cache_key(org: &str, project: &str) -> (s: String)
    ensures
        s@ == features_key_of(org@, project@),
{
    let mut v: Vec<char> = Vec::new();
    push_str(&mut v, "features:");
    push_str(&mut v, org);
    push_str(&mut v, ":");
    push_str(&mut v, project);
    string_from(&v)
}

/// The cache key of a work item's children.
pub open spec fn tasks_key_of(org: Seq<char>, project: Seq<char>, parent: u64) -> Seq<char> {
    "tasks:"@ + org + ":"@ + project + ":"@ + decimal(parent as nat)
}

/// The cache key of a work item's children.
pub fn tasks_cache_key(org: &str, project: &str, parent: u64) -> (s: String)
    ensures
        s@ == tasks_key_of(org@, project@, parent),
{
    let mut v: Vec<char> = Vec::new();
    push_str(&mut v, "tasks:");
    push_str(&mut v, org);
    push_str(&mut v, ":");
    push_str(&mut v, project);
    push_str(&mut v, ":");
    push_decimal(&mut v, parent);
    string_from(&v)
}

/// The feature selection kept when coming back to the feature selector:
/// the previous row if it is still an entry, else the one loaded.
pub fn restored_selection(rows: &Vec<Option<usize>>, previous: Option<usize>, loaded: Option<usize>) -> (r:
    Option<usize>)
    ensures
        r == match previous {
            Some(p) => if selectable(rows@, p as int) {
                Some(p)
            } else {
                loaded
            },
            None => loaded,
        },
{
    match previous {
        Some(p) => if p < rows.len() && rows[p].is_some() {
            Some(p)
        } else {
            loaded
        },
        None => loaded,
    }
}

/// What a key does in the watcher manager.
#[derive(Debug, Clone, Copy, PartialEq, Eq, Structural)]
pub enum ManagerAction {
    Quit,
    Up,
    Down,
    /// Stop the selected watcher.
    Stop,
    /// Mark every watcher whose process is gone dead.
    Cleanup,
    /// Stop the selected watcher if it runs, and delete it.
    Delete,
    /// Restart the selected watcher.
    Restart,
    /// Reload the list.
    Refresh,
    Nothing,
}

/// The watcher manager's keys: `q`/Esc quit, `k`/↑ and `j`/↓ move,
/// `x`/`s` stop, `X` clean up, `d` delete, `R` restart, `r` refresh.
pub open spec fn manager_action_of(code: KeyCode) -> ManagerAction {
    match code {
        KeyCode::Esc | KeyCode::Char('q') => ManagerAction::Quit,
        KeyCode::Up | KeyCode::Char('k') => ManagerAction::Up,
        KeyCode::Down | KeyCode::Char('j') => ManagerAction::Down,
        KeyCode::Char('x') | KeyCode::Char('s') => ManagerAction::Stop,
        KeyCode::Char('X') => ManagerAction::Cleanup,
        KeyCode::Char('d') => ManagerAction::Delete,
        KeyCode::Char('R') => ManagerAction::Restart,
        KeyCode::Char('r') => ManagerAction::Refresh,
        _ => ManagerAction::Nothing,
    }
}

/// What a key does in the watcher manager.
pub fn manager_key(code: KeyCode) -> (a: ManagerAction)
    ensures
        a == manager_action_of(code),
{
    match code {
        KeyCode::Esc | KeyCode::Char('q') => ManagerAction::Quit,
        KeyCode::Up | KeyCode::Char('k') => ManagerAction::Up,
        KeyCode::Down | KeyCode::Char('j') => ManagerAction::Down,
        KeyCode::Char('x') | KeyCode::Char('s') => ManagerAction::Stop,
        KeyCode::Char('X') => ManagerAction::Cleanup,
        KeyCode::Char('d') => ManagerAction::Delete,
        KeyCode::Char('R') => ManagerAction::Restart,
        KeyCode::Char('r') => ManagerAction::Refresh,
        _ => ManagerAction::Nothing,
    }
}

/// What a key does in the notification center.
#[derive(Debug, Clone, Copy, PartialEq, Eq, Structural)]
pub enum CenterAction {
    Quit,
    Up,
    Down,
    /// Mark the selected notification read.
    Read,
    /// Mark every notification read.
    ReadAll,
    /// Delete the selected notification.
    Delete,
    /// Open the selected notification's link.
    Open,
    Nothing,
}

/// The notification center's keys: `q`/Esc quit, `k`/↑ and `j`/↓ move,
/// `d` read, `D` read all, `x` delete, Enter open the link.
pub open spec fn center_action_of(code: KeyCode) -> CenterAction {
    match code {
        KeyCode::Esc | KeyCode::Char('q') => CenterAction::Quit,
        KeyCode::Up | KeyCode::Char('k') => CenterAction::Up,
        KeyCode::Down | KeyCode::Char('j') => CenterAction::Down,
        KeyCode::Char('d') => CenterAction::Read,
        KeyCode::Char('D') => CenterAction::ReadAll,
        KeyCode::Char('x') => CenterAction::Delete,
        KeyCode::Enter => CenterAction::Open,
        _ => CenterAction::Nothing,
    }
}

/// What a key does in the notification center.
pub fn center_key(code: KeyCode) -> (a: CenterAction)
    ensures
        a == center_action_of(code),
{
    match code {
        KeyCode::Esc | KeyCode::Char('q') => CenterAction::Quit,
        KeyCode::Up | KeyCode::Char('k') => CenterAction::Up,
        KeyCode::Down | KeyCode::Char('j') => CenterAction::Down,
        KeyCode::Char('d') => CenterAction::Read,
        KeyCode::Char('D') => CenterAction::ReadAll,
        KeyCode::Char('x') => CenterAction::Delete,
        KeyCode::Enter => CenterAction::Open,
        _ => CenterAction::Nothing,
    }
}

} // verus!
