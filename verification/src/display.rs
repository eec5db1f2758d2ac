//! What the selector screens show: the texts and tones of each row,
//! badge and title line, drawn by the terminal front end.
use vstd::prelude::*;
use vstd::string::StringSliceAdditionalSpecFns;
use vstd::utf8::{decode_utf8, encode_utf8, encode_utf8_decode_utf8};

use crate::config::{type_icon, type_label, WorkItem};
use crate::entries::{DashboardEntry, FeatureEntry, FeatureGroup, TaskEntry, TaskGroup};
use crate::html::{plain_text, strip_html};
use crate::text::{
    chars_of, decimal, join, lines, lines_of, push_chars, push_decimal, push_str, str_eq,
    string_from, views,
};

verus! {

/// The colours of the Gruvbox dark palette that the screens use.
#[derive(Debug, Clone, Copy, PartialEq, Eq, Structural)]
pub enum Gruvbox {
    Bg,
    BgSoft,
    BgPopup,
    Fg,
    FgBright,
    Green,
    Orange,
    Red,
    Yellow,
    Blue,
    Purple,
    Aqua,
    Gray,
    DarkGray,
}

/// The red, green and blue components of a tone.
pub open spec fn tone_rgb(t: Gruvbox) -> (u8, u8, u8) {
    match t {
        Gruvbox::Bg => (40, 40, 40),
        Gruvbox::BgSoft => (50, 48, 47),
        Gruvbox::BgPopup => (60, 56, 54),
        Gruvbox::Fg => (168, 153, 132),
        Gruvbox::FgBright => (235, 219, 178),
        Gruvbox::Green => (184, 187, 38),
        Gruvbox::Orange => (254, 128, 25),
        Gruvbox::Red => (251, 73, 52),
        Gruvbox::Yellow => (250, 189, 47),
        Gruvbox::Blue => (131, 165, 152),
        Gruvbox::Purple => (211, 134, 155),
        Gruvbox::Aqua => (142, 192, 124),
        Gruvbox::Gray => (146, 131, 116),
        Gruvbox::DarkGray => (80, 73, 69),
    }
}

impl Gruvbox {
    /// The red, green and blue components of this tone.
    pub fn rgb(&self) -> (r: (u8, u8, u8))
        ensures
            r == tone_rgb(*self),
    {
        match self {
            Gruvbox::Bg => (40, 40, 40),
            Gruvbox::BgSoft => (50, 48, 47),
            Gruvbox::BgPopup => (60, 56, 54),
            Gruvbox::Fg => (168, 153, 132),
            Gruvbox::FgBright => (235, 219, 178),
            Gruvbox::Green => (184, 187, 38),
            Gruvbox::Orange => (254, 128, 25),
            Gruvbox::Red => (251, 73, 52),
            Gruvbox::Yellow => (250, 189, 47),
            Gruvbox::Blue => (131, 165, 152),
            Gruvbox::Purple => (211, 134, 155),
            Gruvbox::Aqua => (142, 192, 124),
            Gruvbox::Gray => (146, 131, 116),
            Gruvbox::DarkGray => (80, 73, 69),
        }
    }
}

/// A run of text with its style: a foreground tone (none for the
/// terminal's default), bold, dim.
#[derive(Debug, Clone)]
pub struct Piece {
    pub text: String,
    pub tone: Option<Gruvbox>,
    pub bold: bool,
    pub dim: bool,
}

/// A piece as plain values.
pub open spec fn pv(p: Piece) -> (Seq<char>, Option<Gruvbox>, bool, bool) {
    (p.text@, p.tone, p.bold, p.dim)
}

/// The pieces of a line as plain values.
pub open spec fn line_view(s: Seq<Piece>) -> Seq<(Seq<char>, Option<Gruvbox>, bool, bool)> {
    s.map_values(|p: Piece| pv(p))
}

/// A piece without bold or dim.
pub open spec fn plain(text: Seq<char>, tone: Option<Gruvbox>) -> (Seq<char>, Option<Gruvbox>, bool, bool) {
    (text, tone, false, false)
}

fn piece(text: &str, tone: Option<Gruvbox>) -> (p: Piece)
    ensures
        pv(p) == plain(text@, tone),
{
    Piece { text: text.to_string(), tone, bold: false, dim: false }
}

fn piece_of(text: String, tone: Option<Gruvbox>) -> (p: Piece)
    ensures
        pv(p) == plain(text@, tone),
{
    Piece { text, tone, bold: false, dim: false }
}

// ─── Truncation ──────────────────────────────────────────────────

/// `s` can be cut to `max` bytes: it fits, or byte `max - 1` starts a
/// character (else the cut would split one).
pub open spec fn can_truncate(s: Seq<char>, max: nat) -> bool {
    &&& encode_utf8(s).len() <= usize::MAX
    &&& encode_utf8(s).len() <= max || (max >= 1 && vstd::utf8::is_char_boundary(
        encode_utf8(s),
        max - 1,
    ))
}

/// `s` cut to at most `max` bytes: unchanged if it fits, else its first
/// `max - 1` bytes and an ellipsis.
pub open spec fn truncated(s: Seq<char>, max: nat) -> Seq<char> {
    if encode_utf8(s).len() <= max {
        s
    } else {
        decode_utf8(encode_utf8(s).subrange(0, max - 1)) + "…"@
    }
}

/// Cuts `s` to `max` bytes, ending in an ellipsis when it is cut.
pub fn truncate(s: &str, max: usize) -> (r: String)
    requires
        can_truncate(s@, max as nat),
    ensures
        r@ == truncated(s@, max as nat),
{
    if s.len() <= max {
        s.to_owned()
    } else {
        let (head, _tail) = s.split_at(max - 1);
        proof {
            encode_utf8_decode_utf8(head@);
            assert(head.spec_bytes() == encode_utf8(head@));
            assert(encode_utf8(head@) == encode_utf8(s@).subrange(0, max - 1));
        }
        let mut v = chars_of(head);
        push_str(&mut v, "…");
        string_from(&v)
    }
}

// ─── Badges ──────────────────────────────────────────────────────

/// The symbol and tone of an AzDo state.
pub open spec fn state_badge_of(state: Seq<char>) -> (Seq<char>, Gruvbox) {
    if state == "New"@ {
        ("○"@, Gruvbox::Blue)
    } else if state == "Active"@ {
        ("●"@, Gruvbox::Green)
    } else if state == "Resolved"@ {
        ("◉"@, Gruvbox::Aqua)
    } else if state == "Closed"@ {
        ("✔"@, Gruvbox::Gray)
    } else if state == "Removed"@ {
        ("✘"@, Gruvbox::Gray)
    } else if state.len() == 0 {
        (""@, Gruvbox::Gray)
    } else {
        ("◌"@, Gruvbox::Yellow)
    }
}

/// The (symbol, tone) for an AzDo work item state.
pub fn state_badge(state: &str) -> (r: (&'static str, Gruvbox))
    ensures
        (r.0@, r.1) == state_badge_of(state@),
{
    if str_eq(state, "New") {
        ("○", Gruvbox::Blue)
    } else if str_eq(state, "Active") {
        ("●", Gruvbox::Green)
    } else if str_eq(state, "Resolved") {
        ("◉", Gruvbox::Aqua)
    } else if str_eq(state, "Closed") {
        ("✔", Gruvbox::Gray)
    } else if str_eq(state, "Removed") {
        ("✘", Gruvbox::Gray)
    } else if state.is_empty() {
        ("", Gruvbox::Gray)
    } else {
        ("◌", Gruvbox::Yellow)
    }
}

/// The badge pieces of an optional work item: one piece with its state
/// symbol when it has a non-empty state.
pub open spec fn badge_view(w: Option<WorkItem>) -> Seq<(Seq<char>, Option<Gruvbox>, bool, bool)> {
    match w {
        Some(wi) => if wi.state@.len() > 0 {
            seq![plain(" "@ + state_badge_of(wi.state@).0, Some(state_badge_of(wi.state@).1))]
        } else {
            seq![]
        },
        None => seq![],
    }
}

fn push_badge(out: &mut Vec<Piece>, w: &Option<WorkItem>)
    ensures
        line_view(final(out)@) == line_view(old(out)@) + badge_view(*w),
{
    let ghost o = line_view(out@);
    match w {
        Some(wi) => {
            if !wi.state.as_str().is_empty() {
                let (sym, tone) = state_badge(wi.state.as_str());
                let mut v: Vec<char> = Vec::new();
                push_str(&mut v, " ");
                push_str(&mut v, sym);
                out.push(piece_of(string_from(&v), Some(tone)));
                assert(line_view(out@) =~= o + badge_view(*w));
            } else {
                assert(line_view(out@) =~= o + badge_view(*w));
            }
        },
        None => {
            assert(line_view(out@) =~= o + badge_view(*w));
        },
    }
}

/// The state legend of the footer, with the type icons when asked.
pub open spec fn state_legend_view(show_types: bool) -> Seq<(Seq<char>, Option<Gruvbox>, bool, bool)> {
    let states = seq![
        plain("○"@, Some(Gruvbox::Blue)),
        plain("new "@, Some(Gruvbox::Gray)),
        plain("●"@, Some(Gruvbox::Green)),
        plain("act "@, Some(Gruvbox::Gray)),
        plain("◉"@, Some(Gruvbox::Aqua)),
        plain("res "@, Some(Gruvbox::Gray)),
        plain("✔"@, Some(Gruvbox::Gray)),
        plain("cls"@, Some(Gruvbox::Gray)),
    ];
    let types = if show_types {
        seq![
            plain(" │ "@, Some(Gruvbox::DarkGray)),
            plain("📖"@, None),
            plain("story "@, Some(Gruvbox::Gray)),
            plain("🐛"@, None),
            plain("bug "@, Some(Gruvbox::Gray)),
            plain("✅"@, None),
            plain("task"@, Some(Gruvbox::Gray)),
        ]
    } else {
        seq![]
    };
    states + types + seq![
        plain(" │ "@, Some(Gruvbox::DarkGray)),
        plain("⊕"@, Some(Gruvbox::Green)),
        plain("azdo"@, Some(Gruvbox::Gray)),
    ]
}

/// Legend pieces for the state symbols (optionally with type icons).
pub fn state_legend(show_types: bool) -> (r: Vec<Piece>)
    ensures
        line_view(r@) == state_legend_view(show_types),
{
    let mut r: Vec<Piece> = Vec::new();
    r.push(piece("○", Some(Gruvbox::Blue)));
    r.push(piece("new ", Some(Gruvbox::Gray)));
    r.push(piece("●", Some(Gruvbox::Green)));
    r.push(piece("act ", Some(Gruvbox::Gray)));
    r.push(piece("◉", Some(Gruvbox::Aqua)));
    r.push(piece("res ", Some(Gruvbox::Gray)));
    r.push(piece("✔", Some(Gruvbox::Gray)));
    r.push(piece("cls", Some(Gruvbox::Gray)));
    if show_types {
        r.push(piece(" │ ", Some(Gruvbox::DarkGray)));
        r.push(piece("📖", None));
        r.push(piece("story ", Some(Gruvbox::Gray)));
        r.push(piece("🐛", None));
        r.push(piece("bug ", Some(Gruvbox::Gray)));
        r.push(piece("✅", None));
        r.push(piece("task", Some(Gruvbox::Gray)));
    }
    r.push(piece(" │ ", Some(Gruvbox::DarkGray)));
    r.push(piece("⊕", Some(Gruvbox::Green)));
    r.push(piece("azdo", Some(Gruvbox::Gray)));
    assert(line_view(r@) =~= state_legend_view(show_types));
    r
}

/// The gap between the shortcuts and the legend of a footer `width`
/// columns wide: what is left but one column, at least one.
pub open spec fn footer_gap_of(help: nat, legend: nat, width: nat) -> nat {
    if width > help + legend + 1 {
        (width - help - legend - 1) as nat
    } else {
        1
    }
}

/// The number of spaces between a footer's shortcuts and its legend.
pub fn footer_gap(help: usize, legend: usize, width: usize) -> (r: usize)
    requires
        help + legend + 1 <= usize::MAX,
    ensures
        r == footer_gap_of(help as nat, legend as nat, width as nat),
{
    let total = help + legend;
    if width > total + 1 {
        width - total - 1
    } else {
        1
    }
}

// ─── Feature and task rows ───────────────────────────────────────

/// The section header of a feature group.
pub open spec fn feature_header_of(g: FeatureGroup) -> Seq<char> {
    match g {
        FeatureGroup::Linked => "  ─── Active ───"@,
        FeatureGroup::AzdoOnly => "  ─── AzDo ───"@,
        FeatureGroup::Free => "  ─── Free ───"@,
    }
}

/// The section header of a feature group.
pub fn feature_header(g: FeatureGroup) -> (s: &'static str)
    ensures
        s@ == feature_header_of(g),
{
    match g {
        FeatureGroup::Linked => "  ─── Active ───",
        FeatureGroup::AzdoOnly => "  ─── AzDo ───",
        FeatureGroup::Free => "  ─── Free ───",
    }
}

/// The section header of a task group.
pub open spec fn task_header_of(g: TaskGroup) -> Seq<char> {
    match g {
        TaskGroup::Bug => "  ─── Bugs ───"@,
        TaskGroup::UserStory => "  ─── User Stories ───"@,
        TaskGroup::Task => "  ─── Tasks ───"@,
        TaskGroup::Free => "  ─── Free ───"@,
    }
}

/// The section header of a task group.
pub fn task_header(g: TaskGroup) -> (s: &'static str)
    ensures
        s@ == task_header_of(g),
{
    match g {
        TaskGroup::Bug => "  ─── Bugs ───",
        TaskGroup::UserStory => "  ─── User Stories ───",
        TaskGroup::Task => "  ─── Tasks ───",
        TaskGroup::Free => "  ─── Free ───",
    }
}

/// ` #id` for an entry's work item with an id, else nothing.
pub open spec fn id_tag(w: Option<WorkItem>) -> Seq<char> {
    match w {
        Some(wi) => match wi.id {
            Some(id) => " #"@ + decimal(id as nat),
            None => seq![],
        },
        None => seq![],
    }
}

/// The detail text of a feature row: id and window count for linked
/// sessions, a "new" mark for AzDo-only features, the window count for
/// free sessions.
pub open spec fn feature_detail(f: FeatureEntry) -> Seq<char> {
    match f.group {
        FeatureGroup::Linked => id_tag(f.work_item) + "  "@ + decimal(f.window_count as nat) + "w"@,
        FeatureGroup::AzdoOnly => " ⊕ new"@,
        FeatureGroup::Free => decimal(f.window_count as nat) + "w"@,
    }
}

/// The pieces of a feature row.
pub open spec fn feature_row_view(f: FeatureEntry) -> Seq<(Seq<char>, Option<Gruvbox>, bool, bool)> {
    let (icon, tone) = match f.group {
        FeatureGroup::Linked => ("🏗"@, Gruvbox::Green),
        FeatureGroup::AzdoOnly => ("🏗"@, Gruvbox::Gray),
        FeatureGroup::Free => ("📂"@, Gruvbox::Fg),
    };
    let detail_tone = match f.group {
        FeatureGroup::AzdoOnly => Gruvbox::Green,
        _ => Gruvbox::Gray,
    };
    seq![
        plain("  "@, None),
        plain(icon + " "@, Some(tone)),
        plain(f.name@, Some(tone)),
        plain("  "@ + feature_detail(f), Some(detail_tone)),
    ] + badge_view(f.work_item)
}

/// The pieces of the row for a feature.
pub fn feature_row(f: &FeatureEntry) -> (r: Vec<Piece>)
    requires
        f.window_count <= u64::MAX,
    ensures
        line_view(r@) == feature_row_view(*f),
{
    let (icon, tone) = match f.group {
        FeatureGroup::Linked => ("🏗", Gruvbox::Green),
        FeatureGroup::AzdoOnly => ("🏗", Gruvbox::Gray),
        FeatureGroup::Free => ("📂", Gruvbox::Fg),
    };
    let detail_tone = match f.group {
        FeatureGroup::AzdoOnly => Gruvbox::Green,
        _ => Gruvbox::Gray,
    };
    let mut d: Vec<char> = Vec::new();
    push_str(&mut d, "  ");
    match f.group {
        FeatureGroup::Linked => {
            match &f.work_item {
                Some(wi) => match wi.id {
                    Some(id) => {
                        push_str(&mut d, " #");
                        push_decimal(&mut d, id);
                    },
                    None => {},
                },
                None => {},
            }
            push_str(&mut d, "  ");
            push_decimal(&mut d, f.window_count as u64);
            push_str(&mut d, "w");
        },
        FeatureGroup::AzdoOnly => {
            push_str(&mut d, " ⊕ new");
        },
        FeatureGroup::Free => {
            push_decimal(&mut d, f.window_count as u64);
            push_str(&mut d, "w");
        },
    }
    assert(d@ =~= "  "@ + feature_detail(*f));
    let mut ic: Vec<char> = Vec::new();
    push_str(&mut ic, icon);
    push_str(&mut ic, " ");
    let mut r: Vec<Piece> = Vec::new();
    r.push(piece("  ", None));
    r.push(piece_of(string_from(&ic), Some(tone)));
    r.push(piece_of(f.name.clone(), Some(tone)));
    r.push(piece_of(string_from(&d), Some(detail_tone)));
    let ghost before = line_view(r@);
    assert(before =~= seq![
        plain("  "@, None),
        plain(icon@ + " "@, Some(tone)),
        plain(f.name@, Some(tone)),
        plain("  "@ + feature_detail(*f), Some(detail_tone)),
    ]);
    push_badge(&mut r, &f.work_item);
    r
}

/// The icon of a task group.
pub open spec fn task_icon_of(g: TaskGroup) -> Seq<char> {
    match g {
        TaskGroup::Bug => "🐛"@,
        TaskGroup::UserStory => "📖"@,
        TaskGroup::Task => "✅"@,
        TaskGroup::Free => "💻"@,
    }
}

/// The tone of a task row: by group for an existing window, gray for an
/// AzDo item without one.
pub open spec fn task_tone_of(t: TaskEntry) -> Gruvbox {
    if t.window_exists {
        match t.group {
            TaskGroup::Bug => Gruvbox::Yellow,
            TaskGroup::UserStory => Gruvbox::Blue,
            TaskGroup::Task => Gruvbox::Aqua,
            TaskGroup::Free => Gruvbox::Fg,
        }
    } else {
        Gruvbox::Gray
    }
}

/// The pieces of a task row.
pub open spec fn task_row_view(t: TaskEntry) -> Seq<(Seq<char>, Option<Gruvbox>, bool, bool)> {
    seq![
        plain("  "@, None),
        plain(task_icon_of(t.group) + " "@, Some(task_tone_of(t))),
        plain(t.name@, Some(task_tone_of(t))),
        plain(if t.window_exists { seq![] } else { " ⊕ new"@ }, Some(Gruvbox::Green)),
    ] + badge_view(t.work_item)
}

/// The pieces of the row for a task.
pub fn task_row(t: &TaskEntry) -> (r: Vec<Piece>)
    ensures
        line_view(r@) == task_row_view(*t),
{
    let icon = match t.group {
        TaskGroup::Bug => "🐛",
        TaskGroup::UserStory => "📖",
        TaskGroup::Task => "✅",
        TaskGroup::Free => "💻",
    };
    let tone = if t.window_exists {
        match t.group {
            TaskGroup::Bug => Gruvbox::Yellow,
            TaskGroup::UserStory => Gruvbox::Blue,
            TaskGroup::Task => Gruvbox::Aqua,
            TaskGroup::Free => Gruvbox::Fg,
        }
    } else {
        Gruvbox::Gray
    };
    let suffix = if t.window_exists { "" } else { " ⊕ new" };
    proof {
        reveal_strlit("");
        assert(""@ =~= Seq::<char>::empty());
    }
    let mut ic: Vec<char> = Vec::new();
    push_str(&mut ic, icon);
    push_str(&mut ic, " ");
    let mut r: Vec<Piece> = Vec::new();
    r.push(piece("  ", None));
    r.push(piece_of(string_from(&ic), Some(tone)));
    r.push(piece_of(t.name.clone(), Some(tone)));
    r.push(piece(suffix, Some(Gruvbox::Green)));
    assert(line_view(r@) =~= seq![
        plain("  "@, None),
        plain(task_icon_of(t.group) + " "@, Some(task_tone_of(*t))),
        plain(t.name@, Some(task_tone_of(*t))),
        plain(if t.window_exists { seq![] } else { " ⊕ new"@ }, Some(Gruvbox::Green)),
    ]);
    push_badge(&mut r, &t.work_item);
    r
}

/// The filter line: a placeholder when the filter is empty, else the
/// filter in bold.
pub open spec fn search_line_view(filter: Seq<char>) -> Seq<(Seq<char>, Option<Gruvbox>, bool, bool)> {
    if filter.len() == 0 {
        seq![plain("  / "@, Some(Gruvbox::Gray)), plain("filter..."@, Some(Gruvbox::Fg))]
    } else {
        seq![plain("  / "@, Some(Gruvbox::Orange)), (filter, Some(Gruvbox::FgBright), true, false)]
    }
}

/// The pieces of the filter line.
pub fn search_line(filter: &str) -> (r: Vec<Piece>)
    ensures
        line_view(r@) == search_line_view(filter@),
{
    let mut r: Vec<Piece> = Vec::new();
    if filter.is_empty() {
        r.push(piece("  / ", Some(Gruvbox::Gray)));
        r.push(piece("filter...", Some(Gruvbox::Fg)));
    } else {
        r.push(piece("  / ", Some(Gruvbox::Orange)));
        r.push(Piece { text: filter.to_string(), tone: Some(Gruvbox::FgBright), bold: true, dim: false });
    }
    assert(line_view(r@) =~= search_line_view(filter@));
    r
}

/// The title line of the task selector: the session name, and the parent
/// work item when the list shows the children of a child.
pub open spec fn task_title_view(session: Option<Seq<char>>, parent: Option<WorkItem>, depth: nat) -> Seq<
    (Seq<char>, Option<Gruvbox>, bool, bool),
> {
    let name = match session {
        Some(s) => s,
        None => "Unknown"@,
    };
    let head = seq![plain("  "@, None), (name, Some(Gruvbox::Orange), true, false)];
    match parent {
        Some(wi) => if depth > 0 {
            head.push(
                plain(
                    match wi.id {
                        Some(id) => "  ▸ #"@ + decimal(id as nat) + " "@ + wi.title@,
                        None => "  ▸ "@ + wi.title@,
                    },
                    Some(Gruvbox::Aqua),
                ),
            )
        } else {
            head
        },
        None => head,
    }
}

/// The pieces of the task selector's title line.
pub fn task_title(session: &Option<String>, parent: &Option<WorkItem>, depth: usize) -> (r: Vec<Piece>)
    ensures
        line_view(r@) == task_title_view(
            match session {
                Some(s) => Some(s@),
                None => None,
            },
            *parent,
            depth as nat,
        ),
{
    let name = match session {
        Some(s) => s.clone(),
        None => "Unknown".to_string(),
    };
    let mut r: Vec<Piece> = Vec::new();
    r.push(piece("  ", None));
    r.push(Piece { text: name, tone: Some(Gruvbox::Orange), bold: true, dim: false });
    match parent {
        Some(wi) => {
            if depth > 0 {
                let mut v: Vec<char> = Vec::new();
                match wi.id {
                    Some(id) => {
                        push_str(&mut v, "  ▸ #");
                        push_decimal(&mut v, id);
                        push_str(&mut v, " ");
                    },
                    None => {
                        push_str(&mut v, "  ▸ ");
                    },
                }
                push_str(&mut v, wi.title.as_str());
                r.push(piece_of(string_from(&v), Some(Gruvbox::Aqua)));
            }
        },
        None => {},
    }
    assert(line_view(r@) =~= task_title_view(
        match session {
            Some(s) => Some(s@),
            None => None,
        },
        *parent,
        depth as nat,
    ));
    r
}

/// The status line: a spinner frame while loading (else a warning sign)
/// and the message.
pub open spec fn status_text(loading: bool, tick: nat, msg: Seq<char>) -> Seq<char> {
    "  "@ + (if loading { spinner_frame(tick % 10) } else { "⚠"@ }) + " "@ + msg
}

/// The frames of the loading spinner.
pub open spec fn spinner_frame(i: nat) -> Seq<char> {
    if i == 0 {
        "⠋"@
    } else if i == 1 {
        "⠙"@
    } else if i == 2 {
        "⠹"@
    } else if i == 3 {
        "⠸"@
    } else if i == 4 {
        "⠼"@
    } else if i == 5 {
        "⠴"@
    } else if i == 6 {
        "⠦"@
    } else if i == 7 {
        "⠧"@
    } else if i == 8 {
        "⠇"@
    } else {
        "⠏"@
    }
}

fn spinner(i: usize) -> (s: &'static str)
    requires
        i < 10,
    ensures
        s@ == spinner_frame(i as nat),
{
    if i == 0 {
        "⠋"
    } else if i == 1 {
        "⠙"
    } else if i == 2 {
        "⠹"
    } else if i == 3 {
        "⠸"
    } else if i == 4 {
        "⠼"
    } else if i == 5 {
        "⠴"
    } else if i == 6 {
        "⠦"
    } else if i == 7 {
        "⠧"
    } else if i == 8 {
        "⠇"
    } else {
        "⠏"
    }
}

/// The text of the status line (shown in yellow).
pub fn status_line(loading: bool, tick: usize, msg: &str) -> (r: String)
    ensures
        r@ == status_text(loading, tick as nat, msg@),
{
    let mut v: Vec<char> = Vec::new();
    push_str(&mut v, "  ");
    if loading {
        push_str(&mut v, spinner(tick % 10));
    } else {
        push_str(&mut v, "⚠");
    }
    push_str(&mut v, " ");
    push_str(&mut v, msg);
    string_from(&v)
}

// ─── Detail view ─────────────────────────────────────────────────

/// The title line of the detail view: icon, type, id, title and state.
pub open spec fn detail_title_view(wi: WorkItem) -> Seq<(Seq<char>, Option<Gruvbox>, bool, bool)> {
    seq![
        plain("  "@ + type_icon(wi.work_item_type) + " "@, None),
        plain(type_label(wi.work_item_type), Some(Gruvbox::Gray)),
        plain(
            match wi.id {
                Some(id) => " #"@ + decimal(id as nat),
                None => seq![],
            },
            Some(Gruvbox::Blue),
        ),
        (" "@ + wi.title@, Some(Gruvbox::FgBright), true, false),
        plain(" "@ + state_badge_of(wi.state@).0, Some(state_badge_of(wi.state@).1)),
    ]
}

/// The pieces of the detail view's title line.
pub fn detail_title(wi: &WorkItem) -> (r: Vec<Piece>)
    ensures
        line_view(r@) == detail_title_view(*wi),
{
    let (sym, tone) = state_badge(wi.state.as_str());
    let mut a: Vec<char> = Vec::new();
    push_str(&mut a, "  ");
    push_str(&mut a, wi.icon());
    push_str(&mut a, " ");
    let mut id: Vec<char> = Vec::new();
    match wi.id {
        Some(n) => {
            push_str(&mut id, " #");
            push_decimal(&mut id, n);
        },
        None => {},
    }
    let mut t: Vec<char> = Vec::new();
    push_str(&mut t, " ");
    push_str(&mut t, wi.title.as_str());
    let mut s: Vec<char> = Vec::new();
    push_str(&mut s, " ");
    push_str(&mut s, sym);
    let mut r: Vec<Piece> = Vec::new();
    r.push(piece_of(string_from(&a), None));
    r.push(piece_of(wi.work_item_type.to_string(), Some(Gruvbox::Gray)));
    r.push(piece_of(string_from(&id), Some(Gruvbox::Blue)));
    r.push(Piece { text: string_from(&t), tone: Some(Gruvbox::FgBright), bold: true, dim: false });
    r.push(piece_of(string_from(&s), Some(tone)));
    assert(line_view(r@) =~= detail_title_view(*wi));
    r
}

/// The lines of one section of the detail view: a heading, a rule, then
/// the text's lines indented, or the placeholder when there is no text.
pub open spec fn section_view(heading: Seq<char>, text: Option<Seq<char>>, none: Seq<char>) -> Seq<
    Seq<(Seq<char>, Option<Gruvbox>, bool, bool)>,
> {
    let head = seq![
        seq![("  "@ + heading, Some(Gruvbox::Orange), true, false)],
        seq![plain("  ─────────────────────────────────────────"@, Some(Gruvbox::DarkGray))],
    ];
    match text {
        Some(t) => head + lines_of(plain_text(t)).map_values(
            |l: Seq<char>| seq![plain("  "@ + l, Some(Gruvbox::Fg))],
        ),
        None => head + seq![seq![plain("  "@ + none, Some(Gruvbox::Gray))]],
    }
}

/// The body lines of the detail view: description, acceptance criteria
/// and, when known, who the item is assigned to.
pub open spec fn detail_lines_view(wi: WorkItem) -> Seq<Seq<(Seq<char>, Option<Gruvbox>, bool, bool)>> {
    let description = match wi.description {
        Some(d) => Some(d@),
        None => None,
    };
    let criteria = match wi.acceptance_criteria {
        Some(c) => Some(c@),
        None => None,
    };
    let body = section_view("Description"@, description, "(no description)"@) + seq![seq![]]
        + section_view("Acceptance Criteria"@, criteria, "(none)"@);
    match wi.assigned_to {
        Some(a) => body + seq![
            seq![],
            seq![plain("  Assigned: "@, Some(Gruvbox::Gray)), plain(a@, Some(Gruvbox::Fg))],
        ],
        None => body,
    }
}

/// The lines of a text block as plain values.
pub open spec fn lines_view(s: Seq<Vec<Piece>>) -> Seq<Seq<(Seq<char>, Option<Gruvbox>, bool, bool)>> {
    s.map_values(|l: Vec<Piece>| line_view(l@))
}

fn push_section(out: &mut Vec<Vec<Piece>>, heading: &str, text: &Option<String>, none: &str)
    ensures
        lines_view(final(out)@) == lines_view(old(out)@) + section_view(
            heading@,
            match text {
                Some(t) => Some(t@),
                None => None,
            },
            none@,
        ),
{
    let ghost o = lines_view(out@);
    let mut h: Vec<char> = Vec::new();
    push_str(&mut h, "  ");
    push_str(&mut h, heading);
    let mut l1: Vec<Piece> = Vec::new();
    l1.push(Piece { text: string_from(&h), tone: Some(Gruvbox::Orange), bold: true, dim: false });
    let mut l2: Vec<Piece> = Vec::new();
    l2.push(piece("  ─────────────────────────────────────────", Some(Gruvbox::DarkGray)));
    out.push(l1);
    out.push(l2);
    let ghost head = lines_view(out@);
    assert(head =~~= o + seq![
        seq![("  "@ + heading@, Some(Gruvbox::Orange), true, false)],
        seq![plain("  ─────────────────────────────────────────"@, Some(Gruvbox::DarkGray))],
    ]);
    match text {
        Some(t) => {
            let clean = strip_html(t.as_str());
            let cs = chars_of(clean.as_str());
            let ls = lines(&cs);
            let ghost lv = views(ls@);
            let ghost want = lv.map_values(|l: Seq<char>| seq![plain("  "@ + l, Some(Gruvbox::Fg))]);
            let mut i: usize = 0;
            while i < ls.len()
                invariant
                    i <= ls@.len(),
                    lv == views(ls@),
                    want == lv.map_values(|l: Seq<char>| seq![plain("  "@ + l, Some(Gruvbox::Fg))]),
                    lines_view(out@) == head + want.take(i as int),
                decreases ls@.len() - i,
            {
                let mut v: Vec<char> = Vec::new();
                push_str(&mut v, "  ");
                push_chars(&mut v, &ls[i]);
                let mut line: Vec<Piece> = Vec::new();
                line.push(piece_of(string_from(&v), Some(Gruvbox::Fg)));
                let ghost before = lines_view(out@);
                out.push(line);
                assert(lv[i as int] == ls@[i as int]@);
                assert(lines_view(out@) =~~= before.push(seq![plain("  "@ + lv[i as int], Some(Gruvbox::Fg))]));
                i = i + 1;
                assert(want.take(i as int) =~~= want.take(i - 1).push(want[i - 1]));
            }
            assert(want.take(i as int) =~~= want);
        },
        None => {
            let mut v: Vec<char> = Vec::new();
            push_str(&mut v, "  ");
            push_str(&mut v, none);
            let mut line: Vec<Piece> = Vec::new();
            line.push(piece_of(string_from(&v), Some(Gruvbox::Gray)));
            out.push(line);
            assert(lines_view(out@) =~~= head + seq![seq![plain("  "@ + none@, Some(Gruvbox::Gray))]]);
        },
    }
}

/// The body lines of the detail view for a work item.
pub fn detail_lines(wi: &WorkItem) -> (r: Vec<Vec<Piece>>)
    ensures
        lines_view(r@) == detail_lines_view(*wi),
{
    let mut r: Vec<Vec<Piece>> = Vec::new();
    push_section(&mut r, "Description", &wi.description, "(no description)");
    let ghost a = lines_view(r@);
    r.push(Vec::new());
    assert(lines_view(r@) =~~= a + seq![seq![]]);
    push_section(&mut r, "Acceptance Criteria", &wi.acceptance_criteria, "(none)");
    let ghost b = lines_view(r@);
    match &wi.assigned_to {
        Some(who) => {
            r.push(Vec::new());
            let mut l: Vec<Piece> = Vec::new();
            l.push(piece("  Assigned: ", Some(Gruvbox::Gray)));
            l.push(piece_of(who.clone(), Some(Gruvbox::Fg)));
            r.push(l);
            assert(lines_view(r@) =~~= b + seq![
                seq![],
                seq![plain("  Assigned: "@, Some(Gruvbox::Gray)), plain(who@, Some(Gruvbox::Fg))],
            ]);
        },
        None => {},
    }
    r
}

// ─── Dashboard ───────────────────────────────────────────────────

/// The tone of a dashboard session's name: green when attached, bright
/// when linked to a work item.
pub open spec fn dashboard_tone_of(e: DashboardEntry) -> Gruvbox {
    if e.attached {
        Gruvbox::Green
    } else if e.work_item_id is Some {
        Gruvbox::FgBright
    } else {
        Gruvbox::Fg
    }
}

/// The first line of a dashboard row.
pub open spec fn dashboard_head_view(e: DashboardEntry) -> Seq<(Seq<char>, Option<Gruvbox>, bool, bool)> {
    seq![
        plain("  "@ + (if e.attached { "▶"@ } else { " "@ }) + " "@, Some(Gruvbox::Green)),
        (e.session_name@, Some(dashboard_tone_of(e)), true, false),
        plain(
            match e.work_item_id {
                Some(id) => " #"@ + decimal(id as nat),
                None => seq![],
            },
            Some(Gruvbox::Blue),
        ),
        plain("  "@ + decimal(e.window_count as nat) + "w"@, Some(Gruvbox::Gray)),
    ]
}

/// The second line of a dashboard row: the first four window names.
pub open spec fn dashboard_windows_text(e: DashboardEntry) -> Seq<char> {
    let names = e.windows@.map_values(|s: String| s@);
    "      └ "@ + join(if names.len() > 4 { names.take(4) } else { names }, ", "@)
}

/// The two lines of a dashboard row: the session and its windows.
pub fn dashboard_row(e: &DashboardEntry) -> (r: (Vec<Piece>, Piece))
    requires
        e.window_count <= u64::MAX,
    ensures
        line_view(r.0@) == dashboard_head_view(*e),
        pv(r.1) == plain(dashboard_windows_text(*e), Some(Gruvbox::Gray)),
{
    let mut a: Vec<char> = Vec::new();
    push_str(&mut a, "  ");
    push_str(&mut a, if e.attached { "▶" } else { " " });
    push_str(&mut a, " ");
    let tone = if e.attached {
        Gruvbox::Green
    } else if e.work_item_id.is_some() {
        Gruvbox::FgBright
    } else {
        Gruvbox::Fg
    };
    let mut id: Vec<char> = Vec::new();
    match e.work_item_id {
        Some(n) => {
            push_str(&mut id, " #");
            push_decimal(&mut id, n);
        },
        None => {},
    }
    let mut w: Vec<char> = Vec::new();
    push_str(&mut w, "  ");
    push_decimal(&mut w, e.window_count as u64);
    push_str(&mut w, "w");
    let mut head: Vec<Piece> = Vec::new();
    head.push(piece_of(string_from(&a), Some(Gruvbox::Green)));
    head.push(Piece { text: e.session_name.clone(), tone: Some(tone), bold: true, dim: false });
    head.push(piece_of(string_from(&id), Some(Gruvbox::Blue)));
    head.push(piece_of(string_from(&w), Some(Gruvbox::Gray)));
    assert(line_view(head@) =~= dashboard_head_view(*e));
    let ghost names = e.windows@.map_values(|s: String| s@);
    let mut parts: Vec<Vec<char>> = Vec::new();
    let mut i: usize = 0;
    let n: usize = if e.windows.len() > 4 { 4 } else { e.windows.len() };
    while i < n
        invariant
            i <= n,
            n <= e.windows@.len(),
            names == e.windows@.map_values(|s: String| s@),
            views(parts@) == names.take(i as int),
        decreases n - i,
    {
        let ghost before = views(parts@);
        parts.push(chars_of(e.windows[i].as_str()));
        assert(names[i as int] == e.windows@[i as int]@);
        assert(views(parts@) =~= before.push(names[i as int]));
        assert(names.take(i + 1) =~= names.take(i as int).push(names[i as int]));
        i = i + 1;
        assert(views(parts@) =~= names.take(i as int));
    }
    let sep = chars_of(", ");
    let joined = join_chars_of(&parts, &sep);
    let mut t: Vec<char> = Vec::new();
    push_str(&mut t, "      └ ");
    push_chars(&mut t, &joined);
    assert(names.take(n as int) =~= (if names.len() > 4 { names.take(4) } else { names }));
    (head, piece_of(string_from(&t), Some(Gruvbox::Gray)))
}

fn join_chars_of(parts: &Vec<Vec<char>>, sep: &Vec<char>) -> (r: Vec<char>)
    ensures
        r@ == join(views(parts@), sep@),
{
    crate::text::join_chars(parts, sep)
}

/// The title line of the dashboard, with the number of sessions.
pub open spec fn dashboard_title_view(count: nat) -> Seq<(Seq<char>, Option<Gruvbox>, bool, bool)> {
    seq![
        plain("  📊 "@, None),
        ("Active Sessions"@, Some(Gruvbox::Orange), true, false),
        plain("  ("@ + decimal(count) + ")"@, Some(Gruvbox::Gray)),
    ]
}

/// The pieces of the dashboard's title line.
pub fn dashboard_title(count: usize) -> (r: Vec<Piece>)
    requires
        count <= u64::MAX,
    ensures
        line_view(r@) == dashboard_title_view(count as nat),
{
    let mut c: Vec<char> = Vec::new();
    push_str(&mut c, "  (");
    push_decimal(&mut c, count as u64);
    push_str(&mut c, ")");
    let mut r: Vec<Piece> = Vec::new();
    r.push(piece("  📊 ", None));
    r.push(Piece { text: "Active Sessions".to_string(), tone: Some(Gruvbox::Orange), bold: true, dim: false });
    r.push(piece_of(string_from(&c), Some(Gruvbox::Gray)));
    assert(line_view(r@) =~= dashboard_title_view(count as nat));
    r
}

} // verus!
