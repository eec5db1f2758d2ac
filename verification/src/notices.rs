//! The notification center and the notification commands: counts, the
//! tmux status segment, the JSON listing and what each row shows.
use vstd::prelude::*;

use crate::display::{line_view, plain, Piece, Gruvbox};
use crate::config::str_views;
use crate::store::Notification;
use crate::text::{chars_of, decimal, push_chars, push_decimal, push_str, replace, replace_all, str_eq, string_from};
use crate::watch_list::{can_take_bytes, prefix_bytes, take_bytes};

verus! {

/// How many notifications are unread.
pub open spec fn unread_of(ns: Seq<Notification>, n: nat) -> nat
    decreases n,
{
    if n == 0 {
        0
    } else {
        unread_of(ns, (n - 1) as nat) + if ns[n - 1].read {
            0nat
        } else {
            1nat
        }
    }
}

/// How many of the notifications are unread.
pub fn unread_count(ns: &Vec<Notification>) -> (r: usize)
    ensures
        r == unread_of(ns@, ns@.len()),
{
    let mut r: usize = 0;
    let mut i: usize = 0;
    while i < ns.len()
        invariant
            i <= ns@.len(),
            r == unread_of(ns@, i as nat),
            r <= i,
        decreases ns@.len() - i,
    {
        if !ns[i].read {
            r = r + 1;
        }
        i = i + 1;
    }
    r
}

/// A notification marked read.
pub open spec fn read_one(n: Notification) -> Notification {
    Notification { read: true, ..n }
}

/// Every notification marked read.
pub open spec fn all_read(ns: Seq<Notification>) -> Seq<Notification> {
    ns.map_values(|n: Notification| read_one(n))
}

/// Marks the notification at `i` read, as the center does on `d` or on
/// opening its link.
pub fn mark_read(ns: &mut Vec<Notification>, i: usize)
    requires
        i < old(ns)@.len(),
    ensures
        final(ns)@ == old(ns)@.update(i as int, read_one(old(ns)@[i as int])),
{
    ns[i].read = true;
}

/// Marks every notification read.
pub fn mark_all_read(ns: &mut Vec<Notification>)
    ensures
        final(ns)@ == all_read(old(ns)@),
{
    let ghost start = ns@;
    let mut i: usize = 0;
    while i < ns.len()
        invariant
            i <= ns@.len(),
            ns@.len() == start.len(),
            forall|k: int| 0 <= k < i ==> ns@[k] == read_one(#[trigger] start[k]),
            forall|k: int| i <= k < ns@.len() ==> ns@[k] == start[k],
        decreases ns@.len() - i,
    {
        ns[i].read = true;
        i = i + 1;
    }
    assert(ns@ =~= all_read(start));
}

/// Once every notification is marked read, none is unread.
pub proof fn lemma_all_read_none_unread(ns: Seq<Notification>)
    ensures
        unread_of(all_read(ns), ns.len()) == 0,
{
    lemma_all_read_prefix(ns, ns.len());
}

proof fn lemma_all_read_prefix(ns: Seq<Notification>, n: nat)
    requires
        n <= ns.len(),
    ensures
        unread_of(all_read(ns), n) == 0,
    decreases n,
{
    if n > 0 {
        lemma_all_read_prefix(ns, (n - 1) as nat);
        assert(all_read(ns)[n - 1].read);
    }
}

/// Marking one notification read lowers the unread count by one when it
/// was unread and leaves it as it was otherwise.
pub proof fn lemma_mark_read_count(ns: Seq<Notification>, i: int)
    requires
        0 <= i < ns.len(),
    ensures
        unread_of(ns.update(i, read_one(ns[i])), ns.len()) + (if ns[i].read { 0int } else { 1int })
            == unread_of(ns, ns.len()),
{
    lemma_mark_read_prefix(ns, i, ns.len());
}

proof fn lemma_mark_read_prefix(ns: Seq<Notification>, i: int, n: nat)
    requires
        0 <= i < ns.len(),
        n <= ns.len(),
    ensures
        unread_of(ns.update(i, read_one(ns[i])), n) + (if i < n && !ns[i].read { 1int } else { 0int })
            == unread_of(ns, n),
    decreases n,
{
    if n > 0 {
        lemma_mark_read_prefix(ns, i, (n - 1) as nat);
    }
}

/// The title of the notification center, with the unread count when
/// there are unread ones.
pub open spec fn notifications_title_of(unread: nat) -> Seq<char> {
    if unread > 0 {
        "🔔 Notifications  ("@ + decimal(unread) + " unread)"@
    } else {
        "🔔 Notifications"@
    }
}

/// The title of the notification center.
pub fn notifications_title(unread: usize) -> (s: String)
    ensures
        s@ == notifications_title_of(unread as nat),
{
    if unread > 0 {
        let mut v: Vec<char> = Vec::new();
        push_str(&mut v, "🔔 Notifications  (");
        push_decimal(&mut v, unread as u64);
        push_str(&mut v, " unread)");
        string_from(&v)
    } else {
        "🔔 Notifications".to_string()
    }
}

/// The icon and tone of a notification level.
pub open spec fn level_icon_of(level: Seq<char>) -> (Seq<char>, Gruvbox) {
    if level == "success"@ {
        ("✔"@, Gruvbox::Green)
    } else if level == "warn"@ {
        ("⚠"@, Gruvbox::Yellow)
    } else if level == "error"@ {
        ("✘"@, Gruvbox::Red)
    } else {
        ("ℹ"@, Gruvbox::Blue)
    }
}

/// The icon and tone of a notification level.
pub fn level_icon(level: &str) -> (r: (&'static str, Gruvbox))
    ensures
        (r.0@, r.1) == level_icon_of(level@),
{
    if str_eq(level, "success") {
        ("✔", Gruvbox::Green)
    } else if str_eq(level, "warn") {
        ("⚠", Gruvbox::Yellow)
    } else if str_eq(level, "error") {
        ("✘", Gruvbox::Red)
    } else {
        ("ℹ", Gruvbox::Blue)
    }
}

/// The pieces of a notification's row: an unread mark, the level icon,
/// the source tag, the title (dimmed once read) and when it came (the
/// first 16 bytes of its time).
pub open spec fn notification_row_view(n: Notification) -> Seq<(Seq<char>, Option<Gruvbox>, bool, bool)> {
    let (icon, tone) = level_icon_of(n.level@);
    seq![
        plain(if n.read { "  "@ } else { "• "@ }, Some(Gruvbox::Orange)),
        plain(icon + " "@, Some(tone)),
        plain(
            match n.source {
                Some(s) => "["@ + s@ + "] "@,
                None => seq![],
            },
            Some(Gruvbox::Aqua),
        ),
        plain(n.title@, Some(if n.read { Gruvbox::Gray } else { Gruvbox::FgBright })),
        plain("  "@ + take_bytes(n.created_at@, 16), Some(Gruvbox::DarkGray)),
    ]
}

fn piece_of(text: String, tone: Option<Gruvbox>) -> (p: Piece)
    ensures
        (p.text@, p.tone, p.bold, p.dim) == plain(text@, tone),
{
    Piece { text, tone, bold: false, dim: false }
}

/// The pieces of a notification's row.
pub fn notification_row(n: &Notification) -> (r: Vec<Piece>)
    requires
        can_take_bytes(n.created_at@, 16),
    ensures
        line_view(r@) == notification_row_view(*n),
{
    let (icon, tone) = level_icon(n.level.as_str());
    let mut ic: Vec<char> = Vec::new();
    push_str(&mut ic, icon);
    push_str(&mut ic, " ");
    let mut src: Vec<char> = Vec::new();
    match &n.source {
        Some(s) => {
            push_str(&mut src, "[");
            push_str(&mut src, s.as_str());
            push_str(&mut src, "] ");
        },
        None => {},
    }
    let mut t: Vec<char> = Vec::new();
    push_str(&mut t, "  ");
    let when = prefix_bytes(n.created_at.as_str(), 16);
    push_str(&mut t, when.as_str());
    let mut r: Vec<Piece> = Vec::new();
    r.push(piece_of((if n.read { "  " } else { "• " }).to_string(), Some(Gruvbox::Orange)));
    r.push(piece_of(string_from(&ic), Some(tone)));
    r.push(piece_of(string_from(&src), Some(Gruvbox::Aqua)));
    r.push(piece_of(n.title.clone(), Some(if n.read { Gruvbox::Gray } else { Gruvbox::FgBright })));
    r.push(piece_of(string_from(&t), Some(Gruvbox::DarkGray)));
    assert(line_view(r@) =~= notification_row_view(*n));
    r
}

/// The selection after deleting the selected notification `i`: the last
/// one when `i` fell off the end of a list that is not empty, else
/// unchanged.
pub open spec fn after_delete_of(len_after: nat, i: nat) -> Option<nat> {
    if i >= len_after && len_after > 0 {
        Some((len_after - 1) as nat)
    } else {
        Some(i)
    }
}

/// The selection after deleting the selected notification.
pub fn after_delete(len_after: usize, i: usize) -> (r: usize)
    ensures
        Some(r as nat) == after_delete_of(len_after as nat, i as nat),
{
    if i >= len_after && len_after > 0 {
        len_after - 1
    } else {
        i
    }
}

/// Whether a notification's link is opened in the browser: it starts
/// with "http".
pub fn opens_in_browser(link: &str) -> (b: bool)
    ensures
        b == "http"@.is_prefix_of(link@),
{
    let l = chars_of(link);
    let p = chars_of("http");
    crate::text::starts_with(&l, &p)
}

/// The unread count for the tmux status bar: a bold orange bell and the
/// count, nothing when there are none.
pub open spec fn tmux_count_of(n: int) -> Seq<char> {
    if n > 0 {
        "#[fg=colour208,bold]🔔 "@ + decimal(n as nat) + " #[default]"@
    } else {
        seq![]
    }
}

/// The unread count for the tmux status bar.
pub fn tmux_count(n: i64) -> (s: String)
    ensures
        s@ == tmux_count_of(n as int),
{
    if n > 0 {
        let mut v: Vec<char> = Vec::new();
        push_str(&mut v, "#[fg=colour208,bold]🔔 ");
        push_decimal(&mut v, n as u64);
        push_str(&mut v, " #[default]");
        string_from(&v)
    } else {
        let s = String::new();
        assert(s@ =~= Seq::<char>::empty());
        s
    }
}

/// A signed number in decimal.
pub open spec fn signed_decimal(n: int) -> Seq<char> {
    if n < 0 {
        "-"@ + decimal((-n) as nat)
    } else {
        decimal(n as nat)
    }
}

fn push_signed(v: &mut Vec<char>, n: i64)
    ensures
        final(v)@ == old(v)@ + signed_decimal(n as int),
{
    if n < 0 {
        push_str(v, "-");
        let m: u64 = if n == i64::MIN { 9223372036854775808u64 } else { (-n) as u64 };
        assert(m == -(n as int));
        push_decimal(v, m);
    } else {
        push_decimal(v, n as u64);
    }
}

/// One notification in the JSON listing; only the title has its double
/// quotes escaped.
pub open spec fn notification_json(n: Notification) -> Seq<char> {
    "{\"id\":"@ + signed_decimal(n.id as int) + ",\"level\":\""@ + n.level@ + "\",\"title\":\""@
        + replace_all(n.title@, "\""@, "\\\""@) + "\",\"source\":"@ + (match n.source {
        Some(s) => "\""@ + s@ + "\""@,
        None => "null"@,
    }) + ",\"created_at\":\""@ + n.created_at@ + "\"}"@
}

/// The unread notifications among the first `n`, in order.
pub open spec fn unread_list(ns: Seq<Notification>, n: nat) -> Seq<Notification>
    decreases n,
{
    if n == 0 {
        seq![]
    } else {
        let init = unread_list(ns, (n - 1) as nat);
        if ns[n - 1].read {
            init
        } else {
            init.push(ns[n - 1])
        }
    }
}

/// The JSON listing of notifications: an array of the unread ones.
pub open spec fn notifications_json_of(ns: Seq<Notification>) -> Seq<char> {
    let u = unread_list(ns, ns.len());
    "["@ + crate::text::join(u.map_values(|n: Notification| notification_json(n)), ","@) + "]"@
}

fn push_notification_json(v: &mut Vec<char>, n: &Notification)
    ensures
        final(v)@ == old(v)@ + notification_json(*n),
{
    let ghost o = v@;
    push_str(v, "{\"id\":");
    push_signed(v, n.id);
    push_str(v, ",\"level\":\"");
    push_str(v, n.level.as_str());
    push_str(v, "\",\"title\":\"");
    let t = chars_of(n.title.as_str());
    let q = chars_of("\"");
    let e = chars_of("\\\"");
    proof {
        reveal_strlit("\"");
    }
    assert(q@.len() > 0);
    let escaped = replace(&t, &q, &e);
    push_chars(v, &escaped);
    push_str(v, "\",\"source\":");
    match &n.source {
        Some(s) => {
            push_str(v, "\"");
            push_str(v, s.as_str());
            push_str(v, "\"");
        },
        None => {
            push_str(v, "null");
        },
    }
    push_str(v, ",\"created_at\":\"");
    push_str(v, n.created_at.as_str());
    push_str(v, "\"}");
    assert(v@ =~= o + notification_json(*n));
}

/// The JSON listing printed by `notifications --json` (without the line
/// ending).
pub fn notifications_json(ns: &Vec<Notification>) -> (s: String)
    ensures
        s@ == notifications_json_of(ns@),
{
    let mut v: Vec<char> = Vec::new();
    push_str(&mut v, "[");
    let mut i: usize = 0;
    let mut count: usize = 0;
    let ghost f = |n: Notification| notification_json(n);
    while i < ns.len()
        invariant
            i <= ns@.len(),
            count == unread_list(ns@, i as nat).len(),
            count <= i,
            f == (|n: Notification| notification_json(n)),
            v@ == "["@ + crate::text::join(unread_list(ns@, i as nat).map_values(f), ","@),
        decreases ns@.len() - i,
    {
        let ghost u0 = unread_list(ns@, i as nat).map_values(f);
        if !ns[i].read {
            if count > 0 {
                push_str(&mut v, ",");
            }
            push_notification_json(&mut v, &ns[i]);
            proof {
                crate::text::lemma_join_push(u0, ","@, notification_json(ns@[i as int]));
                assert(unread_list(ns@, (i + 1) as nat).map_values(f) =~= u0.push(
                    notification_json(ns@[i as int]),
                ));
            }
            count = count + 1;
        }
        i = i + 1;
    }
    push_str(&mut v, "]");
    string_from(&v)
}

// ─── Desktop notifications ───────────────────────────────────────

/// The desktop platforms with their own notification tool.
#[derive(Debug, Clone, Copy, PartialEq, Eq, Structural)]
pub enum Desktop {
    MacOs,
    Windows,
    Linux,
}

/// `s` with `pat` replaced by `rep`.
fn replaced(s: &str, pat: &str, rep: &str) -> (r: Vec<char>)
    requires
        pat@.len() > 0,
    ensures
        r@ == replace_all(s@, pat@, rep@),
{
    let a = chars_of(s);
    let b = chars_of(pat);
    let c = chars_of(rep);
    replace(&a, &b, &c)
}

/// The PowerShell script that shows a toast on Windows.
pub open spec fn toast_script(title: Seq<char>, body: Seq<char>) -> Seq<char> {
    "[Windows.UI.Notifications.ToastNotificationManager, Windows.UI.Notifications, ContentType = WindowsRuntime] > $null; $template = [Windows.UI.Notifications.ToastNotificationManager]::GetTemplateContent([Windows.UI.Notifications.ToastTemplateType]::ToastText02); $text = $template.GetElementsByTagName('text'); $text.Item(0).AppendChild($template.CreateTextNode('pilot: "@
        + replace_all(title, "'"@, "''"@)
        + "')) > $null; $text.Item(1).AppendChild($template.CreateTextNode('"@ + replace_all(
        body,
        "'"@,
        "''"@,
    )
        + "')) > $null; $toast = [Windows.UI.Notifications.ToastNotification]::new($template); [Windows.UI.Notifications.ToastNotificationManager]::CreateToastNotifier('pilot').Show($toast)"@
}

/// The program and arguments that show a desktop notification: an
/// AppleScript `display notification` on macOS (double quotes escaped),
/// a PowerShell toast on Windows (single quotes doubled), `notify-send`
/// elsewhere; the body is empty when there is none.
pub open spec fn native_command_of(os: Desktop, title: Seq<char>, body: Option<Seq<char>>) -> (Seq<char>, Seq<Seq<char>>) {
    let b = match body {
        Some(x) => x,
        None => seq![],
    };
    match os {
        Desktop::MacOs => (
            "osascript"@,
            seq![
                "-e"@,
                "display notification \""@ + replace_all(b, "\""@, "\\\""@)
                    + "\" with title \"pilot\" subtitle \""@ + replace_all(title, "\""@, "\\\""@)
                    + "\""@,
            ],
        ),
        Desktop::Windows => ("powershell"@, seq!["-NoProfile"@, "-Command"@, toast_script(title, b)]),
        Desktop::Linux => ("notify-send"@, seq!["--app-name=pilot"@, "pilot: "@ + title, b]),
    }
}

/// The program and arguments that show a desktop notification.
pub fn native_command(os: Desktop, title: &str, body: Option<&str>) -> (r: (String, Vec<String>))
    ensures
        (r.0@, str_views(r.1@)) == native_command_of(
            os,
            title@,
            match body {
                Some(x) => Some(x@),
                None => None,
            },
        ),
{
    let b = match body {
        Some(x) => x,
        None => "",
    };
    proof {
        reveal_strlit("");
        reveal_strlit("\"");
        reveal_strlit("'");
        assert(""@ =~= Seq::<char>::empty());
    }
    let mut args: Vec<String> = Vec::new();
    match os {
        Desktop::MacOs => {
            let mut v: Vec<char> = Vec::new();
            push_str(&mut v, "display notification \"");
            push_chars(&mut v, &replaced(b, "\"", "\\\""));
            push_str(&mut v, "\" with title \"pilot\" subtitle \"");
            push_chars(&mut v, &replaced(title, "\"", "\\\""));
            push_str(&mut v, "\"");
            args.push("-e".to_string());
            args.push(string_from(&v));
            assert(str_views(args@) =~= native_command_of(os, title@, match body {
                Some(x) => Some(x@),
                None => None,
            }).1);
            ("osascript".to_string(), args)
        },
        Desktop::Windows => {
            let mut v: Vec<char> = Vec::new();
            push_str(&mut v, "[Windows.UI.Notifications.ToastNotificationManager, Windows.UI.Notifications, ContentType = WindowsRuntime] > $null; $template = [Windows.UI.Notifications.ToastNotificationManager]::GetTemplateContent([Windows.UI.Notifications.ToastTemplateType]::ToastText02); $text = $template.GetElementsByTagName('text'); $text.Item(0).AppendChild($template.CreateTextNode('pilot: ");
            push_chars(&mut v, &replaced(title, "'", "''"));
            push_str(&mut v, "')) > $null; $text.Item(1).AppendChild($template.CreateTextNode('");
            push_chars(&mut v, &replaced(b, "'", "''"));
            push_str(&mut v, "')) > $null; $toast = [Windows.UI.Notifications.ToastNotification]::new($template); [Windows.UI.Notifications.ToastNotificationManager]::CreateToastNotifier('pilot').Show($toast)");
            args.push("-NoProfile".to_string());
            args.push("-Command".to_string());
            args.push(string_from(&v));
            assert(str_views(args@) =~= native_command_of(os, title@, match body {
                Some(x) => Some(x@),
                None => None,
            }).1);
            ("powershell".to_string(), args)
        },
        Desktop::Linux => {
            let mut v: Vec<char> = Vec::new();
            push_str(&mut v, "pilot: ");
            push_str(&mut v, title);
            args.push("--app-name=pilot".to_string());
            args.push(string_from(&v));
            args.push(b.to_string());
            assert(str_views(args@) =~= native_command_of(os, title@, match body {
                Some(x) => Some(x@),
                None => None,
            }).1);
            ("notify-send".to_string(), args)
        },
    }
}

} // verus!
