//! tmux commands: the argument lists handed to the `tmux` binary, and
//! the reading of what `tmux list-sessions` and `tmux list-windows` print.
use vstd::prelude::*;

use crate::config::str_views;
use crate::text::{
    chars_eq, chars_of, decimal, lines, lines_of, parse_unsigned, parse_usize, push_decimal,
    push_str, split_chars, split_on, string_from, views,
};

verus! {

/// A tmux session.
#[derive(Debug, Clone)]
pub struct TmuxSession {
    pub name: String,
    pub window_count: usize,
    pub attached: bool,
    pub created: Option<String>,
}

/// A tmux window.
#[derive(Debug, Clone)]
pub struct TmuxWindow {
    pub index: usize,
    pub name: String,
    pub active: bool,
    pub panes: usize,
}

/// Turns a list of string literals into owned arguments.
fn strings(v: Vec<&str>) -> (r: Vec<String>)
    ensures
        str_views(r@) == v@.map_values(|s: &str| s@),
{
    let mut r: Vec<String> = Vec::new();
    let mut i: usize = 0;
    while i < v.len()
        invariant
            i <= v.len(),
            str_views(r@) == v@.take(i as int).map_values(|s: &str| s@),
        decreases v.len() - i,
    {
        let ghost r0 = str_views(r@);
        let x = v[i].to_string();
        assert(x@ == v@[i as int]@);
        r.push(x);
        assert(str_views(r@) =~= r0.push(v@[i as int]@));
        assert(v@.take(i + 1).map_values(|s: &str| s@) =~= v@.take(i as int).map_values(
            |s: &str| s@,
        ).push(v@[i as int]@));
        i = i + 1;
    }
    assert(v@.take(v.len() as int) =~= v@);
    r
}

/// The target `session:index` of a window.
pub open spec fn window_target(session: Seq<char>, index: nat) -> Seq<char> {
    session + ":"@ + decimal(index)
}

fn target_of(session: &str, index: usize) -> (r: String)
    ensures
        r@ == window_target(session@, index as nat),
{
    let mut v: Vec<char> = Vec::new();
    push_str(&mut v, session);
    push_str(&mut v, ":");
    push_decimal(&mut v, index as u64);
    string_from(&v)
}

/// Arguments that send `keys` followed by Enter to the pane `target`.
pub fn send_keys(target: &str, keys: &str) -> (args: Vec<String>)
    ensures
        str_views(args@) == seq!["send-keys"@, "-t"@, target@, keys@, "Enter"@],
{
    let r = strings(vec!["send-keys", "-t", target, keys, "Enter"]);
    assert(str_views(r@) =~= seq!["send-keys"@, "-t"@, target@, keys@, "Enter"@]);
    r
}

/// Arguments that test whether the session `name` exists (the session
/// exists exactly when tmux succeeds on them).
pub fn session_exists(name: &str) -> (args: Vec<String>)
    ensures
        str_views(args@) == seq!["has-session"@, "-t"@, name@],
{
    let r = strings(vec!["has-session", "-t", name]);
    assert(str_views(r@) =~= seq!["has-session"@, "-t"@, name@]);
    r
}

/// Arguments that create the detached session `name`, started in
/// `working_dir` when one is given.
pub fn create_session(name: &str, working_dir: Option<&str>) -> (args: Vec<String>)
    ensures
        str_views(args@) == match working_dir {
            Some(dir) => seq!["new-session"@, "-d"@, "-s"@, name@, "-c"@, dir@],
            None => seq!["new-session"@, "-d"@, "-s"@, name@],
        },
{
    match working_dir {
        Some(dir) => {
            let r = strings(vec!["new-session", "-d", "-s", name, "-c", dir]);
            assert(str_views(r@) =~= seq!["new-session"@, "-d"@, "-s"@, name@, "-c"@, dir@]);
            r
        },
        None => {
            let r = strings(vec!["new-session", "-d", "-s", name]);
            assert(str_views(r@) =~= seq!["new-session"@, "-d"@, "-s"@, name@]);
            r
        },
    }
}

/// Arguments that move to the session `name`: switch the client when
/// already inside tmux, attach otherwise.
pub fn switch_session(name: &str, inside_tmux: bool) -> (args: Vec<String>)
    ensures
        str_views(args@) == if inside_tmux {
            seq!["switch-client"@, "-t"@, name@]
        } else {
            seq!["attach-session"@, "-t"@, name@]
        },
{
    if inside_tmux {
        let r = strings(vec!["switch-client", "-t", name]);
        assert(str_views(r@) =~= seq!["switch-client"@, "-t"@, name@]);
        r
    } else {
        let r = strings(vec!["attach-session", "-t", name]);
        assert(str_views(r@) =~= seq!["attach-session"@, "-t"@, name@]);
        r
    }
}

/// Arguments that kill the session `name`.
pub fn kill_session(name: &str) -> (args: Vec<String>)
    ensures
        str_views(args@) == seq!["kill-session"@, "-t"@, name@],
{
    let r = strings(vec!["kill-session", "-t", name]);
    assert(str_views(r@) =~= seq!["kill-session"@, "-t"@, name@]);
    r
}

/// Arguments that rename the session `old_name` to `new_name`.
pub fn rename_session(old_name: &str, new_name: &str) -> (args: Vec<String>)
    ensures
        str_views(args@) == seq!["rename-session"@, "-t"@, old_name@, new_name@],
{
    let r = strings(vec!["rename-session", "-t", old_name, new_name]);
    assert(str_views(r@) =~= seq!["rename-session"@, "-t"@, old_name@, new_name@]);
    r
}

/// Arguments that print the name of the current session.
pub fn current_session_name() -> (args: Vec<String>)
    ensures
        str_views(args@) == seq!["display-message"@, "-p"@, "#{session_name}"@],
{
    let r = strings(vec!["display-message", "-p", "#{session_name}"]);
    assert(str_views(r@) =~= seq!["display-message"@, "-p"@, "#{session_name}"@]);
    r
}

/// The `-F` format of `list_sessions_args`.
pub open spec fn session_format() -> Seq<char> {
    "#{session_name}\t#{session_windows}\t#{session_attached}\t#{session_created_string}"@
}

/// Arguments that list the sessions, one tab-separated line each.
pub fn list_sessions_args() -> (args: Vec<String>)
    ensures
        str_views(args@) == seq!["list-sessions"@, "-F"@, session_format()],
{
    let r = strings(
        vec![
            "list-sessions",
            "-F",
            "#{session_name}\t#{session_windows}\t#{session_attached}\t#{session_created_string}",
        ],
    );
    assert(str_views(r@) =~= seq!["list-sessions"@, "-F"@, session_format()]);
    r
}

/// The `-F` format of `list_windows_args`.
pub open spec fn window_format() -> Seq<char> {
    "#{window_index}\t#{window_name}\t#{window_active}\t#{window_panes}"@
}

/// Arguments that list the windows of `session_name`.
pub fn list_windows_args(session_name: &str) -> (args: Vec<String>)
    ensures
        str_views(args@) == seq!["list-windows"@, "-t"@, session_name@, "-F"@, window_format()],
{
    let r = strings(
        vec![
            "list-windows",
            "-t",
            session_name,
            "-F",
            "#{window_index}\t#{window_name}\t#{window_active}\t#{window_panes}",
        ],
    );
    assert(str_views(r@) =~= seq!["list-windows"@, "-t"@, session_name@, "-F"@, window_format()]);
    r
}

/// Arguments that create the window `window_name` in `session_name`,
/// started in `working_dir` when one is given.
pub fn create_window(session_name: &str, window_name: &str, working_dir: Option<&str>) -> (args:
    Vec<String>)
    ensures
        str_views(args@) == match working_dir {
            Some(dir) => seq![
                "new-window"@,
                "-t"@,
                session_name@,
                "-n"@,
                window_name@,
                "-c"@,
                dir@,
            ],
            None => seq!["new-window"@, "-t"@, session_name@, "-n"@, window_name@],
        },
{
    match working_dir {
        Some(dir) => {
            let r = strings(vec!["new-window", "-t", session_name, "-n", window_name, "-c", dir]);
            assert(str_views(r@) =~= seq![
                "new-window"@,
                "-t"@,
                session_name@,
                "-n"@,
                window_name@,
                "-c"@,
                dir@,
            ]);
            r
        },
        None => {
            let r = strings(vec!["new-window", "-t", session_name, "-n", window_name]);
            assert(str_views(r@) =~= seq!["new-window"@, "-t"@, session_name@, "-n"@, window_name@]);
            r
        },
    }
}

/// Arguments that select window `window_index` of `session_name`.
pub fn select_window(session_name: &str, window_index: usize) -> (args: Vec<String>)
    ensures
        str_views(args@) == seq![
            "select-window"@,
            "-t"@,
            window_target(session_name@, window_index as nat),
        ],
{
    let mut r = strings(vec!["select-window", "-t"]);
    let ghost r0 = str_views(r@);
    let t = target_of(session_name, window_index);
    let ghost tv = t@;
    r.push(t);
    assert(str_views(r@) =~= r0.push(tv));
    assert(str_views(r@) =~= seq![
        "select-window"@,
        "-t"@,
        window_target(session_name@, window_index as nat),
    ]);
    r
}

/// Arguments that rename window `window_index` of `session_name`.
pub fn rename_window(session_name: &str, window_index: usize, new_name: &str) -> (args: Vec<
    String,
>)
    ensures
        str_views(args@) == seq![
            "rename-window"@,
            "-t"@,
            window_target(session_name@, window_index as nat),
            new_name@,
        ],
{
    let mut r = strings(vec!["rename-window", "-t"]);
    let ghost r0 = str_views(r@);
    let t = target_of(session_name, window_index);
    let ghost tv = t@;
    r.push(t);
    assert(str_views(r@) =~= r0.push(tv));
    let ghost r1 = str_views(r@);
    r.push(new_name.to_string());
    assert(str_views(r@) =~= r1.push(new_name@));
    assert(str_views(r@) =~= seq![
        "rename-window"@,
        "-t"@,
        window_target(session_name@, window_index as nat),
        new_name@,
    ]);
    r
}

/// Arguments that kill window `window_index` of `session_name`.
pub fn kill_window(session_name: &str, window_index: usize) -> (args: Vec<String>)
    ensures
        str_views(args@) == seq![
            "kill-window"@,
            "-t"@,
            window_target(session_name@, window_index as nat),
        ],
{
    let mut r = strings(vec!["kill-window", "-t"]);
    let ghost r0 = str_views(r@);
    let t = target_of(session_name, window_index);
    let ghost tv = t@;
    r.push(t);
    assert(str_views(r@) =~= r0.push(tv));
    assert(str_views(r@) =~= seq![
        "kill-window"@,
        "-t"@,
        window_target(session_name@, window_index as nat),
    ]);
    r
}

// ─── Reading tmux output ─────────────────────────────────────────

/// A number field: its value, or `default` when it does not parse.
pub open spec fn number_or(field: Seq<char>, default: nat) -> nat {
    match parse_unsigned(field, usize::MAX as nat) {
        Some(v) => v,
        None => default,
    }
}

/// The lines of tmux output that describe an entry: non-empty, with at
/// least `min_fields` tab-separated fields.
pub open spec fn entry_lines(output: Seq<char>, min_fields: nat) -> Seq<Seq<char>> {
    lines_of(output).filter(entry_pred(min_fields))
}

/// A line is non-empty and has at least `min_fields` tab-separated fields.
pub open spec fn entry_pred(min_fields: nat) -> spec_fn(Seq<char>) -> bool {
    |l: Seq<char>| l.len() > 0 && split_on(l, '\t').len() >= min_fields
}

/// `s` is the session that the line `line` describes.
pub open spec fn session_of_line(line: Seq<char>, s: TmuxSession) -> bool {
    let f = split_on(line, '\t');
    &&& s.name@ == f[0]
    &&& s.window_count == number_or(f[1], 0)
    &&& s.attached == (f[2] == "1"@)
    &&& s.created matches Some(c) ==> f.len() > 3 && c@ == f[3]
    &&& s.created is None ==> f.len() <= 3
}

/// `w` is the window that the line `line` describes.
pub open spec fn window_of_line(line: Seq<char>, w: TmuxWindow) -> bool {
    let f = split_on(line, '\t');
    &&& w.index == number_or(f[0], 0)
    &&& w.name@ == f[1]
    &&& w.active == (f[2] == "1"@)
    &&& w.panes == number_or(f[3], 1)
}

fn number_field(field: &Vec<char>, default: usize) -> (r: usize)
    ensures
        r == number_or(field@, default as nat),
{
    match parse_usize(field) {
        Some(v) => v,
        None => default,
    }
}

fn is_one(field: &Vec<char>) -> (r: bool)
    ensures
        r == (field@ == "1"@),
{
    let one = chars_of("1");
    chars_eq(field, &one)
}

/// The sessions described by the output of `tmux list-sessions` run
/// with `list_sessions_args`: one per non-empty line with at least three
/// tab-separated fields, in order.
pub fn list_sessions(output: &str) -> (r: Vec<TmuxSession>)
    ensures
        r@.len() == entry_lines(output@, 3).len(),
        forall|i: int| 0 <= i < r@.len() ==> session_of_line(entry_lines(output@, 3)[i], #[trigger] r@[i]),
{
    let text = chars_of(output);
    let ls = lines(&text);
    let ghost pred = entry_pred(3);
    let mut r: Vec<TmuxSession> = Vec::new();
    let mut i: usize = 0;
    assert(views(ls@).take(0).filter(pred) =~= seq![]) by {
        reveal_with_fuel(Seq::filter, 1);
    }
    while i < ls.len()
        invariant
            i <= ls.len(),
            views(ls@) == lines_of(output@),
            pred == entry_pred(3),
            r@.len() == views(ls@).take(i as int).filter(pred).len(),
            forall|k: int| 0 <= k < r@.len() ==> session_of_line(
                views(ls@).take(i as int).filter(pred)[k],
                #[trigger] r@[k],
            ),
        decreases ls.len() - i,
    {
        let line = &ls[i];
        let ghost lv = views(ls@)[i as int];
        assert(lv == line@);
        let ghost before = views(ls@).take(i as int).filter(pred);
        assert(views(ls@).take(i + 1).drop_last() =~= views(ls@).take(i as int));
        assert(views(ls@).take(i + 1).last() == lv);
        let fields = split_chars(line, '\t');
        assert(pred(lv) == (lv.len() > 0 && split_on(lv, '\t').len() >= 3));
        assert(views(fields@).len() == fields@.len());
        if line.len() > 0 && fields.len() >= 3 {
            let ghost f = views(fields@);
            assert(f[0] == fields@[0]@ && f[1] == fields@[1]@ && f[2] == fields@[2]@);
            let created = if fields.len() > 3 {
                assert(f[3] == fields@[3]@);
                Some(string_from(&fields[3]))
            } else {
                None
            };
            let s = TmuxSession {
                name: string_from(&fields[0]),
                window_count: number_field(&fields[1], 0),
                attached: is_one(&fields[2]),
                created,
            };
            r.push(s);
            proof {
                reveal_with_fuel(Seq::filter, 1);
                let after = views(ls@).take(i + 1).filter(pred);
                assert(after == before.push(lv));
                assert forall|k: int| 0 <= k < r@.len() implies session_of_line(
                    after[k],
                    #[trigger] r@[k],
                ) by {
                    if k < r@.len() - 1 {
                        assert(after[k] == before[k]);
                    }
                }
            }
        } else {
            proof {
                reveal_with_fuel(Seq::filter, 1);
                assert(views(ls@).take(i + 1).filter(pred) == before);
            }
        }
        i = i + 1;
    }
    assert(views(ls@).take(ls.len() as int) =~= views(ls@));
    r
}

/// The windows described by the output of `tmux list-windows` run with
/// `list_windows_args`: one per non-empty line with at least four
/// tab-separated fields, in order.
pub fn list_windows(output: &str) -> (r: Vec<TmuxWindow>)
    ensures
        r@.len() == entry_lines(output@, 4).len(),
        forall|i: int| 0 <= i < r@.len() ==> window_of_line(entry_lines(output@, 4)[i], #[trigger] r@[i]),
{
    let text = chars_of(output);
    let ls = lines(&text);
    let ghost pred = entry_pred(4);
    let mut r: Vec<TmuxWindow> = Vec::new();
    let mut i: usize = 0;
    assert(views(ls@).take(0).filter(pred) =~= seq![]) by {
        reveal_with_fuel(Seq::filter, 1);
    }
    while i < ls.len()
        invariant
            i <= ls.len(),
            views(ls@) == lines_of(output@),
            pred == entry_pred(4),
            r@.len() == views(ls@).take(i as int).filter(pred).len(),
            forall|k: int| 0 <= k < r@.len() ==> window_of_line(
                views(ls@).take(i as int).filter(pred)[k],
                #[trigger] r@[k],
            ),
        decreases ls.len() - i,
    {
        let line = &ls[i];
        let ghost lv = views(ls@)[i as int];
        assert(lv == line@);
        let ghost before = views(ls@).take(i as int).filter(pred);
        assert(views(ls@).take(i + 1).drop_last() =~= views(ls@).take(i as int));
        assert(views(ls@).take(i + 1).last() == lv);
        let fields = split_chars(line, '\t');
        assert(pred(lv) == (lv.len() > 0 && split_on(lv, '\t').len() >= 4));
        assert(views(fields@).len() == fields@.len());
        if line.len() > 0 && fields.len() >= 4 {
            let ghost f = views(fields@);
            assert(f[0] == fields@[0]@ && f[1] == fields@[1]@ && f[2] == fields@[2]@ && f[3]
                == fields@[3]@);
            let w = TmuxWindow {
                index: number_field(&fields[0], 0),
                name: string_from(&fields[1]),
                active: is_one(&fields[2]),
                panes: number_field(&fields[3], 1),
            };
            r.push(w);
            proof {
                reveal_with_fuel(Seq::filter, 1);
                let after = views(ls@).take(i + 1).filter(pred);
                assert(after == before.push(lv));
                assert forall|k: int| 0 <= k < r@.len() implies window_of_line(
                    after[k],
                    #[trigger] r@[k],
                ) by {
                    if k < r@.len() - 1 {
                        assert(after[k] == before[k]);
                    }
                }
            }
        } else {
            proof {
                reveal_with_fuel(Seq::filter, 1);
                assert(views(ls@).take(i + 1).filter(pred) == before);
            }
        }
        i = i + 1;
    }
    assert(views(ls@).take(ls.len() as int) =~= views(ls@));
    r
}

} // verus!
