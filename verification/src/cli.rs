//! What the command-line commands compute: the session listing, Copilot
//! detection in panes, lock files and pane lines of `scan`, and the
//! checks of `restore`.
use vstd::prelude::*;

use crate::config::{str_views, AppConfig};
use crate::store::WindowMapping;
use crate::text::{
    chars_of, contains, decimal, has_substring, lines, lines_of, parse_u32, parse_unsigned,
    push_decimal, push_str, split_chars, split_on, str_eq, string_from, trim, trim_chars, views,
};
use crate::tmux::{TmuxSession, TmuxWindow};

verus! {

/// The line of `ls` for a session: its name, window count and a star
/// when attached.
pub open spec fn session_line_of(s: TmuxSession) -> Seq<char> {
    "  "@ + s.name@ + " ("@ + decimal(s.window_count as nat) + " windows)"@ + (if s.attached {
        " *"@
    } else {
        seq![]
    })
}

/// The line of `ls` for a session.
pub fn session_line(s: &TmuxSession) -> (r: String)
    requires
        s.window_count <= u64::MAX,
    ensures
        r@ == session_line_of(*s),
{
    let mut v: Vec<char> = Vec::new();
    push_str(&mut v, "  ");
    push_str(&mut v, s.name.as_str());
    push_str(&mut v, " (");
    push_decimal(&mut v, s.window_count as u64);
    push_str(&mut v, " windows)");
    if s.attached {
        push_str(&mut v, " *");
    }
    assert(v@ =~= session_line_of(*s));
    string_from(&v)
}

/// A pane command that is Copilot: `node` (which it runs as) or anything
/// naming copilot.
pub open spec fn is_copilot_command_of(cmd: Seq<char>) -> bool {
    cmd == "node"@ || has_substring(cmd, "copilot"@)
}

/// Whether a pane command is Copilot.
pub fn is_copilot_command(cmd: &str) -> (b: bool)
    ensures
        b == is_copilot_command_of(cmd@),
{
    let c = chars_of(cmd);
    let p = chars_of("copilot");
    str_eq(cmd, "node") || contains(&c, &p)
}

/// Whether tmux's report of a pane's current command (`display-message
/// -p "#{pane_current_command}"`) says Copilot runs there.
pub fn copilot_in_pane(report: &str) -> (b: bool)
    ensures
        b == is_copilot_command_of(trim(report@)),
{
    let c = chars_of(report);
    let t = trim_chars(&c);
    let p = chars_of("copilot");
    let node = chars_of("node");
    crate::text::chars_eq(&t, &node) || contains(&t, &p)
}

/// The process id in a lock file's name, `inuse.<pid>.lock`.
pub open spec fn lock_pid_of(name: Seq<char>) -> Option<u32> {
    if "inuse."@.is_prefix_of(name) && name.len() >= 11 && name.subrange(name.len() - 5, name.len() as int)
        == ".lock"@ {
        match parse_unsigned(name.subrange(6, name.len() - 5), u32::MAX as nat) {
            Some(v) => Some(v as u32),
            None => None,
        }
    } else {
        None
    }
}

/// The process id in a lock file's name, if it is one.
pub fn lock_pid(name: &str) -> (r: Option<u32>)
    ensures
        r == lock_pid_of(name@),
{
    proof {
        reveal_strlit("inuse.");
        reveal_strlit(".lock");
    }
    let c = chars_of(name);
    let pre = chars_of("inuse.");
    if !crate::text::starts_with(&c, &pre) || c.len() < 11 {
        return None;
    }
    let n = c.len();
    let suffix_ok = c[n - 5] == '.' && c[n - 4] == 'l' && c[n - 3] == 'o' && c[n - 2] == 'c' && c[n
        - 1] == 'k';
    if !suffix_ok {
        assert(c@.subrange(n - 5, n as int) != ".lock"@) by {
            if c@.subrange(n - 5, n as int) == ".lock"@ {
                assert(c@.subrange(n - 5, n as int)[0] == c@[n - 5]);
                assert(c@.subrange(n - 5, n as int)[1] == c@[n - 4]);
                assert(c@.subrange(n - 5, n as int)[2] == c@[n - 3]);
                assert(c@.subrange(n - 5, n as int)[3] == c@[n - 2]);
                assert(c@.subrange(n - 5, n as int)[4] == c@[n - 1]);
            }
        }
        return None;
    }
    assert(c@.subrange(n - 5, n as int) =~= ".lock"@);
    let mut mid: Vec<char> = Vec::new();
    let mut i: usize = 6;
    while i < n - 5
        invariant
            6 <= i <= n - 5,
            n == c@.len(),
            n >= 11,
            mid@ == c@.subrange(6, i as int),
        decreases n - 5 - i,
    {
        mid.push(c[i]);
        i = i + 1;
        assert(mid@ =~= c@.subrange(6, i as int));
    }
    parse_u32(&mid)
}

/// A line of `list-panes -F "#{session_name}|#{window_name}|#{pane_pid}|
/// #{pane_current_command}"`: the session, window, pane process id and
/// command, when it has four fields and a numeric pid.
pub open spec fn pane_of(line: Seq<char>) -> Option<(Seq<char>, Seq<char>, u32, Seq<char>)> {
    let parts = split_on(line, '|');
    if parts.len() < 4 {
        None
    } else {
        match parse_unsigned(parts[2], u32::MAX as nat) {
            Some(pid) => Some((parts[0], parts[1], pid as u32, parts[3])),
            None => None,
        }
    }
}

/// A pane line of `scan`, as (session, window, pid, command).
pub fn parse_pane(line: &str) -> (r: Option<(String, String, u32, String)>)
    ensures
        match r {
            Some(p) => pane_of(line@) == Some((p.0@, p.1@, p.2, p.3@)),
            None => pane_of(line@) is None,
        },
{
    let c = chars_of(line);
    let parts = split_chars(&c, '|');
    if parts.len() < 4 {
        return None;
    }
    proof {
        assert(views(parts@)[0] == parts@[0]@);
        assert(views(parts@)[1] == parts@[1]@);
        assert(views(parts@)[2] == parts@[2]@);
        assert(views(parts@)[3] == parts@[3]@);
    }
    match parse_u32(&parts[2]) {
        Some(pid) => Some((string_from(&parts[0]), string_from(&parts[1]), pid, string_from(&parts[3]))),
        None => None,
    }
}

/// The child process ids that `pgrep -P` printed: each line, trimmed, that
/// parses as a number.
pub open spec fn child_pids_of(output: Seq<char>, n: nat) -> Seq<u32>
    decreases n,
{
    if n == 0 {
        seq![]
    } else {
        let init = child_pids_of(output, (n - 1) as nat);
        match parse_unsigned(trim(lines_of(output)[n - 1]), u32::MAX as nat) {
            Some(v) => init.push(v as u32),
            None => init,
        }
    }
}

/// The child process ids that `pgrep -P` printed.
pub fn child_pids(output: &str) -> (r: Vec<u32>)
    ensures
        r@ == child_pids_of(output@, lines_of(output@).len()),
{
    let c = chars_of(output);
    let ls = lines(&c);
    let mut r: Vec<u32> = Vec::new();
    let mut i: usize = 0;
    while i < ls.len()
        invariant
            i <= ls@.len(),
            views(ls@) == lines_of(output@),
            r@ == child_pids_of(output@, i as nat),
        decreases ls@.len() - i,
    {
        let t = trim_chars(&ls[i]);
        assert(views(ls@)[i as int] == ls@[i as int]@);
        match parse_u32(&t) {
            Some(v) => r.push(v),
            None => {},
        }
        i = i + 1;
    }
    r
}

/// The session of the first of `pids` that holds a lock, by the lock
/// entries (pid, session); a later entry for the same pid overrides an
/// earlier one.
pub open spec fn lock_session_of(pids: Seq<u32>, locks: Seq<(u32, Seq<char>)>) -> Option<Seq<char>>
    decreases pids.len(),
{
    if pids.len() == 0 {
        None
    } else {
        match last_lock(locks, pids[0], locks.len()) {
            Some(s) => Some(s),
            None => lock_session_of(pids.drop_first(), locks),
        }
    }
}

/// The session of the last of the first `n` lock entries for `pid`.
pub open spec fn last_lock(locks: Seq<(u32, Seq<char>)>, pid: u32, n: nat) -> Option<Seq<char>>
    decreases n,
{
    if n == 0 {
        None
    } else if locks[n - 1].0 == pid {
        Some(locks[n - 1].1)
    } else {
        last_lock(locks, pid, (n - 1) as nat)
    }
}

/// The lock entries as plain values.
pub open spec fn locks_view(locks: Seq<(u32, String)>) -> Seq<(u32, Seq<char>)> {
    locks.map_values(|l: (u32, String)| (l.0, l.1@))
}

fn find_lock(locks: &Vec<(u32, String)>, pid: u32) -> (r: Option<String>)
    ensures
        match r {
            Some(s) => last_lock(locks_view(locks@), pid, locks@.len()) == Some(s@),
            None => last_lock(locks_view(locks@), pid, locks@.len()) is None,
        },
{
    let mut i: usize = locks.len();
    while i > 0
        invariant
            i <= locks@.len(),
            forall|k: int| i <= k < locks@.len() ==> (#[trigger] locks@[k]).0 != pid,
            last_lock(locks_view(locks@), pid, locks@.len()) == last_lock(locks_view(locks@), pid, i as nat),
        decreases i,
    {
        if locks[i - 1].0 == pid {
            return Some(locks[i - 1].1.clone());
        }
        i = i - 1;
    }
    None
}

/// The Copilot session whose lock a pane's process tree holds: the first
/// process (in the order given) with a lock.
pub fn lock_session(pids: &Vec<u32>, locks: &Vec<(u32, String)>) -> (r: Option<String>)
    ensures
        match r {
            Some(s) => lock_session_of(pids@, locks_view(locks@)) == Some(s@),
            None => lock_session_of(pids@, locks_view(locks@)) is None,
        },
{
    let mut i: usize = 0;
    assert(pids@.skip(0) =~= pids@);
    while i < pids.len()
        invariant
            i <= pids@.len(),
            lock_session_of(pids@, locks_view(locks@)) == lock_session_of(pids@.skip(i as int), locks_view(locks@)),
        decreases pids@.len() - i,
    {
        assert(pids@.skip(i as int)[0] == pids@[i as int]);
        assert(pids@.skip(i as int).drop_first() =~= pids@.skip(i + 1));
        match find_lock(locks, pids[i]) {
            Some(s) => {
                return Some(s);
            },
            None => {},
        }
        i = i + 1;
    }
    assert(pids@.skip(i as int).len() == 0);
    None
}

/// The tmux target of a mapped window, `session:window`.
pub open spec fn window_target_of(m: WindowMapping) -> Seq<char> {
    m.session_name@ + ":"@ + m.window_name@
}

/// The tmux target of a mapped window.
pub fn window_target(m: &WindowMapping) -> (r: String)
    ensures
        r@ == window_target_of(*m),
{
    let mut v: Vec<char> = Vec::new();
    push_str(&mut v, m.session_name.as_str());
    push_str(&mut v, ":");
    push_str(&mut v, m.window_name.as_str());
    string_from(&v)
}

/// Whether a session of this name is listed.
pub fn session_listed(sessions: &Vec<TmuxSession>, name: &str) -> (b: bool)
    ensures
        b == exists|k: int| 0 <= k < sessions@.len() && (#[trigger] sessions@[k]).name@ == name@,
{
    let mut i: usize = 0;
    while i < sessions.len()
        invariant
            i <= sessions@.len(),
            forall|k: int| 0 <= k < i ==> (#[trigger] sessions@[k]).name@ != name@,
        decreases sessions@.len() - i,
    {
        if str_eq(sessions[i].name.as_str(), name) {
            return true;
        }
        i = i + 1;
    }
    false
}

/// Whether a window of this name is listed.
pub fn window_listed(windows: &Vec<TmuxWindow>, name: &str) -> (b: bool)
    ensures
        b == exists|k: int| 0 <= k < windows@.len() && (#[trigger] windows@[k]).name@ == name@,
{
    let mut i: usize = 0;
    while i < windows.len()
        invariant
            i <= windows@.len(),
            forall|k: int| 0 <= k < i ==> (#[trigger] windows@[k]).name@ != name@,
        decreases windows@.len() - i,
    {
        if str_eq(windows[i].name.as_str(), name) {
            return true;
        }
        i = i + 1;
    }
    false
}

/// `true` or `false`, as `bool` prints.
pub open spec fn bool_text(b: bool) -> Seq<char> {
    if b { "true"@ } else { "false"@ }
}

/// The lines `pilot config` prints before the config file's path.
pub open spec fn config_lines_of(cfg: AppConfig) -> Seq<Seq<char>> {
    let head = seq!["Configuration:"@, "  Copilot binary: "@ + cfg.copilot.bin@, "  Yolo mode: "@ + bool_text(cfg.copilot.yolo)];
    let agent = match cfg.copilot.default_agent {
        Some(a) => seq!["  Default agent: "@ + a@],
        None => Seq::<Seq<char>>::empty(),
    };
    let azdo = match cfg.azdo {
        Some(z) => seq!["  AzDo org: "@ + z.organization@, "  AzDo project: "@ + z.project@],
        None => seq!["  AzDo: not configured"@],
    };
    head + agent + azdo
}

fn prefixed(prefix: &str, s: &str) -> (r: String)
    ensures
        r@ == prefix@ + s@,
{
    let mut v: Vec<char> = Vec::new();
    push_str(&mut v, prefix);
    push_str(&mut v, s);
    string_from(&v)
}

/// The lines `pilot config` prints before the config file's path.
pub fn config_lines(cfg: &AppConfig) -> (r: Vec<String>)
    ensures
        str_views(r@) == config_lines_of(*cfg),
{
    let mut r: Vec<String> = Vec::new();
    r.push("Configuration:".to_string());
    r.push(prefixed("  Copilot binary: ", cfg.copilot.bin.as_str()));
    r.push(prefixed("  Yolo mode: ", if cfg.copilot.yolo { "true" } else { "false" }));
    match &cfg.copilot.default_agent {
        Some(a) => r.push(prefixed("  Default agent: ", a.as_str())),
        None => {},
    }
    match &cfg.azdo {
        Some(z) => {
            r.push(prefixed("  AzDo org: ", z.organization.as_str()));
            r.push(prefixed("  AzDo project: ", z.project.as_str()));
        },
        None => r.push("  AzDo: not configured".to_string()),
    }
    assert(str_views(r@) =~= config_lines_of(*cfg));
    r
}

} // verus!
