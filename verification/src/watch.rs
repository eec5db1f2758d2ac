//! Background watchers: their ids and restart arguments, the notices each
//! kind raises from what it polls, and the decisions of listing,
//! stopping, cleaning up and resurrecting them.
use vstd::prelude::*;

use crate::store::Watcher;
use crate::watch_list::{can_take_bytes, prefix_bytes, take_bytes};
use crate::text::{
    chars_of, decimal, join, join_chars, lemma_split_join, lines, lines_of, push_chars,
    push_decimal, push_str, split_chars, split_on, starts_with, str_eq, string_from, trim,
    trim_chars, views,
};

verus! {

/// Supported watcher types.
#[derive(Debug, Clone)]
#[allow(inconsistent_fields)]
pub enum WatcherType {
    /// Watch a pipeline build for completion/failure
    Pipeline { build_id: u64 },
    /// Watch a PR for merge or abandon
    PrMerge { pr_id: u64 },
    /// Watch a PR for new review comments
    PrComments { pr_id: u64, known_count: u64 },
    /// Watch a SonarQube quality gate
    Sonarqube { project_key: String, pr_id: Option<u64> },
    /// Run a custom script that exits 0 to trigger notification
    Custom { script: String },
}

/// The arguments of a watcher.
#[derive(Debug, Clone)]
pub struct WatcherArgs {
    pub id: Option<u64>,
    pub project_key: Option<String>,
    pub script: Option<String>,
    pub name: Option<String>,
    pub persistent: bool,
}

/// A notification that a watcher raises.
#[derive(Debug, Clone)]
pub struct Notice {
    /// info, warn, error or success
    pub level: String,
    pub title: String,
    pub body: Option<String>,
    pub source: String,
    pub link: Option<String>,
}

/// A notice as plain values.
pub struct NoticeView {
    pub level: Seq<char>,
    pub title: Seq<char>,
    pub body: Option<Seq<char>>,
    pub source: Seq<char>,
    pub link: Option<Seq<char>>,
}

impl View for Notice {
    type V = NoticeView;

    open spec fn view(&self) -> NoticeView {
        NoticeView {
            level: self.level@,
            title: self.title@,
            body: match self.body {
                Some(b) => Some(b@),
                None => None,
            },
            source: self.source@,
            link: match self.link {
                Some(l) => Some(l@),
                None => None,
            },
        }
    }
}

/// An optional notice as plain values.
pub open spec fn notice_view(n: Option<Notice>) -> Option<NoticeView> {
    match n {
        Some(x) => Some(x@),
        None => None,
    }
}

/// A notice with no body.
pub open spec fn notice_of(level: Seq<char>, title: Seq<char>, source: Seq<char>, link: Option<Seq<char>>) -> NoticeView {
    NoticeView { level, title, body: None, source, link }
}

fn notice(level: &str, title: String, source: &str, link: Option<String>) -> (n: Notice)
    ensures
        n@ == notice_of(
            level@,
            title@,
            source@,
            match link {
                Some(l) => Some(l@),
                None => None,
            },
        ),
{
    Notice { level: level.to_string(), title, body: None, source: source.to_string(), link }
}

fn with_number(a: &str, n: u64, b: &str) -> (s: String)
    ensures
        s@ == a@ + decimal(n as nat) + b@,
{
    let mut v: Vec<char> = Vec::new();
    push_str(&mut v, a);
    push_decimal(&mut v, n);
    push_str(&mut v, b);
    string_from(&v)
}

// ─── Ids and restart arguments ───────────────────────────────────

/// A watcher's id: its name, else its type and process id.
pub open spec fn watcher_id_of(name: Option<Seq<char>>, watcher_type: Seq<char>, pid: u32) -> Seq<char> {
    match name {
        Some(n) => n,
        None => watcher_type + "-"@ + decimal(pid as nat),
    }
}

/// The id under which a watcher registers.
pub fn watcher_id(name: &Option<String>, watcher_type: &str, pid: u32) -> (s: String)
    ensures
        s@ == watcher_id_of(
            match name {
                Some(n) => Some(n@),
                None => None,
            },
            watcher_type@,
            pid,
        ),
{
    match name {
        Some(n) => n.clone(),
        None => {
            let mut v: Vec<char> = Vec::new();
            push_str(&mut v, watcher_type);
            push_str(&mut v, "-");
            push_decimal(&mut v, pid as u64);
            string_from(&v)
        },
    }
}

/// The option arguments shared by restart and background launches: id,
/// project key, script and name when given.
pub open spec fn option_args(args: WatcherArgs) -> Seq<Seq<char>> {
    (match args.id {
        Some(id) => seq!["--id"@, decimal(id as nat)],
        None => seq![],
    }) + (match args.project_key {
        Some(k) => seq!["--project-key"@, k@],
        None => seq![],
    }) + (match args.script {
        Some(s) => seq!["--script"@, s@],
        None => seq![],
    }) + (match args.name {
        Some(n) => seq!["--name"@, n@],
        None => seq![],
    })
}

/// The command-line arguments that restart a watcher.
pub open spec fn restart_parts(watcher_type: Seq<char>, args: WatcherArgs, interval: u64) -> Seq<Seq<char>> {
    seq!["watch"@, watcher_type, "--interval"@, decimal(interval as nat)] + option_args(args) + (
    if args.persistent {
        seq!["--persistent"@]
    } else {
        seq![]
    })
}

/// The arguments with which a watcher relaunches itself in the
/// background: as for a restart, with `--foreground` after the interval.
pub open spec fn background_parts(watcher_type: Seq<char>, args: WatcherArgs, interval: u64) -> Seq<Seq<char>> {
    seq!["watch"@, watcher_type, "--interval"@, decimal(interval as nat), "--foreground"@]
        + option_args(args) + (if args.persistent {
        seq!["--persistent"@]
    } else {
        seq![]
    })
}

fn push_string(v: &mut Vec<String>, s: &str)
    ensures
        final(v)@.len() == old(v)@.len() + 1,
        forall|i: int| 0 <= i < old(v)@.len() ==> final(v)@[i] == old(v)@[i],
        final(v)@[old(v)@.len() as int]@ == s@,
{
    v.push(s.to_string());
}

fn push_option_args(v: &mut Vec<String>, args: &WatcherArgs)
    ensures
        final(v)@.map_values(|s: String| s@) == old(v)@.map_values(|s: String| s@) + option_args(*args),
{
    let ghost o = v@.map_values(|s: String| s@);
    match args.id {
        Some(id) => {
            v.push("--id".to_string());
            v.push(with_number("", id, ""));
        },
        None => {},
    }
    proof {
        reveal_strlit("");
    }
    let ghost a = v@.map_values(|s: String| s@);
    match &args.project_key {
        Some(k) => {
            v.push("--project-key".to_string());
            v.push(k.clone());
        },
        None => {},
    }
    let ghost b = v@.map_values(|s: String| s@);
    match &args.script {
        Some(s) => {
            v.push("--script".to_string());
            v.push(s.clone());
        },
        None => {},
    }
    let ghost c = v@.map_values(|s: String| s@);
    match &args.name {
        Some(n) => {
            v.push("--name".to_string());
            v.push(n.clone());
        },
        None => {},
    }
    proof {
        let id_part: Seq<Seq<char>> = match args.id {
            Some(id) => seq!["--id"@, decimal(id as nat)],
            None => seq![],
        };
        assert(""@ + decimal(0) + ""@ =~= decimal(0));
        assert(a =~= o + id_part) by {
            match args.id {
                Some(id) => {
                    assert(""@ + decimal(id as nat) + ""@ =~= decimal(id as nat));
                },
                None => {},
            }
        }
        assert(v@.map_values(|s: String| s@) =~= o + option_args(*args));
    }
}

/// The restart arguments of a watcher as a list.
pub fn restart_list(watcher_type: &str, args: &WatcherArgs, interval: u64) -> (r: Vec<String>)
    ensures
        r@.map_values(|s: String| s@) == restart_parts(watcher_type@, *args, interval),
{
    let mut v: Vec<String> = Vec::new();
    v.push("watch".to_string());
    v.push(watcher_type.to_string());
    v.push("--interval".to_string());
    v.push(with_number("", interval, ""));
    proof {
        reveal_strlit("");
        assert(""@ + decimal(interval as nat) + ""@ =~= decimal(interval as nat));
        assert(v@.map_values(|s: String| s@) =~= seq!["watch"@, watcher_type@, "--interval"@, decimal(interval as nat)]);
    }
    push_option_args(&mut v, args);
    let ghost o = v@.map_values(|s: String| s@);
    if args.persistent {
        v.push("--persistent".to_string());
    }
    assert(v@.map_values(|s: String| s@) =~= restart_parts(watcher_type@, *args, interval));
    v
}

/// The arguments with which a watcher is relaunched in the background.
pub fn background_args(watcher_type: &str, args: &WatcherArgs, interval: u64) -> (r: Vec<String>)
    ensures
        r@.map_values(|s: String| s@) == background_parts(watcher_type@, *args, interval),
{
    let mut v: Vec<String> = Vec::new();
    v.push("watch".to_string());
    v.push(watcher_type.to_string());
    v.push("--interval".to_string());
    v.push(with_number("", interval, ""));
    v.push("--foreground".to_string());
    proof {
        reveal_strlit("");
        assert(""@ + decimal(interval as nat) + ""@ =~= decimal(interval as nat));
        assert(v@.map_values(|s: String| s@) =~= seq![
            "watch"@,
            watcher_type@,
            "--interval"@,
            decimal(interval as nat),
            "--foreground"@,
        ]);
    }
    push_option_args(&mut v, args);
    if args.persistent {
        v.push("--persistent".to_string());
    }
    assert(v@.map_values(|s: String| s@) =~= background_parts(watcher_type@, *args, interval));
    v
}

/// The restart arguments, NUL-separated, as stored with the watcher.
pub open spec fn restart_text(watcher_type: Seq<char>, args: WatcherArgs, interval: u64) -> Seq<char> {
    join(restart_parts(watcher_type, args, interval), seq!['\0'])
}

/// Build the CLI args needed to restart this watcher, separated by NUL
/// characters.
pub fn build_restart_args(watcher_type: &str, args: &WatcherArgs, interval: u64) -> (r: String)
    ensures
        r@ == restart_text(watcher_type@, *args, interval),
{
    let list = restart_list(watcher_type, args, interval);
    let mut parts: Vec<Vec<char>> = Vec::new();
    let mut i: usize = 0;
    let ghost want = list@.map_values(|s: String| s@);
    while i < list.len()
        invariant
            i <= list@.len(),
            want == list@.map_values(|s: String| s@),
            views(parts@) == want.take(i as int),
        decreases list@.len() - i,
    {
        let ghost before = views(parts@);
        parts.push(chars_of(list[i].as_str()));
        assert(views(parts@) =~= before.push(want[i as int]));
        assert(want.take(i + 1) =~= want.take(i as int).push(want[i as int]));
        i = i + 1;
    }
    assert(want.take(i as int) =~= want);
    let mut sep: Vec<char> = Vec::new();
    sep.push('\0');
    assert(sep@ =~= seq!['\0']);
    let joined = join_chars(&parts, &sep);
    string_from(&joined)
}

/// No argument of a watcher holds a NUL character.
pub open spec fn nul_free(watcher_type: Seq<char>, args: WatcherArgs) -> bool {
    &&& !watcher_type.contains('\0')
    &&& match args.project_key {
        Some(k) => !k@.contains('\0'),
        None => true,
    }
    &&& match args.script {
        Some(s) => !s@.contains('\0'),
        None => true,
    }
    &&& match args.name {
        Some(n) => !n@.contains('\0'),
        None => true,
    }
}

proof fn lemma_literal_nul_free(s: Seq<char>)
    requires
        forall|i: int| 0 <= i < s.len() ==> s[i] != '\0',
    ensures
        !s.contains('\0'),
{
}

proof fn lemma_decimal_nul_free(n: nat)
    ensures
        !decimal(n).contains('\0'),
    decreases n,
{
    reveal_with_fuel(decimal, 2);
    if n >= 10 {
        lemma_decimal_nul_free(n / 10);
        let d = decimal(n);
        assert(d == decimal(n / 10).push(crate::text::digit_char(n % 10)));
        assert forall|i: int| 0 <= i < d.len() implies d[i] != '\0' by {
            if i < d.len() - 1 {
                assert(d[i] == decimal(n / 10)[i]);
            }
        }
    }
}

/// Splitting the stored restart arguments at NUL gives back the
/// arguments that restart the watcher (so `resurrect` relaunches it as it
/// was started), when no argument holds a NUL.
pub proof fn lemma_restart_round_trip(watcher_type: Seq<char>, args: WatcherArgs, interval: u64)
    requires
        nul_free(watcher_type, args),
    ensures
        split_on(restart_text(watcher_type, args, interval), '\0') == restart_parts(
            watcher_type,
            args,
            interval,
        ),
{
    let parts = restart_parts(watcher_type, args, interval);
    reveal_strlit("watch");
    reveal_strlit("--interval");
    reveal_strlit("--id");
    reveal_strlit("--project-key");
    reveal_strlit("--script");
    reveal_strlit("--name");
    reveal_strlit("--persistent");
    lemma_decimal_nul_free(interval as nat);
    match args.id {
        Some(id) => lemma_decimal_nul_free(id as nat),
        None => {},
    }
    assert forall|i: int| 0 <= i < parts.len() implies !(#[trigger] parts[i]).contains('\0') by {
        let p = parts[i];
        if p == "watch"@ || p == "--interval"@ || p == "--id"@ || p == "--project-key"@ || p
            == "--script"@ || p == "--name"@ || p == "--persistent"@ {
            lemma_literal_nul_free(p);
        }
    }
    lemma_split_join(parts, '\0');
}

/// The arguments a persistent watcher is restarted with, from its stored
/// text.
pub fn split_restart_args(text: &str) -> (r: Vec<String>)
    ensures
        r@.map_values(|s: String| s@) == split_on(text@, '\0'),
{
    let cs = chars_of(text);
    let pieces = split_chars(&cs, '\0');
    let mut r: Vec<String> = Vec::new();
    let mut i: usize = 0;
    let ghost want = views(pieces@);
    while i < pieces.len()
        invariant
            i <= pieces@.len(),
            want == views(pieces@),
            r@.map_values(|s: String| s@) == want.take(i as int),
        decreases pieces@.len() - i,
    {
        let ghost before = r@.map_values(|s: String| s@);
        r.push(string_from(&pieces[i]));
        assert(r@.map_values(|s: String| s@) =~= before.push(want[i as int]));
        assert(want.take(i + 1) =~= want.take(i as int).push(want[i as int]));
        i = i + 1;
    }
    assert(want.take(i as int) =~= want);
    r
}

// ─── Kinds and requirements ──────────────────────────────────────

/// The kinds of watcher that `watch` runs.
#[derive(Debug, Clone, Copy, PartialEq, Eq, Structural)]
pub enum WatchKind {
    Pipeline,
    PrMerge,
    PrComments,
    Sonarqube,
    Custom,
}

/// The kind named by a watcher type, if it is one.
pub open spec fn watch_kind_of(t: Seq<char>) -> Option<WatchKind> {
    if t == "pipeline"@ {
        Some(WatchKind::Pipeline)
    } else if t == "pr-merge"@ {
        Some(WatchKind::PrMerge)
    } else if t == "pr-comments"@ {
        Some(WatchKind::PrComments)
    } else if t == "sonarqube"@ {
        Some(WatchKind::Sonarqube)
    } else if t == "custom"@ {
        Some(WatchKind::Custom)
    } else {
        None
    }
}

/// The kind named by a watcher type.
pub fn watch_kind(t: &str) -> (k: Option<WatchKind>)
    ensures
        k == watch_kind_of(t@),
{
    if str_eq(t, "pipeline") {
        Some(WatchKind::Pipeline)
    } else if str_eq(t, "pr-merge") {
        Some(WatchKind::PrMerge)
    } else if str_eq(t, "pr-comments") {
        Some(WatchKind::PrComments)
    } else if str_eq(t, "sonarqube") {
        Some(WatchKind::Sonarqube)
    } else if str_eq(t, "custom") {
        Some(WatchKind::Custom)
    } else {
        None
    }
}

/// Why a watcher cannot start: an unknown type, a missing argument (the
/// id, the project key or the script) or AzDo not being configured; the
/// id is checked before AzDo.
pub open spec fn watch_error_of(t: Seq<char>, args: WatcherArgs, azdo: bool) -> Option<Seq<char>> {
    match watch_kind_of(t) {
        None => Some("Unknown watcher type: "@ + t),
        Some(WatchKind::Pipeline) => if args.id is None {
            Some("--id required for pipeline watcher"@)
        } else if !azdo {
            Some("AzDo not configured"@)
        } else {
            None
        },
        Some(WatchKind::PrMerge) => if args.id is None {
            Some("--id required for pr-merge watcher"@)
        } else if !azdo {
            Some("AzDo not configured"@)
        } else {
            None
        },
        Some(WatchKind::PrComments) => if args.id is None {
            Some("--id required for pr-comments watcher"@)
        } else if !azdo {
            Some("AzDo not configured"@)
        } else {
            None
        },
        Some(WatchKind::Sonarqube) => if args.project_key is None {
            Some("--project-key required for sonarqube watcher"@)
        } else {
            None
        },
        Some(WatchKind::Custom) => if args.script is None {
            Some("--script required for custom watcher"@)
        } else {
            None
        },
    }
}

/// Checks that a watcher can start: `Ok` with its kind, or the error
/// message.
pub fn check_watch(t: &str, args: &WatcherArgs, azdo: bool) -> (r: Result<WatchKind, String>)
    ensures
        match r {
            Ok(k) => watch_error_of(t@, *args, azdo) is None && watch_kind_of(t@) == Some(k),
            Err(e) => watch_error_of(t@, *args, azdo) == Some(e@),
        },
{
    match watch_kind(t) {
        None => {
            let mut v: Vec<char> = Vec::new();
            push_str(&mut v, "Unknown watcher type: ");
            push_str(&mut v, t);
            Err(string_from(&v))
        },
        Some(WatchKind::Pipeline) => if args.id.is_none() {
            Err("--id required for pipeline watcher".to_string())
        } else if !azdo {
            Err("AzDo not configured".to_string())
        } else {
            Ok(WatchKind::Pipeline)
        },
        Some(WatchKind::PrMerge) => if args.id.is_none() {
            Err("--id required for pr-merge watcher".to_string())
        } else if !azdo {
            Err("AzDo not configured".to_string())
        } else {
            Ok(WatchKind::PrMerge)
        },
        Some(WatchKind::PrComments) => if args.id.is_none() {
            Err("--id required for pr-comments watcher".to_string())
        } else if !azdo {
            Err("AzDo not configured".to_string())
        } else {
            Ok(WatchKind::PrComments)
        },
        Some(WatchKind::Sonarqube) => if args.project_key.is_none() {
            Err("--project-key required for sonarqube watcher".to_string())
        } else {
            Ok(WatchKind::Sonarqube)
        },
        Some(WatchKind::Custom) => if args.script.is_none() {
            Err("--script required for custom watcher".to_string())
        } else {
            Ok(WatchKind::Custom)
        },
    }
}

// ─── URLs ────────────────────────────────────────────────────────

/// `https://dev.azure.com/{org}/{project}` followed by `tail`, an id and
/// `end`.
pub open spec fn azdo_url(org: Seq<char>, project: Seq<char>, tail: Seq<char>, id: u64, end: Seq<char>) -> Seq<char> {
    "https://dev.azure.com/"@ + org + "/"@ + project + tail + decimal(id as nat) + end
}

fn azdo_url_exec(org: &str, project: &str, tail: &str, id: u64, end: &str) -> (s: String)
    ensures
        s@ == azdo_url(org@, project@, tail@, id, end@),
{
    let mut v: Vec<char> = Vec::new();
    push_str(&mut v, "https://dev.azure.com/");
    push_str(&mut v, org);
    push_str(&mut v, "/");
    push_str(&mut v, project);
    push_str(&mut v, tail);
    push_decimal(&mut v, id);
    push_str(&mut v, end);
    string_from(&v)
}

/// The REST URL of a build's status.
pub fn build_status_url(org: &str, project: &str, build_id: u64) -> (s: String)
    ensures
        s@ == azdo_url(org@, project@, "/_apis/build/builds/"@, build_id, "?api-version=7.1"@),
{
    azdo_url_exec(org, project, "/_apis/build/builds/", build_id, "?api-version=7.1")
}

/// The REST URL of a pull request.
pub fn pr_status_url(org: &str, project: &str, pr_id: u64) -> (s: String)
    ensures
        s@ == azdo_url(org@, project@, "/_apis/git/pullrequests/"@, pr_id, "?api-version=7.1"@),
{
    azdo_url_exec(org, project, "/_apis/git/pullrequests/", pr_id, "?api-version=7.1")
}

/// The REST URL of a pull request's comment threads (the repository is
/// named as the project).
pub fn pr_threads_url(org: &str, project: &str, pr_id: u64) -> (s: String)
    ensures
        s@ == azdo_url(
            org@,
            project@,
            "/_apis/git/repositories/"@ + project@ + "/pullRequests/"@,
            pr_id,
            "/threads?api-version=7.1"@,
        ),
{
    let mut t: Vec<char> = Vec::new();
    push_str(&mut t, "/_apis/git/repositories/");
    push_str(&mut t, project);
    push_str(&mut t, "/pullRequests/");
    let tail = string_from(&t);
    azdo_url_exec(org, project, tail.as_str(), pr_id, "/threads?api-version=7.1")
}

/// The SonarQube API path of a project's quality gate (for a pull request
/// when given).
pub open spec fn sonar_path_of(project_key: Seq<char>, pr: Option<u64>) -> Seq<char> {
    match pr {
        Some(id) => "/api/qualitygates/project_status?projectKey="@ + project_key + "&pullRequest="@
            + decimal(id as nat),
        None => "/api/qualitygates/project_status?projectKey="@ + project_key,
    }
}

/// The SonarQube API path of a project's quality gate.
pub fn sonar_path(project_key: &str, pr: Option<u64>) -> (s: String)
    ensures
        s@ == sonar_path_of(project_key@, pr),
{
    let mut v: Vec<char> = Vec::new();
    push_str(&mut v, "/api/qualitygates/project_status?projectKey=");
    push_str(&mut v, project_key);
    match pr {
        Some(id) => {
            push_str(&mut v, "&pullRequest=");
            push_decimal(&mut v, id);
        },
        None => {},
    }
    string_from(&v)
}

// ─── Notices ─────────────────────────────────────────────────────

/// The notice of a pipeline poll: raised once the build has completed,
/// by its result.
pub open spec fn pipeline_notice_of(
    status: Seq<char>,
    result: Seq<char>,
    build_id: u64,
    org: Seq<char>,
    project: Seq<char>,
) -> Option<NoticeView> {
    if status == "completed"@ {
        let (level, title) = if result == "succeeded"@ {
            ("success"@, "✓ Build #"@ + decimal(build_id as nat) + " succeeded"@)
        } else if result == "failed"@ {
            ("error"@, "✘ Build #"@ + decimal(build_id as nat) + " failed"@)
        } else if result == "canceled"@ {
            ("warn"@, "⊘ Build #"@ + decimal(build_id as nat) + " canceled"@)
        } else {
            ("info"@, "Build #"@ + decimal(build_id as nat) + " completed: "@ + result)
        };
        Some(
            notice_of(
                level,
                title,
                "pipeline"@,
                Some(azdo_url(org, project, "/_build/results?buildId="@, build_id, ""@)),
            ),
        )
    } else {
        None
    }
}

/// The notice of a pipeline poll from the build's status and result.
pub fn pipeline_notice(status: &str, result: &str, build_id: u64, org: &str, project: &str) -> (n:
    Option<Notice>)
    ensures
        notice_view(n) == pipeline_notice_of(status@, result@, build_id, org@, project@),
{
    if !str_eq(status, "completed") {
        return None;
    }
    let (level, title) = if str_eq(result, "succeeded") {
        ("success", with_number("✓ Build #", build_id, " succeeded"))
    } else if str_eq(result, "failed") {
        ("error", with_number("✘ Build #", build_id, " failed"))
    } else if str_eq(result, "canceled") {
        ("warn", with_number("⊘ Build #", build_id, " canceled"))
    } else {
        let mut v: Vec<char> = Vec::new();
        push_str(&mut v, "Build #");
        push_decimal(&mut v, build_id);
        push_str(&mut v, " completed: ");
        push_str(&mut v, result);
        ("info", string_from(&v))
    };
    let link = azdo_url_exec(org, project, "/_build/results?buildId=", build_id, "");
    Some(notice(level, title, "pipeline", Some(link)))
}

/// What a pipeline poll raises: nothing before the build has completed; a
/// completed build that succeeded raises a `success` notice titled
/// `✓ Build #<id> succeeded`, one that failed an `error` notice titled
/// `✘ Build #<id> failed`, one canceled a `warn` notice titled
/// `⊘ Build #<id> canceled`, and any other result an `info` notice that
/// names it; of the completed builds exactly the failed ones raise an
/// `error` notice, and every notice comes from `pipeline` and links to
/// the build's results page.
pub proof fn lemma_pipeline_notices(
    status: Seq<char>,
    result: Seq<char>,
    build_id: u64,
    org: Seq<char>,
    project: Seq<char>,
)
    ensures
        status != "completed"@ ==> pipeline_notice_of(status, result, build_id, org, project) is None,
        pipeline_notice_of("completed"@, "succeeded"@, build_id, org, project) matches Some(n) && n.level
            == "success"@ && n.title == "✓ Build #"@ + decimal(build_id as nat) + " succeeded"@,
        pipeline_notice_of("completed"@, "failed"@, build_id, org, project) matches Some(n) && n.level
            == "error"@ && n.title == "✘ Build #"@ + decimal(build_id as nat) + " failed"@,
        pipeline_notice_of("completed"@, "canceled"@, build_id, org, project) matches Some(n) && n.level
            == "warn"@ && n.title == "⊘ Build #"@ + decimal(build_id as nat) + " canceled"@,
        result != "succeeded"@ && result != "failed"@ && result != "canceled"@ ==> (pipeline_notice_of(
            "completed"@,
            result,
            build_id,
            org,
            project,
        ) matches Some(n) && n.level == "info"@ && n.title == "Build #"@ + decimal(build_id as nat)
            + " completed: "@ + result),
        pipeline_notice_of("completed"@, result, build_id, org, project) matches Some(n) && (n.level
            == "error"@ <==> result == "failed"@) && n.source == "pipeline"@ && n.body is None && n.link
            == Some("https://dev.azure.com/"@ + org + "/"@ + project + "/_build/results?buildId="@ + decimal(
            build_id as nat,
        )),
{
    reveal_strlit("succeeded");
    reveal_strlit("failed");
    reveal_strlit("canceled");
    reveal_strlit("success");
    reveal_strlit("error");
    reveal_strlit("warn");
    reveal_strlit("info");
    assert("succeeded"@ != "failed"@);
    assert("success"@[0] != "error"@[0]);
    assert("warn"@[0] != "error"@[0]);
    assert("info"@[0] != "error"@[0]);
    reveal_strlit("");
    assert("https://dev.azure.com/"@ + org + "/"@ + project + "/_build/results?buildId="@ + decimal(
        build_id as nat,
    ) + ""@ =~= "https://dev.azure.com/"@ + org + "/"@ + project + "/_build/results?buildId="@ + decimal(
        build_id as nat,
    ));
}

/// The link to a pull request.
pub open spec fn pr_link_of(org: Seq<char>, project: Seq<char>, pr_id: u64) -> Seq<char> {
    azdo_url(org, project, "/_git/pullrequest/"@, pr_id, ""@)
}

/// The notice of a PR-merge poll: merged or abandoned, else none.
pub open spec fn pr_merge_notice_of(status: Seq<char>, pr_id: u64, org: Seq<char>, project: Seq<char>) -> Option<
    NoticeView,
> {
    if status == "completed"@ {
        Some(
            notice_of(
                "success"@,
                "✓ PR #"@ + decimal(pr_id as nat) + " merged"@,
                "pr"@,
                Some(pr_link_of(org, project, pr_id)),
            ),
        )
    } else if status == "abandoned"@ {
        Some(
            notice_of(
                "warn"@,
                "⊘ PR #"@ + decimal(pr_id as nat) + " abandoned"@,
                "pr"@,
                Some(pr_link_of(org, project, pr_id)),
            ),
        )
    } else {
        None
    }
}

/// The notice of a PR-merge poll from the PR's status.
pub fn pr_merge_notice(status: &str, pr_id: u64, org: &str, project: &str) -> (n: Option<Notice>)
    ensures
        notice_view(n) == pr_merge_notice_of(status@, pr_id, org@, project@),
{
    if str_eq(status, "completed") {
        let link = azdo_url_exec(org, project, "/_git/pullrequest/", pr_id, "");
        Some(notice("success", with_number("✓ PR #", pr_id, " merged"), "pr", Some(link)))
    } else if str_eq(status, "abandoned") {
        let link = azdo_url_exec(org, project, "/_git/pullrequest/", pr_id, "");
        Some(notice("warn", with_number("⊘ PR #", pr_id, " abandoned"), "pr", Some(link)))
    } else {
        None
    }
}

/// A PR's status that ends the comment watcher.
pub open spec fn pr_finished_of(status: Seq<char>) -> bool {
    status == "completed"@ || status == "abandoned"@
}

/// Whether the PR is closed (merged or abandoned).
pub fn pr_finished(status: &str) -> (b: bool)
    ensures
        b == pr_finished_of(status@),
{
    str_eq(status, "completed") || str_eq(status, "abandoned")
}

/// The notice of a comment poll: raised when the number of threads grew
/// since the last poll (none on the first).
pub open spec fn comments_notice_of(
    last: Option<u64>,
    count: u64,
    pr_id: u64,
    org: Seq<char>,
    project: Seq<char>,
) -> Option<NoticeView> {
    match last {
        Some(prev) => if count > prev {
            Some(
                notice_of(
                    "info"@,
                    "💬 "@ + decimal((count - prev) as nat) + " new comment thread(s) on PR #"@
                        + decimal(pr_id as nat),
                    "pr-review"@,
                    Some(pr_link_of(org, project, pr_id)),
                ),
            )
        } else {
            None
        },
        None => None,
    }
}

/// The notice of a comment poll from the last and current thread counts.
pub fn comments_notice(last: Option<u64>, count: u64, pr_id: u64, org: &str, project: &str) -> (n:
    Option<Notice>)
    ensures
        notice_view(n) == comments_notice_of(last, count, pr_id, org@, project@),
{
    match last {
        Some(prev) => if count > prev {
            let mut v: Vec<char> = Vec::new();
            push_str(&mut v, "💬 ");
            push_decimal(&mut v, count - prev);
            push_str(&mut v, " new comment thread(s) on PR #");
            push_decimal(&mut v, pr_id);
            let link = azdo_url_exec(org, project, "/_git/pullrequest/", pr_id, "");
            Some(notice("info", string_from(&v), "pr-review", Some(link)))
        } else {
            None
        },
        None => None,
    }
}

/// What a SonarQube status raises: a notice for OK (success) or ERROR;
/// other states (or none) keep watching.
pub open spec fn sonar_notice_of(status: Option<Seq<char>>, project_key: Seq<char>) -> Option<NoticeView> {
    match status {
        Some(s) => if s == "OK"@ {
            Some(notice_of("success"@, "✓ SonarQube gate passed: "@ + project_key, "sonarqube"@, None))
        } else if s == "ERROR"@ {
            Some(notice_of("error"@, "✘ SonarQube gate failed: "@ + project_key, "sonarqube"@, None))
        } else {
            None
        },
        None => None,
    }
}

/// What a SonarQube status raises.
pub fn sonar_notice(status: Option<&str>, project_key: &str) -> (n: Option<Notice>)
    ensures
        notice_view(n) == sonar_notice_of(
            match status {
                Some(s) => Some(s@),
                None => None,
            },
            project_key@,
        ),
{
    match status {
        Some(s) => if str_eq(s, "OK") {
            let mut v: Vec<char> = Vec::new();
            push_str(&mut v, "✓ SonarQube gate passed: ");
            push_str(&mut v, project_key);
            Some(notice("success", string_from(&v), "sonarqube", None))
        } else if str_eq(s, "ERROR") {
            let mut v: Vec<char> = Vec::new();
            push_str(&mut v, "✘ SonarQube gate failed: ");
            push_str(&mut v, project_key);
            Some(notice("error", string_from(&v), "sonarqube", None))
        } else {
            None
        },
        None => None,
    }
}

/// What a PR-merge poll raises: a `success` notice titled
/// `✓ PR #<id> merged` once the PR is completed, a `warn` notice titled
/// `⊘ PR #<id> abandoned` once it is abandoned, nothing while it is open.
pub proof fn lemma_pr_merge_notices(status: Seq<char>, pr_id: u64, org: Seq<char>, project: Seq<char>)
    ensures
        pr_merge_notice_of("completed"@, pr_id, org, project) matches Some(n) && n.level == "success"@
            && n.title == "✓ PR #"@ + decimal(pr_id as nat) + " merged"@ && n.source == "pr"@,
        pr_merge_notice_of("abandoned"@, pr_id, org, project) matches Some(n) && n.level == "warn"@
            && n.title == "⊘ PR #"@ + decimal(pr_id as nat) + " abandoned"@ && n.source == "pr"@,
        (pr_merge_notice_of(status, pr_id, org, project) is Some) == (status == "completed"@ || status
            == "abandoned"@),
        (pr_merge_notice_of(status, pr_id, org, project) is Some) == pr_finished_of(status),
{
    reveal_strlit("completed");
    reveal_strlit("abandoned");
    assert("completed"@[0] != "abandoned"@[0]);
}

/// What a comment poll raises: an `info` notice exactly when a previous
/// poll saw fewer threads than now, telling how many threads are new; the
/// first poll raises nothing.
pub proof fn lemma_comment_notices(last: Option<u64>, count: u64, pr_id: u64, org: Seq<char>, project: Seq<char>)
    ensures
        (comments_notice_of(last, count, pr_id, org, project) is Some) == (last matches Some(p) && count > p),
        forall|p: u64|
            last == Some(p) && count > p ==> (#[trigger] comments_notice_of(Some(p), count, pr_id, org, project) matches Some(
                n,
            ) && n.level == "info"@ && n.title == "💬 "@ + decimal((count - p) as nat)
                + " new comment thread(s) on PR #"@ + decimal(pr_id as nat) && n.source == "pr-review"@),
{
}

/// What a SonarQube poll raises: a `success` notice when the quality gate
/// is `OK`, an `error` notice when it is `ERROR` (both naming the
/// project), nothing otherwise.
pub proof fn lemma_sonar_notices(status: Option<Seq<char>>, key: Seq<char>)
    ensures
        sonar_notice_of(Some("OK"@), key) matches Some(n) && n.level == "success"@ && n.title
            == "✓ SonarQube gate passed: "@ + key,
        sonar_notice_of(Some("ERROR"@), key) matches Some(n) && n.level == "error"@ && n.title
            == "✘ SonarQube gate failed: "@ + key,
        (sonar_notice_of(status, key) is Some) == (status == Some("OK"@) || status == Some("ERROR"@)),
{
    reveal_strlit("OK");
    reveal_strlit("ERROR");
    assert("OK"@[0] != "ERROR"@[0]);
}

// ─── Custom scripts ──────────────────────────────────────────────

/// The first line of a text, or nothing.
pub open spec fn first_line_of(s: Seq<char>) -> Seq<char> {
    if lines_of(s).len() > 0 {
        lines_of(s)[0]
    } else {
        seq![]
    }
}

/// What one run of a custom watcher's script leads to.
pub struct ScriptOutcome {
    /// The notice to raise, if any.
    pub notice: Option<Notice>,
    /// The output line to record for the watcher, if any.
    pub output: Option<String>,
    /// Whether the last run succeeded, for the next run.
    pub last_success: Option<bool>,
    /// Whether the watcher stops.
    pub stop: bool,
}

/// What a run of a custom watcher's script leads to. The first line of
/// its output (trimmed) is recorded when not empty. A persistent watcher
/// raises a notice only when success turns into failure or back, and
/// never stops; an ephemeral one raises a notice and stops on the first
/// success, with the rest of the output as body.
pub open spec fn script_outcome_of(
    persistent: bool,
    last: Option<bool>,
    success: bool,
    stdout: Seq<char>,
    stderr: Seq<char>,
) -> (Option<NoticeView>, Option<Seq<char>>, Option<bool>, bool) {
    let first = trim(first_line_of(stdout));
    let output = if first.len() > 0 { Some(first) } else { None };
    if persistent {
        let transitioned = match last {
            Some(prev) => prev != success,
            None => false,
        };
        let n = if !transitioned {
            None
        } else if success {
            Some(
                notice_of(
                    "success"@,
                    if first.len() == 0 { "Service recovered ✓"@ } else { first },
                    "custom"@,
                    None,
                ),
            )
        } else {
            let err = if lines_of(stderr).len() > 0 { lines_of(stderr)[0] } else { "check failed"@ };
            Some(
                notice_of(
                    "error"@,
                    "⚠ "@ + (if first.len() == 0 { err } else { first }),
                    "custom"@,
                    None,
                ),
            )
        };
        (n, output, Some(success), false)
    } else if success {
        let body = if lines_of(stdout).len() > 1 {
            Some(join(lines_of(stdout).skip(1), "\n"@))
        } else {
            None
        };
        (
            Some(
                NoticeView {
                    level: "info"@,
                    title: if first.len() == 0 { "Custom watcher triggered"@ } else { first },
                    body,
                    source: "custom"@,
                    link: None,
                },
            ),
            output,
            last,
            true,
        )
    } else {
        (None, output, last, false)
    }
}

/// What a run of a custom watcher's script leads to, from whether it
/// succeeded and what it printed.
pub fn script_outcome(persistent: bool, last: Option<bool>, success: bool, stdout: &str, stderr: &str) -> (r:
    ScriptOutcome)
    ensures
        (notice_view(r.notice), match r.output {
            Some(o) => Some(o@),
            None => None,
        }, r.last_success, r.stop) == script_outcome_of(persistent, last, success, stdout@, stderr@),
{
    let out_cs = chars_of(stdout);
    let out_lines = lines(&out_cs);
    let first: Vec<char> = if out_lines.len() > 0 {
        trim_chars(&out_lines[0])
    } else {
        trim_chars(&Vec::new())
    };
    proof {
        if views(out_lines@).len() > 0 {
            assert(views(out_lines@)[0] == out_lines@[0]@);
        }
        assert(trim(Seq::<char>::empty()) =~= Seq::<char>::empty()) by {
            reveal_with_fuel(crate::text::trim_start, 1);
            reveal_with_fuel(crate::text::trim_end, 1);
        }
    }
    let ghost first_v = trim(first_line_of(stdout@));
    assert(first@ == first_v);
    let output = if first.len() > 0 { Some(string_from(&first)) } else { None };
    if persistent {
        let transitioned = match last {
            Some(prev) => prev != success,
            None => false,
        };
        let n = if !transitioned {
            None
        } else if success {
            let title = if first.len() == 0 { "Service recovered ✓".to_string() } else { string_from(&first) };
            Some(notice("success", title, "custom", None))
        } else {
            let err_cs = chars_of(stderr);
            let err_lines = lines(&err_cs);
            let mut v: Vec<char> = Vec::new();
            push_str(&mut v, "⚠ ");
            if first.len() == 0 {
                if err_lines.len() > 0 {
                    push_chars(&mut v, &err_lines[0]);
                    assert(views(err_lines@)[0] == err_lines@[0]@);
                } else {
                    push_str(&mut v, "check failed");
                }
            } else {
                push_chars(&mut v, &first);
            }
            Some(notice("error", string_from(&v), "custom", None))
        };
        ScriptOutcome { notice: n, output, last_success: Some(success), stop: false }
    } else if success {
        let body = if out_lines.len() > 1 {
            let mut rest: Vec<Vec<char>> = Vec::new();
            let mut i: usize = 1;
            let ghost ls = views(out_lines@);
            while i < out_lines.len()
                invariant
                    1 <= i <= out_lines@.len(),
                    ls == views(out_lines@),
                    views(rest@) == ls.subrange(1, i as int),
                decreases out_lines@.len() - i,
            {
                let ghost before = views(rest@);
                rest.push(out_lines[i].clone());
                assert(views(rest@) =~= before.push(ls[i as int]));
                assert(ls.subrange(1, i + 1) =~= ls.subrange(1, i as int).push(ls[i as int]));
                i = i + 1;
            }
            assert(ls.subrange(1, i as int) =~= ls.skip(1));
            let mut nl: Vec<char> = Vec::new();
            nl.push('\n');
            proof {
                reveal_strlit("\n");
                assert(nl@ =~= "\n"@);
            }
            Some(string_from(&join_chars(&rest, &nl)))
        } else {
            None
        };
        let title = if first.len() == 0 { "Custom watcher triggered".to_string() } else { string_from(&first) };
        let n = Notice { level: "info".to_string(), title, body, source: "custom".to_string(), link: None };
        ScriptOutcome { notice: Some(n), output, last_success: last, stop: true }
    } else {
        ScriptOutcome { notice: None, output, last_success: last, stop: false }
    }
}

/// A persistent watcher raises a notice exactly when its script's success
/// changed since the run before (none on the first run) and never stops;
/// an ephemeral one raises a notice and stops exactly when the script
/// succeeds.
pub proof fn lemma_script_notices(
    persistent: bool,
    last: Option<bool>,
    success: bool,
    stdout: Seq<char>,
    stderr: Seq<char>,
)
    ensures
        ({
            let (n, _, next, stop) = script_outcome_of(persistent, last, success, stdout, stderr);
            &&& persistent ==> (n is Some <==> (last matches Some(p) && p != success))
            &&& persistent ==> next == Some(success) && !stop
            &&& !persistent ==> (stop <==> success) && (n is Some <==> success) && next == last
        }),
{
}

// ─── Listing, stopping, cleaning up, resurrecting ────────────────

/// The status a watcher is listed with: `dead` when its process is gone
/// though it was running.
pub open spec fn listed_status_of(alive: bool, status: Seq<char>) -> Seq<char> {
    if alive {
        status
    } else if status == "running"@ {
        "dead"@
    } else {
        status
    }
}

/// The status a watcher is listed with.
pub fn listed_status(alive: bool, status: &str) -> (s: String)
    ensures
        s@ == listed_status_of(alive, status@),
{
    if alive {
        status.to_string()
    } else if str_eq(status, "running") {
        "dead".to_string()
    } else {
        status.to_string()
    }
}

/// The line `pilot watchers` prints for a watcher: mode icon, id, listed
/// status, type, the last output when there is one, the pid (`-` without
/// one) and the first 16 bytes of the start time.
pub open spec fn watcher_line_of(w: Watcher, alive: bool) -> Seq<char> {
    let icon = if w.persistent { "🔄"@ } else { "⚡"@ };
    let output = match w.last_output {
        Some(o) => o@,
        None => Seq::<char>::empty(),
    };
    let pid = match w.pid {
        Some(p) => decimal(p as nat),
        None => "-"@,
    };
    "  "@ + icon + " "@ + w.id@ + " ["@ + listed_status_of(alive, w.status@) + "] "@ + w.watcher_type@
        + (if output.len() == 0 { Seq::<char>::empty() } else { " — "@ + output })
        + " (pid: "@ + pid + ", since: "@ + take_bytes(w.started_at@, 16) + ")"@
}

/// The line `pilot watchers` prints for a watcher.
pub fn watcher_line(w: &Watcher, alive: bool) -> (s: String)
    requires
        can_take_bytes(w.started_at@, 16),
    ensures
        s@ == watcher_line_of(*w, alive),
{
    let mut v: Vec<char> = Vec::new();
    push_str(&mut v, "  ");
    push_str(&mut v, if w.persistent { "🔄" } else { "⚡" });
    push_str(&mut v, " ");
    push_str(&mut v, w.id.as_str());
    push_str(&mut v, " [");
    let status = listed_status(alive, w.status.as_str());
    push_str(&mut v, status.as_str());
    push_str(&mut v, "] ");
    push_str(&mut v, w.watcher_type.as_str());
    match &w.last_output {
        Some(o) => {
            let oc = chars_of(o.as_str());
            if oc.len() > 0 {
                push_str(&mut v, " — ");
                push_chars(&mut v, &oc);
            }
        },
        None => {},
    }
    push_str(&mut v, " (pid: ");
    match w.pid {
        Some(p) => push_decimal(&mut v, p as u64),
        None => push_str(&mut v, "-"),
    }
    push_str(&mut v, ", since: ");
    let since = prefix_bytes(w.started_at.as_str(), 16);
    push_str(&mut v, since.as_str());
    push_str(&mut v, ")");
    string_from(&v)
}

/// `k` is the first watcher whose id is exactly `id`.
pub open spec fn is_first_exact(ws: Seq<Watcher>, id: Seq<char>, k: int) -> bool {
    &&& 0 <= k < ws.len()
    &&& ws[k].id@ == id
    &&& forall|j: int| 0 <= j < k ==> (#[trigger] ws[j]).id@ != id
}

/// `k` is the first watcher whose id starts with `id`.
pub open spec fn is_first_prefixed(ws: Seq<Watcher>, id: Seq<char>, k: int) -> bool {
    &&& 0 <= k < ws.len()
    &&& id.is_prefix_of(ws[k].id@)
    &&& forall|j: int| 0 <= j < k ==> !id.is_prefix_of((#[trigger] ws[j]).id@)
}

/// Some watcher's id is exactly `id`.
pub open spec fn has_exact(ws: Seq<Watcher>, id: Seq<char>) -> bool {
    exists|j: int| 0 <= j < ws.len() && (#[trigger] ws[j]).id@ == id
}

/// The watcher that `stop` means: the first whose id is `id`, or, when
/// none is, the first whose id starts with it.
pub open spec fn is_found_watcher(ws: Seq<Watcher>, id: Seq<char>, k: int) -> bool {
    if has_exact(ws, id) {
        is_first_exact(ws, id, k)
    } else {
        is_first_prefixed(ws, id, k)
    }
}

/// The watcher that `stop` means: an exact id wins over a prefix, and
/// among equals the first listed is taken; none when no id is or starts
/// with `id`.
pub fn find_watcher(ws: &Vec<Watcher>, id: &str) -> (r: Option<usize>)
    ensures
        match r {
            Some(k) => is_found_watcher(ws@, id@, k as int),
            None => forall|j: int|
                0 <= j < ws@.len() ==> !((#[trigger] ws@[j]).id@ == id@ || id@.is_prefix_of(ws@[j].id@)),
        },
        has_exact(ws@, id@) ==> (r matches Some(k) && ws@[k as int].id@ == id@),
{
    let mut k: usize = 0;
    while k < ws.len()
        invariant
            k <= ws@.len(),
            forall|j: int| 0 <= j < k ==> (#[trigger] ws@[j]).id@ != id@,
        decreases ws@.len() - k,
    {
        if str_eq(ws[k].id.as_str(), id) {
            return Some(k);
        }
        k = k + 1;
    }
    assert(!has_exact(ws@, id@));
    let pat = chars_of(id);
    let mut k: usize = 0;
    while k < ws.len()
        invariant
            k <= ws@.len(),
            pat@ == id@,
            !has_exact(ws@, id@),
            forall|j: int| 0 <= j < k ==> !id@.is_prefix_of((#[trigger] ws@[j]).id@),
        decreases ws@.len() - k,
    {
        let wid = chars_of(ws[k].id.as_str());
        if starts_with(&wid, &pat) {
            return Some(k);
        }
        k = k + 1;
    }
    assert forall|j: int| 0 <= j < ws@.len() implies !((#[trigger] ws@[j]).id@ == id@ || id@.is_prefix_of(ws@[j].id@)) by {
        if ws@[j].id@ == id@ {
            assert(has_exact(ws@, id@));
        }
    }
    None
}

/// The watchers that `cleanup` removes: running, with no live process
/// (`alive[i]` tells whether watcher `i`'s process lives).
pub fn dead_watchers(ws: &Vec<Watcher>, alive: &Vec<bool>) -> (r: Vec<usize>)
    requires
        ws@.len() == alive@.len(),
    ensures
        forall|k: int| 0 <= k < r@.len() ==> (#[trigger] r@[k]) < ws@.len(),
        forall|k: int, l: int| 0 <= k < l < r@.len() ==> r@[k] < r@[l],
        forall|i: int|
            0 <= i < ws@.len() ==> (r@.contains(i as usize) <==> (!alive@[i] && (#[trigger] ws@[i]).status@
                == "running"@)),
{
    let mut r: Vec<usize> = Vec::new();
    let mut i: usize = 0;
    while i < ws.len()
        invariant
            i <= ws@.len(),
            ws@.len() == alive@.len(),
            forall|k: int| 0 <= k < r@.len() ==> (#[trigger] r@[k]) < i,
            forall|k: int, l: int| 0 <= k < l < r@.len() ==> r@[k] < r@[l],
            forall|j: int|
                0 <= j < i ==> (r@.contains(j as usize) <==> (!alive@[j] && (#[trigger] ws@[j]).status@
                    == "running"@)),
        decreases ws@.len() - i,
    {
        if !alive[i] && str_eq(ws[i].status.as_str(), "running") {
            let ghost old_r = r@;
            r.push(i);
            assert forall|j: int| 0 <= j < i + 1 implies (r@.contains(j as usize) <==> (!alive@[j] && (
            #[trigger] ws@[j]).status@ == "running"@)) by {
                if j < i {
                    if r@.contains(j as usize) {
                        let k = choose|k: int| 0 <= k < r@.len() && r@[k] == j as usize;
                        assert(k < old_r.len());
                        assert(old_r.contains(j as usize));
                    }
                    if old_r.contains(j as usize) {
                        let k = choose|k: int| 0 <= k < old_r.len() && old_r[k] == j as usize;
                        assert(r@[k] == j as usize);
                    }
                } else {
                    assert(r@[r@.len() - 1] == i);
                }
            }
        } else {
            assert forall|j: int| 0 <= j < i + 1 implies (r@.contains(j as usize) <==> (!alive@[j] && (
            #[trigger] ws@[j]).status@ == "running"@)) by {
                if j == i {
                    if r@.contains(j as usize) {
                        let k = choose|k: int| 0 <= k < r@.len() && r@[k] == j as usize;
                        assert(r@[k] < i);
                    }
                }
            }
        }
        i = i + 1;
    }
    r
}

/// What `resurrect` does with a watcher.
#[derive(Debug)]
pub enum Revival {
    /// Leave it as it is.
    Keep,
    /// Delete the entry of an ephemeral watcher that died running.
    Delete,
    /// Mark a persistent watcher with nothing to restart it by as dead.
    MarkDead,
    /// Delete the entry and relaunch with these arguments.
    Restart(Vec<String>),
}

/// What `resurrect` does with a watcher whose process lives or not:
/// ephemeral ones that died running are deleted; dead persistent ones are
/// restarted by their stored arguments, or marked dead without any.
pub open spec fn revival_of(w: Watcher, alive: bool) -> Option<Option<Seq<Seq<char>>>> {
    if !w.persistent {
        if !alive && w.status@ == "running"@ {
            Some(None)
        } else {
            None
        }
    } else if alive {
        None
    } else {
        match w.restart_args {
            Some(a) => if a@.len() > 0 {
                Some(Some(split_on(a@, '\0')))
            } else {
                Some(None)
            },
            None => Some(None),
        }
    }
}

/// What `resurrect` does with a watcher.
pub fn revival(w: &Watcher, alive: bool) -> (r: Revival)
    ensures
        match r {
            Revival::Keep => revival_of(*w, alive) is None,
            Revival::Delete => !w.persistent && revival_of(*w, alive) == Some(None::<Seq<Seq<char>>>),
            Revival::MarkDead => w.persistent && revival_of(*w, alive) == Some(None::<Seq<Seq<char>>>),
            Revival::Restart(args) => revival_of(*w, alive) == Some(
                Some(args@.map_values(|s: String| s@)),
            ),
        },
{
    if !w.persistent {
        if !alive && str_eq(w.status.as_str(), "running") {
            Revival::Delete
        } else {
            Revival::Keep
        }
    } else if alive {
        Revival::Keep
    } else {
        match &w.restart_args {
            Some(a) => if a.as_str().is_empty() {
                Revival::MarkDead
            } else {
                Revival::Restart(split_restart_args(a.as_str()))
            },
            None => Revival::MarkDead,
        }
    }
}

} // verus!
