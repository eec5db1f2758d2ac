//! The copilot command line: flags, context prompt, session capture.
use vstd::prelude::*;

use crate::config::{str_views, type_label, AppConfig, WorkItem};
use crate::text::{
    chars_of, decimal, free_of, join, join_chars, lemma_replace_absent, lemma_replace_at_start,
    lemma_replace_free_prefix, lemma_replace_mismatch, push_chars, push_decimal, push_str, replace,
    replace_all, string_from, views,
};
use crate::tmux;

verus! {

/// The value that replaces `{id}` in a prompt.
pub open spec fn id_text(id: Option<u64>) -> Seq<char> {
    match id {
        Some(n) => decimal(n as nat),
        None => seq![],
    }
}

/// An optional text, or `fallback` when there is none.
pub open spec fn text_or(o: Option<String>, fallback: Seq<char>) -> Seq<char> {
    match o {
        Some(s) => s@,
        None => fallback,
    }
}

/// The context prompt for `wi`: the placeholders of `template` filled in,
/// double quotes turned into single ones and newlines into ` \n `.
pub open spec fn prompt_text(template: Seq<char>, wi: WorkItem) -> Seq<char> {
    let p1 = replace_all(template, "{type}"@, type_label(wi.work_item_type));
    let p2 = replace_all(p1, "{id}"@, id_text(wi.id));
    let p3 = replace_all(p2, "{title}"@, wi.title@);
    let p4 = replace_all(p3, "{description}"@, text_or(wi.description, "(no description)"@));
    let p5 = replace_all(p4, "{acceptance_criteria}"@, text_or(wi.acceptance_criteria, "(none)"@));
    let p6 = replace_all(p5, "\""@, "'"@);
    replace_all(p6, "\n"@, " \\n "@)
}

/// `s` holds none of `{`, `"` and newline.
pub open spec fn plain_words(s: Seq<char>) -> bool {
    free_of(s, '{') && free_of(s, '"') && free_of(s, '\n')
}

proof fn lemma_plain_join(a: Seq<char>, b: Seq<char>, c: Seq<char>)
    requires
        plain_words(a),
        plain_words(b),
        plain_words(c),
    ensures
        plain_words(a + b + c),
{
    let s = a + b + c;
    assert forall|i: int| 0 <= i < s.len() implies s[i] != '{' && s[i] != '"' && s[i] != '\n' by {
        if i < a.len() {
            assert(s[i] == a[i]);
        } else if i < a.len() + b.len() {
            assert(s[i] == b[i - a.len()]);
        } else {
            assert(s[i] == c[i - a.len() - b.len()]);
        }
    }
}

/// A placeholder other than `{description}` leaves a template whose only
/// `{` opens `{description}` as it is.
proof fn lemma_other_placeholder(pre: Seq<char>, post: Seq<char>, p: Seq<char>, rep: Seq<char>)
    requires
        plain_words(pre),
        plain_words(post),
        p.len() > 1,
        p[0] == '{',
        p[1] != 'd',
    ensures
        replace_all(pre + "{description}"@ + post, p, rep) == pre + "{description}"@ + post,
{
    reveal_strlit("{description}");
    let t = "{description}"@;
    assert(pre + t + post =~= pre + (t + post));
    lemma_replace_free_prefix(pre, t + post, p, rep);
    assert(t.skip(1) =~= seq!['d', 'e', 's', 'c', 'r', 'i', 'p', 't', 'i', 'o', 'n', '}']);
    lemma_replace_mismatch(t, post, p, rep, 1);
}

proof fn lemma_ph_miss(pre: Seq<char>, q: Seq<char>, post: Seq<char>, p: Seq<char>, rep: Seq<char>, k: int)
    requires
        plain_words(pre),
        plain_words(post),
        q.len() > 0,
        free_of(q.skip(1), '{'),
        p.len() > 0,
        p[0] == '{',
        0 <= k < q.len(),
        k < p.len(),
        q[k] != p[k],
    ensures
        replace_all(pre + q + post, p, rep) == pre + q + post,
{
    assert(pre + q + post =~= pre + (q + post));
    lemma_replace_free_prefix(pre, q + post, p, rep);
    lemma_replace_mismatch(q, post, p, rep, k);
}

proof fn lemma_ph_hit(pre: Seq<char>, q: Seq<char>, post: Seq<char>, v: Seq<char>)
    requires
        plain_words(pre),
        plain_words(post),
        q.len() > 0,
        q[0] == '{',
    ensures
        replace_all(pre + q + post, q, v) == pre + v + post,
{
    assert(pre + q + post =~= pre + (q + post));
    lemma_replace_free_prefix(pre, q + post, q, v);
    lemma_replace_at_start(post, q, v);
    lemma_replace_absent(post, q, v);
    assert(pre + (v + post) =~= pre + v + post);
}

proof fn lemma_ph_rest(x: Seq<char>, p: Seq<char>, rep: Seq<char>)
    requires
        plain_words(x),
        p.len() > 0,
        p[0] == '{' || p[0] == '"' || p[0] == '\n',
    ensures
        replace_all(x, p, rep) == x,
{
    lemma_replace_absent(x, p, rep);
}

proof fn lemma_decimal_plain(n: nat)
    ensures
        plain_words(decimal(n)),
    decreases n,
{
    if n >= 10 {
        lemma_decimal_plain(n / 10);
    }
}

/// The value that the prompt puts for a work item's type.
proof fn lemma_type_label_plain(t: crate::config::WorkItemType)
    ensures
        plain_words(type_label(t)),
{
    reveal_strlit("Feature");
    reveal_strlit("User Story");
    reveal_strlit("Bug");
    reveal_strlit("Task");
    reveal_strlit("Free");
}

/// Where the template is a single placeholder between plain text, the
/// prompt puts the work item's value there: its type as `Feature`,
/// `User Story`, `Bug`, `Task` or `Free`; its id in decimal (nothing
/// without one); its title; its description, or `(no description)`
/// without one; its acceptance criteria, or `(none)` without them. (The
/// values are taken plain: no `{`, `"` or newline.)
pub proof fn lemma_prompt_placeholders(pre: Seq<char>, post: Seq<char>, wi: WorkItem)
    requires
        plain_words(pre),
        plain_words(post),
        plain_words(wi.title@),
        wi.description matches Some(d) ==> plain_words(d@),
        wi.acceptance_criteria matches Some(a) ==> plain_words(a@),
    ensures
        prompt_text(pre + "{type}"@ + post, wi) == pre + (match wi.work_item_type {
            crate::config::WorkItemType::Feature => "Feature"@,
            crate::config::WorkItemType::UserStory => "User Story"@,
            crate::config::WorkItemType::Bug => "Bug"@,
            crate::config::WorkItemType::Task => "Task"@,
            crate::config::WorkItemType::Free => "Free"@,
        }) + post,
        prompt_text(pre + "{id}"@ + post, wi) == pre + (match wi.id {
            Some(n) => decimal(n as nat),
            None => Seq::<char>::empty(),
        }) + post,
        prompt_text(pre + "{title}"@ + post, wi) == pre + wi.title@ + post,
        prompt_text(pre + "{description}"@ + post, wi) == pre + (match wi.description {
            Some(d) => d@,
            None => "(no description)"@,
        }) + post,
        prompt_text(pre + "{acceptance_criteria}"@ + post, wi) == pre + (match wi.acceptance_criteria {
            Some(a) => a@,
            None => "(none)"@,
        }) + post,
{
    reveal_strlit("{type}");
    reveal_strlit("{id}");
    reveal_strlit("{title}");
    reveal_strlit("{description}");
    reveal_strlit("{acceptance_criteria}");
    reveal_strlit("\"");
    reveal_strlit("\n");
    reveal_strlit("(no description)");
    reveal_strlit("(none)");
    let ty = "{type}"@;
    let id = "{id}"@;
    let ti = "{title}"@;
    let de = "{description}"@;
    let ac = "{acceptance_criteria}"@;
    let qu = "\""@;
    let nl = "\n"@;
    assert(ty.skip(1) =~= seq!['t', 'y', 'p', 'e', '}']);
    assert(id.skip(1) =~= seq!['i', 'd', '}']);
    assert(ti.skip(1) =~= seq!['t', 'i', 't', 'l', 'e', '}']);
    assert(de.skip(1) =~= seq!['d', 'e', 's', 'c', 'r', 'i', 'p', 't', 'i', 'o', 'n', '}']);
    assert(ac.skip(1) =~= seq![
        'a', 'c', 'c', 'e', 'p', 't', 'a', 'n', 'c', 'e', '_', 'c', 'r', 'i', 't', 'e', 'r', 'i', 'a', '}',
    ]);
    let vty = type_label(wi.work_item_type);
    let vid = id_text(wi.id);
    let vti = wi.title@;
    let vde = text_or(wi.description, "(no description)"@);
    let vac = text_or(wi.acceptance_criteria, "(none)"@);
    lemma_type_label_plain(wi.work_item_type);
    if let Some(n) = wi.id {
        lemma_decimal_plain(n as nat);
    }
    assert(plain_words(vid));
    assert(plain_words(vde)) by {
        if wi.description is None {
            assert(free_of("(no description)"@, '{'));
        }
    }
    assert(plain_words(vac)) by {
        if wi.acceptance_criteria is None {
            assert(free_of("(none)"@, '{'));
        }
    }
    // {type}
    lemma_ph_hit(pre, ty, post, vty);
    lemma_plain_join(pre, vty, post);
    let x = pre + vty + post;
    lemma_ph_rest(x, id, vid);
    lemma_ph_rest(x, ti, vti);
    lemma_ph_rest(x, de, vde);
    lemma_ph_rest(x, ac, vac);
    lemma_ph_rest(x, qu, "'"@);
    lemma_ph_rest(x, nl, " \\n "@);
    // {id}
    lemma_ph_miss(pre, id, post, ty, vty, 1);
    lemma_ph_hit(pre, id, post, vid);
    lemma_plain_join(pre, vid, post);
    let x = pre + vid + post;
    lemma_ph_rest(x, ti, vti);
    lemma_ph_rest(x, de, vde);
    lemma_ph_rest(x, ac, vac);
    lemma_ph_rest(x, qu, "'"@);
    lemma_ph_rest(x, nl, " \\n "@);
    // {title}
    lemma_ph_miss(pre, ti, post, ty, vty, 2);
    lemma_ph_miss(pre, ti, post, id, vid, 1);
    lemma_ph_hit(pre, ti, post, vti);
    lemma_plain_join(pre, vti, post);
    let x = pre + vti + post;
    lemma_ph_rest(x, de, vde);
    lemma_ph_rest(x, ac, vac);
    lemma_ph_rest(x, qu, "'"@);
    lemma_ph_rest(x, nl, " \\n "@);
    // {description}
    lemma_ph_miss(pre, de, post, ty, vty, 1);
    lemma_ph_miss(pre, de, post, id, vid, 1);
    lemma_ph_miss(pre, de, post, ti, vti, 1);
    lemma_ph_hit(pre, de, post, vde);
    lemma_plain_join(pre, vde, post);
    let x = pre + vde + post;
    lemma_ph_rest(x, ac, vac);
    lemma_ph_rest(x, qu, "'"@);
    lemma_ph_rest(x, nl, " \\n "@);
    // {acceptance_criteria}
    lemma_ph_miss(pre, ac, post, ty, vty, 1);
    lemma_ph_miss(pre, ac, post, id, vid, 1);
    lemma_ph_miss(pre, ac, post, ti, vti, 1);
    lemma_ph_miss(pre, ac, post, de, vde, 1);
    lemma_ph_hit(pre, ac, post, vac);
    lemma_plain_join(pre, vac, post);
    let x = pre + vac + post;
    lemma_ph_rest(x, qu, "'"@);
    lemma_ph_rest(x, nl, " \\n "@);
}

/// Where the template has `{description}` between plain text, the prompt
/// has the work item's description there (a plain one), or
/// `(no description)` when it has none.
pub proof fn lemma_prompt_description(pre: Seq<char>, post: Seq<char>, wi: WorkItem)
    requires
        plain_words(pre),
        plain_words(post),
        wi.description matches Some(d) ==> plain_words(d@),
    ensures
        prompt_text(pre + "{description}"@ + post, wi) == pre + (match wi.description {
            Some(d) => d@,
            None => "(no description)"@,
        }) + post,
{
    reveal_strlit("{type}");
    reveal_strlit("{id}");
    reveal_strlit("{title}");
    reveal_strlit("{description}");
    reveal_strlit("{acceptance_criteria}");
    reveal_strlit("\"");
    reveal_strlit("\n");
    reveal_strlit("(no description)");
    let t = pre + "{description}"@ + post;
    let x = text_or(wi.description, "(no description)"@);
    assert(x == match wi.description {
        Some(d) => d@,
        None => "(no description)"@,
    });
    lemma_other_placeholder(pre, post, "{type}"@, type_label(wi.work_item_type));
    lemma_other_placeholder(pre, post, "{id}"@, id_text(wi.id));
    lemma_other_placeholder(pre, post, "{title}"@, wi.title@);
    let d = "{description}"@;
    assert(t =~= pre + (d + post));
    lemma_replace_free_prefix(pre, d + post, d, x);
    lemma_replace_at_start(post, d, x);
    lemma_replace_absent(post, d, x);
    assert(pre + (x + post) =~= pre + x + post);
    assert(plain_words(x)) by {
        if wi.description is None {
            assert(free_of("(no description)"@, '{'));
            assert(free_of("(no description)"@, '"'));
            assert(free_of("(no description)"@, '\n'));
        }
    }
    lemma_plain_join(pre, x, post);
    let p4 = pre + x + post;
    lemma_replace_absent(p4, "{acceptance_criteria}"@, text_or(wi.acceptance_criteria, "(none)"@));
    lemma_replace_absent(p4, "\""@, "'"@);
    lemma_replace_absent(p4, "\n"@, " \\n "@);
}

/// With such a template, the copilot command ends in `-i` and the quoted
/// prompt: `[[PLAN]]` in plan mode, then the template with the work
/// item's description (or `(no description)`) in place of
/// `{description}`.
pub proof fn lemma_command_description(cfg: AppConfig, wi: WorkItem, pre: Seq<char>, post: Seq<char>)
    requires
        cfg.copilot.prompt_template@ == pre + "{description}"@ + post,
        plain_words(pre),
        plain_words(post),
        wi.description matches Some(d) ==> plain_words(d@),
    ensures
        command_parts(cfg, Some(wi)).last() == "\""@ + (if cfg.copilot.plan_mode {
            "[[PLAN]]"@
        } else {
            Seq::<char>::empty()
        }) + pre + (match wi.description {
            Some(d) => d@,
            None => "(no description)"@,
        }) + post + "\""@,
        command_parts(cfg, Some(wi))[command_parts(cfg, Some(wi)).len() - 2] == "-i"@,
{
    lemma_prompt_description(pre, post, wi);
    let x = match wi.description {
        Some(d) => d@,
        None => "(no description)"@,
    };
    assert("\""@ + plan_prefix(cfg) + (pre + x + post) + "\""@ =~= "\""@ + plan_prefix(cfg) + pre + x + post
        + "\""@);
}

/// The flags common to every launch: binary, `--yolo`, `--agent`.
pub open spec fn launch_prefix(cfg: AppConfig) -> Seq<Seq<char>> {
    let base = seq![cfg.copilot.bin@];
    let with_yolo = if cfg.copilot.yolo { base.push("--yolo"@) } else { base };
    match cfg.copilot.default_agent {
        Some(agent) => with_yolo.push("--agent"@).push(agent@),
        None => with_yolo,
    }
}

/// What starts the prompt: `[[PLAN]]` in plan mode, nothing otherwise.
pub open spec fn plan_prefix(cfg: AppConfig) -> Seq<char> {
    if cfg.copilot.plan_mode {
        "[[PLAN]]"@
    } else {
        seq![]
    }
}

/// The binary, the common flags and the extra flags, as every launch
/// (a resumed one too) starts.
pub open spec fn launch_flags(cfg: AppConfig) -> Seq<Seq<char>> {
    launch_prefix(cfg) + str_views(cfg.copilot.extra_flags@)
}

/// The words of the copilot command for `work_item`; in plan mode the
/// quoted prompt starts with `[[PLAN]]`.
pub open spec fn command_parts(cfg: AppConfig, work_item: Option<WorkItem>) -> Seq<Seq<char>> {
    let flags = launch_flags(cfg);
    match work_item {
        Some(wi) => flags.push("-i"@).push(
            "\""@ + plan_prefix(cfg) + prompt_text(cfg.copilot.prompt_template@, wi) + "\""@,
        ),
        None => flags,
    }
}

/// The copilot command for `work_item`, words joined by spaces.
pub open spec fn command_text(cfg: AppConfig, work_item: Option<WorkItem>) -> Seq<char> {
    join(command_parts(cfg, work_item), " "@)
}

/// The command that resumes the copilot session `session_id`: the flags
/// of every launch, extra flags included, then `--resume=`.
pub open spec fn resume_text(cfg: AppConfig, session_id: Seq<char>) -> Seq<char> {
    join(launch_flags(cfg).push("--resume="@ + session_id), " "@)
}

/// What runs before the copilot command in `wrap_with_session_capture`.
pub open spec fn capture_before() -> Seq<char> {
    "_PILOT_PRE=$(ls ~/.copilot/session-state 2>/dev/null|sort); "@
}

/// What runs after the copilot command in `wrap_with_session_capture`.
pub open spec fn capture_after() -> Seq<char> {
    "; _PILOT_POST=$(comm -13 <(echo \"$_PILOT_PRE\") <(ls ~/.copilot/session-state 2>/dev/null|sort)|head -1); [ -n \"$_PILOT_POST\" ] && pilot session-link \"$(tmux display-message -p '#S')\" \"$(tmux display-message -p '#W')\" \"$_PILOT_POST\" 2>/dev/null; unset _PILOT_PRE _PILOT_POST 2>/dev/null"@
}

fn replace_str(s: &Vec<char>, pat: &str, rep: &Vec<char>) -> (r: Vec<char>)
    requires
        pat@.len() > 0,
    ensures
        r@ == replace_all(s@, pat@, rep@),
{
    let p = chars_of(pat);
    replace(s, &p, rep)
}

/// The context prompt from a template and work item.
fn build_prompt(template: &str, wi: &WorkItem) -> (r: Vec<char>)
    ensures
        r@ == prompt_text(template@, *wi),
{
    proof {
        reveal_strlit("{type}");
        reveal_strlit("{id}");
        reveal_strlit("{title}");
        reveal_strlit("{description}");
        reveal_strlit("{acceptance_criteria}");
        reveal_strlit("\"");
        reveal_strlit("\n");
    }
    let mut p = chars_of(template);
    p = replace_str(&p, "{type}", &chars_of(wi.work_item_type.name()));
    let mut id: Vec<char> = Vec::new();
    if let Some(n) = wi.id {
        push_decimal(&mut id, n);
    }
    assert(id@ =~= id_text(wi.id));
    p = replace_str(&p, "{id}", &id);
    p = replace_str(&p, "{title}", &chars_of(wi.title.as_str()));
    let desc = match &wi.description {
        Some(d) => chars_of(d.as_str()),
        None => chars_of("(no description)"),
    };
    p = replace_str(&p, "{description}", &desc);
    let ac = match &wi.acceptance_criteria {
        Some(a) => chars_of(a.as_str()),
        None => chars_of("(none)"),
    };
    p = replace_str(&p, "{acceptance_criteria}", &ac);
    p = replace_str(&p, "\"", &chars_of("'"));
    p = replace_str(&p, "\n", &chars_of(" \\n "));
    p
}

fn launch_prefix_parts(cfg: &AppConfig) -> (r: Vec<Vec<char>>)
    ensures
        views(r@) == launch_prefix(*cfg),
{
    let mut parts: Vec<Vec<char>> = Vec::new();
    parts.push(chars_of(cfg.copilot.bin.as_str()));
    if cfg.copilot.yolo {
        parts.push(chars_of("--yolo"));
    }
    if let Some(agent) = &cfg.copilot.default_agent {
        parts.push(chars_of("--agent"));
        parts.push(chars_of(agent.as_str()));
    }
    assert(views(parts@) =~= launch_prefix(*cfg));
    parts
}

/// The words every launch starts with: binary, common flags, extra flags.
fn launch_flag_parts(cfg: &AppConfig) -> (r: Vec<Vec<char>>)
    ensures
        views(r@) == launch_flags(*cfg),
{
    let mut parts = launch_prefix_parts(cfg);
    let ghost pre = views(parts@);
    let mut i: usize = 0;
    let extra = &cfg.copilot.extra_flags;
    while i < extra.len()
        invariant
            i <= extra.len(),
            extra == &cfg.copilot.extra_flags,
            views(parts@) == pre + str_views(extra@).take(i as int),
        decreases extra.len() - i,
    {
        let ghost p0 = views(parts@);
        parts.push(chars_of(extra[i].as_str()));
        assert(views(parts@) =~= p0.push(extra@[i as int]@));
        assert(str_views(extra@).take(i + 1) =~= str_views(extra@).take(i as int).push(
            extra@[i as int]@,
        ));
        i = i + 1;
    }
    assert(str_views(extra@).take(extra.len() as int) =~= str_views(extra@));
    parts
}

/// Build the copilot command with all flags: binary, `--yolo` when
/// configured, `--agent`, the extra flags, and `-i` with the quoted
/// context prompt when there is a work item (led by `[[PLAN]]` in plan
/// mode).
pub fn build_command(cfg: &AppConfig, work_item: Option<&WorkItem>) -> (r: String)
    ensures
        r@ == command_text(
            *cfg,
            match work_item {
                Some(w) => Some(*w),
                None => None,
            },
        ),
{
    let mut parts = launch_flag_parts(cfg);
    if let Some(wi) = work_item {
        let prompt = build_prompt(cfg.copilot.prompt_template.as_str(), wi);
        let mut quoted: Vec<char> = Vec::new();
        push_str(&mut quoted, "\"");
        if cfg.copilot.plan_mode {
            push_str(&mut quoted, "[[PLAN]]");
        }
        push_chars(&mut quoted, &prompt);
        push_str(&mut quoted, "\"");
        let ghost p0 = views(parts@);
        parts.push(chars_of("-i"));
        parts.push(quoted);
        assert(views(parts@) =~= p0.push("-i"@).push(
            "\""@ + plan_prefix(*cfg) + prompt_text(cfg.copilot.prompt_template@, *wi) + "\""@,
        ));
    }
    let sep = chars_of(" ");
    let joined = join_chars(&parts, &sep);
    string_from(&joined)
}

/// Build the command that resumes the previous copilot session
/// `session_id`, with the same flags as every launch.
pub fn build_resume_command(cfg: &AppConfig, session_id: &str) -> (r: String)
    ensures
        r@ == resume_text(*cfg, session_id@),
{
    let mut parts = launch_flag_parts(cfg);
    let mut resume: Vec<char> = Vec::new();
    push_str(&mut resume, "--resume=");
    push_str(&mut resume, session_id);
    let ghost p0 = views(parts@);
    parts.push(resume);
    assert(views(parts@) =~= p0.push("--resume="@ + session_id@));
    let sep = chars_of(" ");
    let joined = join_chars(&parts, &sep);
    string_from(&joined)
}

/// Wrap a copilot command so that, after copilot exits, the new copilot
/// session directory is detected and linked to the current tmux
/// session and window through `pilot session-link`.
pub fn wrap_with_session_capture(copilot_cmd: &str) -> (r: String)
    ensures
        r@ == capture_before() + copilot_cmd@ + capture_after(),
{
    let mut v: Vec<char> = Vec::new();
    push_str(&mut v, "_PILOT_PRE=$(ls ~/.copilot/session-state 2>/dev/null|sort); ");
    push_str(&mut v, copilot_cmd);
    push_str(
        &mut v,
        "; _PILOT_POST=$(comm -13 <(echo \"$_PILOT_PRE\") <(ls ~/.copilot/session-state 2>/dev/null|sort)|head -1); [ -n \"$_PILOT_POST\" ] && pilot session-link \"$(tmux display-message -p '#S')\" \"$(tmux display-message -p '#W')\" \"$_PILOT_POST\" 2>/dev/null; unset _PILOT_PRE _PILOT_POST 2>/dev/null",
    );
    string_from(&v)
}

/// The tmux arguments that launch copilot, with session capture, in the
/// currently active pane.
pub fn launch_in_current_pane(cfg: &AppConfig, work_item: Option<&WorkItem>) -> (args: Vec<String>)
    ensures
        str_views(args@) == seq![
            "send-keys"@,
            "-t"@,
            ""@,
            capture_before() + command_text(
                *cfg,
                match work_item {
                    Some(w) => Some(*w),
                    None => None,
                },
            ) + capture_after(),
            "Enter"@,
        ],
{
    let command = build_command(cfg, work_item);
    let wrapped = wrap_with_session_capture(command.as_str());
    tmux::send_keys("", wrapped.as_str())
}

/// The tmux arguments that launch copilot, with session capture, in the
/// pane `target` (`session:window.pane`).
pub fn launch_in_target(cfg: &AppConfig, target: &str, work_item: Option<&WorkItem>) -> (args:
    Vec<String>)
    ensures
        str_views(args@) == seq![
            "send-keys"@,
            "-t"@,
            target@,
            capture_before() + command_text(
                *cfg,
                match work_item {
                    Some(w) => Some(*w),
                    None => None,
                },
            ) + capture_after(),
            "Enter"@,
        ],
{
    let command = build_command(cfg, work_item);
    let wrapped = wrap_with_session_capture(command.as_str());
    tmux::send_keys(target, wrapped.as_str())
}

/// The tmux arguments that resume the copilot session `session_id` in
/// the pane `target` (no capture: the session is already known).
pub fn resume_in_target(cfg: &AppConfig, target: &str, session_id: &str) -> (args: Vec<String>)
    ensures
        str_views(args@) == seq![
            "send-keys"@,
            "-t"@,
            target@,
            resume_text(*cfg, session_id@),
            "Enter"@,
        ],
{
    let command = build_resume_command(cfg, session_id);
    tmux::send_keys(target, command.as_str())
}

} // verus!
