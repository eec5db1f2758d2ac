//! Azure DevOps requests (WIQL queries, REST URLs) and the reading of
//! their replies into work items.
use vstd::prelude::*;

use crate::config::{opt_view, str_views, type_label, AzdoConfig, AzdoFilters, WorkItem, WorkItemType};
use crate::html::{plain_text, strip_html};
use crate::text::{
    chars_eq, chars_of, decimal, join, join_chars, push_chars, push_decimal, push_str,
    string_from, views,
};

verus! {

// ─── Work item types ─────────────────────────────────────────────

/// The work item type that AzDo's type name `s` stands for; names that
/// are not known give `Free`.
pub open spec fn type_of_name(s: Seq<char>) -> WorkItemType {
    if s == "Feature"@ {
        WorkItemType::Feature
    } else if s == "User Story"@ {
        WorkItemType::UserStory
    } else if s == "Bug"@ {
        WorkItemType::Bug
    } else if s == "Task"@ {
        WorkItemType::Task
    } else {
        WorkItemType::Free
    }
}

/// Reads an AzDo work item type name.
pub fn parse_type(s: &str) -> (t: WorkItemType)
    ensures
        t == type_of_name(s@),
{
    let v = chars_of(s);
    if chars_eq(&v, &chars_of("Feature")) {
        WorkItemType::Feature
    } else if chars_eq(&v, &chars_of("User Story")) {
        WorkItemType::UserStory
    } else if chars_eq(&v, &chars_of("Bug")) {
        WorkItemType::Bug
    } else if chars_eq(&v, &chars_of("Task")) {
        WorkItemType::Task
    } else {
        WorkItemType::Free
    }
}

/// Reading the name that a type is shown under gives the type back.
pub proof fn lemma_type_name_round_trip(t: WorkItemType)
    ensures
        type_of_name(type_label(t)) == t,
{
    reveal_strlit("Feature");
    reveal_strlit("User Story");
    reveal_strlit("Bug");
    reveal_strlit("Task");
    reveal_strlit("Free");
    assert("Feature"@.len() == 7 && "User Story"@.len() == 10 && "Bug"@.len() == 3);
    assert("Task"@.len() == 4 && "Free"@.len() == 4);
    assert("Task"@[0] == 'T' && "Free"@[0] == 'F');
    assert("Task"@ != "Free"@);
}

// ─── JSON strings ────────────────────────────────────────────────

/// The lowercase hexadecimal digit for `d < 16`.
pub open spec fn hex_digit(d: nat) -> char {
    if d < 10 {
        crate::text::digit_char(d)
    } else if d == 10 {
        'a'
    } else if d == 11 {
        'b'
    } else if d == 12 {
        'c'
    } else if d == 13 {
        'd'
    } else if d == 14 {
        'e'
    } else {
        'f'
    }
}

/// How serde_json writes the character `c` inside a JSON string.
pub open spec fn json_escape_char(c: char) -> Seq<char> {
    if c == '"' {
        seq!['\\', '"']
    } else if c == '\\' {
        seq!['\\', '\\']
    } else if c == '\x08' {
        seq!['\\', 'b']
    } else if c == '\x0c' {
        seq!['\\', 'f']
    } else if c == '\n' {
        seq!['\\', 'n']
    } else if c == '\r' {
        seq!['\\', 'r']
    } else if c == '\t' {
        seq!['\\', 't']
    } else if (c as u32) < 0x20 {
        seq!['\\', 'u', '0', '0', hex_digit((c as u32 / 16) as nat), hex_digit((c as u32 % 16) as nat)]
    } else {
        seq![c]
    }
}

/// The escaped contents of a JSON string holding `s`.
pub open spec fn json_escape(s: Seq<char>) -> Seq<char>
    decreases s.len(),
{
    if s.len() == 0 {
        seq![]
    } else {
        json_escape(s.drop_last()) + json_escape_char(s.last())
    }
}

fn hex_char(d: u32) -> (c: char)
    requires
        d < 16,
    ensures
        c == hex_digit(d as nat),
{
    if d < 10 {
        crate::text::digit_to_char(d as u64)
    } else if d == 10 {
        'a'
    } else if d == 11 {
        'b'
    } else if d == 12 {
        'c'
    } else if d == 13 {
        'd'
    } else if d == 14 {
        'e'
    } else {
        'f'
    }
}

/// Appends `c` as serde_json writes it inside a JSON string.
fn push_escaped_char(out: &mut Vec<char>, c: char)
    ensures
        final(out)@ == old(out)@ + json_escape_char(c),
{
    let ghost start = out@;
    if c == '"' {
        out.push('\\');
        out.push('"');
    } else if c == '\\' {
        out.push('\\');
        out.push('\\');
    } else if c == '\x08' {
        out.push('\\');
        out.push('b');
    } else if c == '\x0c' {
        out.push('\\');
        out.push('f');
    } else if c == '\n' {
        out.push('\\');
        out.push('n');
    } else if c == '\r' {
        out.push('\\');
        out.push('r');
    } else if c == '\t' {
        out.push('\\');
        out.push('t');
    } else if (c as u32) < 0x20 {
        let n = c as u32;
        out.push('\\');
        out.push('u');
        out.push('0');
        out.push('0');
        out.push(hex_char(n / 16));
        out.push(hex_char(n % 16));
    } else {
        out.push(c);
    }
    assert(out@ =~= start + json_escape_char(c));
}

/// Appends the escaped contents of a JSON string holding `s`: `"` and
/// `\` escaped, the control characters `\b \f \n \r \t` written as
/// such and other control characters below U+0020 as `\u00XX` in
/// lowercase hex, as serde_json writes a `str`.
fn push_json_escaped(out: &mut Vec<char>, s: &str)
    ensures
        final(out)@ == old(out)@ + json_escape(s@),
{
    let ghost start = out@;
    let cs = chars_of(s);
    let mut i: usize = 0;
    while i < cs.len()
        invariant
            i <= cs@.len(),
            cs@ == s@,
            out@ == start + json_escape(cs@.take(i as int)),
        decreases cs@.len() - i,
    {
        let ghost before = out@;
        push_escaped_char(out, cs[i]);
        assert(cs@.take(i + 1).drop_last() =~= cs@.take(i as int));
        assert(out@ =~= start + json_escape(cs@.take(i + 1)));
        i = i + 1;
    }
    assert(cs@.take(cs@.len() as int) =~= s@);
}

// ─── WIQL queries ────────────────────────────────────────────────

/// `s` in single quotes.
pub open spec fn quoted(s: Seq<char>) -> Seq<char> {
    "'"@ + s + "'"@
}

/// The `IN (...)` list of states.
pub open spec fn state_list(states: Seq<Seq<char>>) -> Seq<char> {
    join(states.map_values(|s: Seq<char>| quoted(s)), ", "@)
}

/// The conditions of the query for work items of type `wit`.
pub open spec fn query_conditions(f: AzdoFilters, wit: Seq<char>) -> Seq<Seq<char>> {
    let c0 = seq!["[System.WorkItemType] = "@ + quoted(wit)];
    let c1 = if f.states@.len() > 0 {
        c0.push("[System.State] IN ("@ + state_list(str_views(f.states@)) + ")"@)
    } else {
        c0
    };
    let c2 = c1 + str_views(f.area_paths@).map_values(
        |a: Seq<char>| "[System.AreaPath] UNDER "@ + quoted(a),
    );
    if f.iteration@ == "current"@ {
        c2.push("[System.IterationPath] = @CurrentIteration"@)
    } else if f.iteration@.len() > 0 {
        c2.push("[System.IterationPath] UNDER "@ + quoted(f.iteration@))
    } else {
        c2
    }
}

/// The WIQL query for the work items of type `wit` that the filters admit,
/// newest first.
pub open spec fn work_items_wiql(f: AzdoFilters, wit: Seq<char>) -> Seq<char> {
    "SELECT [System.Id] FROM WorkItems WHERE "@ + join(query_conditions(f, wit), " AND "@)
        + " ORDER BY [System.CreatedDate] DESC"@
}

/// The WIQL query for the open children of `parent_id`.
pub open spec fn child_items_wiql(parent_id: u64) -> Seq<char> {
    "SELECT [System.Id] FROM WorkItems WHERE [System.Parent] = "@ + decimal(parent_id as nat)
        + " AND [System.State] <> 'Closed' AND [System.State] <> 'Removed' ORDER BY [System.WorkItemType], [System.Title]"@
}

fn quoted_chars(s: &str) -> (r: Vec<char>)
    ensures
        r@ == quoted(s@),
{
    let mut v: Vec<char> = Vec::new();
    push_str(&mut v, "'");
    push_str(&mut v, s);
    push_str(&mut v, "'");
    v
}

/// The WIQL query for the work items of type `wit_type` under the
/// configured filters: states, area paths and iteration.
pub fn work_items_query(azdo: &AzdoConfig, wit_type: &str) -> (q: String)
    ensures
        q@ == work_items_wiql(azdo.filters, wit_type@),
{
    let f = &azdo.filters;
    let mut conds: Vec<Vec<char>> = Vec::new();
    let mut c0: Vec<char> = Vec::new();
    push_str(&mut c0, "[System.WorkItemType] = ");
    push_chars(&mut c0, &quoted_chars(wit_type));
    conds.push(c0);
    assert(views(conds@) =~= seq!["[System.WorkItemType] = "@ + quoted(wit_type@)]);
    if f.states.len() > 0 {
        let mut qs: Vec<Vec<char>> = Vec::new();
        let mut i: usize = 0;
        while i < f.states.len()
            invariant
                i <= f.states@.len(),
                views(qs@) == str_views(f.states@).take(i as int).map_values(
                    |s: Seq<char>| quoted(s),
                ),
            decreases f.states@.len() - i,
        {
            let ghost q0 = views(qs@);
            qs.push(quoted_chars(f.states[i].as_str()));
            assert(views(qs@) =~= q0.push(quoted(f.states@[i as int]@)));
            assert(str_views(f.states@).take(i + 1).map_values(|s: Seq<char>| quoted(s))
                =~= str_views(f.states@).take(i as int).map_values(|s: Seq<char>| quoted(s)).push(
                quoted(f.states@[i as int]@),
            ));
            i = i + 1;
        }
        assert(str_views(f.states@).take(f.states@.len() as int) =~= str_views(f.states@));
        let list = join_chars(&qs, &chars_of(", "));
        let mut c1: Vec<char> = Vec::new();
        push_str(&mut c1, "[System.State] IN (");
        push_chars(&mut c1, &list);
        push_str(&mut c1, ")");
        let ghost before = views(conds@);
        conds.push(c1);
        assert(views(conds@) =~= before.push(
            "[System.State] IN ("@ + state_list(str_views(f.states@)) + ")"@,
        ));
    }
    let ghost c1v = views(conds@);
    let mut i: usize = 0;
    while i < f.area_paths.len()
        invariant
            i <= f.area_paths@.len(),
            views(conds@) == c1v + str_views(f.area_paths@).take(i as int).map_values(
                |a: Seq<char>| "[System.AreaPath] UNDER "@ + quoted(a),
            ),
        decreases f.area_paths@.len() - i,
    {
        let mut c: Vec<char> = Vec::new();
        push_str(&mut c, "[System.AreaPath] UNDER ");
        push_chars(&mut c, &quoted_chars(f.area_paths[i].as_str()));
        let ghost before = views(conds@);
        conds.push(c);
        assert(views(conds@) =~= before.push(
            "[System.AreaPath] UNDER "@ + quoted(f.area_paths@[i as int]@),
        ));
        assert(str_views(f.area_paths@).take(i + 1).map_values(
            |a: Seq<char>| "[System.AreaPath] UNDER "@ + quoted(a),
        ) =~= str_views(f.area_paths@).take(i as int).map_values(
            |a: Seq<char>| "[System.AreaPath] UNDER "@ + quoted(a),
        ).push("[System.AreaPath] UNDER "@ + quoted(f.area_paths@[i as int]@)));
        i = i + 1;
    }
    assert(str_views(f.area_paths@).take(f.area_paths@.len() as int) =~= str_views(
        f.area_paths@,
    ));
    let iteration = chars_of(f.iteration.as_str());
    if chars_eq(&iteration, &chars_of("current")) {
        let ghost before = views(conds@);
        conds.push(chars_of("[System.IterationPath] = @CurrentIteration"));
        assert(views(conds@) =~= before.push("[System.IterationPath] = @CurrentIteration"@));
    } else if iteration.len() > 0 {
        let mut c: Vec<char> = Vec::new();
        push_str(&mut c, "[System.IterationPath] UNDER ");
        push_chars(&mut c, &quoted_chars(f.iteration.as_str()));
        let ghost before = views(conds@);
        conds.push(c);
        assert(views(conds@) =~= before.push(
            "[System.IterationPath] UNDER "@ + quoted(f.iteration@),
        ));
    }
    assert(views(conds@) =~= query_conditions(*f, wit_type@));
    let mut q: Vec<char> = Vec::new();
    push_str(&mut q, "SELECT [System.Id] FROM WorkItems WHERE ");
    push_chars(&mut q, &join_chars(&conds, &chars_of(" AND ")));
    push_str(&mut q, " ORDER BY [System.CreatedDate] DESC");
    string_from(&q)
}

/// The WIQL query for the open (not closed, not removed) children of
/// `parent_id`, by type and title.
pub fn child_items_query(parent_id: u64) -> (q: String)
    ensures
        q@ == child_items_wiql(parent_id),
{
    let mut q: Vec<char> = Vec::new();
    push_str(&mut q, "SELECT [System.Id] FROM WorkItems WHERE [System.Parent] = ");
    push_decimal(&mut q, parent_id);
    push_str(
        &mut q,
        " AND [System.State] <> 'Closed' AND [System.State] <> 'Removed' ORDER BY [System.WorkItemType], [System.Title]",
    );
    string_from(&q)
}

/// The body of a WIQL request: the JSON object `{"query": wiql}` as
/// serde_json writes it.
pub fn wiql_body(wiql: &str) -> (b: String)
    ensures
        b@ == "{\"query\":"@ + seq!['"'] + json_escape(wiql@) + seq!['"'] + "}"@,
{
    let mut v: Vec<char> = Vec::new();
    push_str(&mut v, "{\"query\":");
    v.push('"');
    push_json_escaped(&mut v, wiql);
    v.push('"');
    push_str(&mut v, "}");
    assert(v@ =~= "{\"query\":"@ + seq!['"'] + json_escape(wiql@) + seq!['"'] + "}"@);
    string_from(&v)
}

// ─── URLs ────────────────────────────────────────────────────────

/// The project's REST base URL.
pub open spec fn base_url_of(org: Seq<char>, project: Seq<char>) -> Seq<char> {
    "https://dev.azure.com/"@ + org + "/"@ + project
}

/// The REST base URL of the configured project.
pub fn base_url(azdo: &AzdoConfig) -> (u: String)
    ensures
        u@ == base_url_of(azdo.organization@, azdo.project@),
{
    let mut v: Vec<char> = Vec::new();
    push_str(&mut v, "https://dev.azure.com/");
    push_str(&mut v, azdo.organization.as_str());
    push_str(&mut v, "/");
    push_str(&mut v, azdo.project.as_str());
    string_from(&v)
}

/// The URL that WIQL queries are posted to.
pub fn wiql_url(base_url: &str) -> (u: String)
    ensures
        u@ == base_url@ + "/_apis/wit/wiql?api-version=7.1"@,
{
    let mut v: Vec<char> = Vec::new();
    push_str(&mut v, base_url);
    push_str(&mut v, "/_apis/wit/wiql?api-version=7.1");
    string_from(&v)
}

/// The most work items fetched in one batch.
pub const MAX_BATCH: usize = 200;

/// The ids of a WIQL reply that are fetched: the first `MAX_BATCH`.
pub fn batch_ids(ids: &Vec<u64>) -> (r: Vec<u64>)
    ensures
        r@ == if ids@.len() <= MAX_BATCH { ids@ } else { ids@.take(MAX_BATCH as int) },
{
    let mut r: Vec<u64> = Vec::new();
    let mut i: usize = 0;
    while i < ids.len() && i < MAX_BATCH
        invariant
            i <= ids@.len(),
            i <= MAX_BATCH,
            r@ == ids@.take(i as int),
        decreases ids@.len() - i,
    {
        r.push(ids[i]);
        i = i + 1;
        assert(r@ =~= ids@.take(i as int));
    }
    assert(ids@.len() <= MAX_BATCH ==> ids@.take(i as int) =~= ids@);
    r
}

/// The ids as a comma-separated list of decimals.
pub open spec fn id_list(ids: Seq<u64>) -> Seq<char> {
    join(ids.map_values(|id: u64| decimal(id as nat)), ","@)
}

/// The fields requested for each work item.
pub open spec fn work_item_fields() -> Seq<char> {
    "System.Title,System.WorkItemType,System.State,System.AssignedTo,System.Description,Microsoft.VSTS.Common.AcceptanceCriteria,System.Parent"@
}

/// The URL that fetches the work items `ids` with their fields.
pub fn work_items_url(base_url: &str, ids: &Vec<u64>) -> (u: String)
    ensures
        u@ == base_url@ + "/_apis/wit/workitems?ids="@ + id_list(ids@) + "&fields="@
            + work_item_fields() + "&api-version=7.1"@,
{
    let mut parts: Vec<Vec<char>> = Vec::new();
    let mut i: usize = 0;
    while i < ids.len()
        invariant
            i <= ids@.len(),
            views(parts@) == ids@.take(i as int).map_values(|id: u64| decimal(id as nat)),
        decreases ids@.len() - i,
    {
        let mut d: Vec<char> = Vec::new();
        push_decimal(&mut d, ids[i]);
        let ghost p0 = views(parts@);
        parts.push(d);
        assert(views(parts@) =~= p0.push(decimal(ids@[i as int] as nat)));
        assert(ids@.take(i + 1).map_values(|id: u64| decimal(id as nat)) =~= ids@.take(
            i as int,
        ).map_values(|id: u64| decimal(id as nat)).push(decimal(ids@[i as int] as nat)));
        i = i + 1;
    }
    assert(ids@.take(ids@.len() as int) =~= ids@);
    let mut v: Vec<char> = Vec::new();
    push_str(&mut v, base_url);
    push_str(&mut v, "/_apis/wit/workitems?ids=");
    push_chars(&mut v, &join_chars(&parts, &chars_of(",")));
    push_str(&mut v, "&fields=");
    push_str(
        &mut v,
        "System.Title,System.WorkItemType,System.State,System.AssignedTo,System.Description,Microsoft.VSTS.Common.AcceptanceCriteria,System.Parent",
    );
    push_str(&mut v, "&api-version=7.1");
    string_from(&v)
}

/// The URL that lists the projects of `org` (up to 100).
pub fn projects_url(org: &str) -> (u: String)
    ensures
        u@ == "https://dev.azure.com/"@ + org@ + "/_apis/projects?api-version=7.1&$top=100"@,
{
    let mut v: Vec<char> = Vec::new();
    push_str(&mut v, "https://dev.azure.com/");
    push_str(&mut v, org);
    push_str(&mut v, "/_apis/projects?api-version=7.1&$top=100");
    string_from(&v)
}

/// The URL that lists the teams of a project (up to 100).
pub fn teams_url(org: &str, project: &str) -> (u: String)
    ensures
        u@ == base_url_of(org@, project@) + "/_apis/teams?api-version=7.1&$top=100"@,
{
    let mut v: Vec<char> = Vec::new();
    push_str(&mut v, "https://dev.azure.com/");
    push_str(&mut v, org);
    push_str(&mut v, "/");
    push_str(&mut v, project);
    push_str(&mut v, "/_apis/teams?api-version=7.1&$top=100");
    string_from(&v)
}

/// The URL that lists the area tree of a project, three levels deep.
pub fn area_paths_url(org: &str, project: &str) -> (u: String)
    ensures
        u@ == base_url_of(org@, project@)
            + "/_apis/wit/classificationnodes/Areas?$depth=3&api-version=7.1"@,
{
    let mut v: Vec<char> = Vec::new();
    push_str(&mut v, "https://dev.azure.com/");
    push_str(&mut v, org);
    push_str(&mut v, "/");
    push_str(&mut v, project);
    push_str(&mut v, "/_apis/wit/classificationnodes/Areas?$depth=3&api-version=7.1");
    string_from(&v)
}

/// The URL that lists the organizations of the member `member_id`.
pub fn accounts_url(member_id: &str) -> (u: String)
    ensures
        u@ == "https://app.vssps.visualstudio.com/_apis/accounts?memberId="@ + member_id@
            + "&api-version=7.1"@,
{
    let mut v: Vec<char> = Vec::new();
    push_str(&mut v, "https://app.vssps.visualstudio.com/_apis/accounts?memberId=");
    push_str(&mut v, member_id);
    push_str(&mut v, "&api-version=7.1");
    string_from(&v)
}

// ─── Replies ─────────────────────────────────────────────────────

/// An identity in a work item reply.
#[derive(Debug, Clone)]
pub struct IdentityRef {
    pub display_name: Option<String>,
}

/// A work item as the batch reply holds it.
#[derive(Debug, Clone)]
pub struct RawWorkItem {
    pub id: u64,
    pub title: String,
    pub work_item_type: String,
    pub state: String,
    pub assigned_to: Option<IdentityRef>,
    pub description: Option<String>,
    pub acceptance_criteria: Option<String>,
    pub parent: Option<u64>,
}

/// The plain text of optional HTML.
pub open spec fn opt_plain(o: Option<String>) -> Option<Seq<char>> {
    match o {
        Some(h) => Some(plain_text(h@)),
        None => None,
    }
}

/// `wi` is the work item that the reply entry `raw` describes.
pub open spec fn work_item_of(raw: RawWorkItem, wi: WorkItem) -> bool {
    &&& wi.id == Some(raw.id)
    &&& wi.title == raw.title
    &&& wi.work_item_type == type_of_name(raw.work_item_type@)
    &&& wi.state == raw.state
    &&& wi.assigned_to == match raw.assigned_to {
        Some(a) => a.display_name,
        None => None,
    }
    &&& opt_view(wi.description) == opt_plain(raw.description)
    &&& opt_view(wi.acceptance_criteria) == opt_plain(raw.acceptance_criteria)
    &&& wi.parent_id == raw.parent
}

fn plain_opt(o: &Option<String>) -> (r: Option<String>)
    ensures
        opt_view(r) == opt_plain(*o),
{
    match o {
        Some(h) => Some(strip_html(h.as_str())),
        None => None,
    }
}

/// The work item that a batch reply entry describes: its type read from
/// the type name, its description and acceptance criteria as plain text.
pub fn work_item_from_raw(raw: &RawWorkItem) -> (wi: WorkItem)
    ensures
        work_item_of(*raw, wi),
{
    let assigned_to = match &raw.assigned_to {
        Some(a) => crate::config::clone_opt(&a.display_name),
        None => None,
    };
    WorkItem {
        id: Some(raw.id),
        title: raw.title.clone(),
        work_item_type: parse_type(raw.work_item_type.as_str()),
        state: raw.state.clone(),
        assigned_to,
        description: plain_opt(&raw.description),
        acceptance_criteria: plain_opt(&raw.acceptance_criteria),
        parent_id: raw.parent,
    }
}

/// The work items of a batch reply, in its order.
pub fn work_items_from_raw(raws: &Vec<RawWorkItem>) -> (r: Vec<WorkItem>)
    ensures
        r@.len() == raws@.len(),
        forall|i: int| 0 <= i < raws@.len() ==> work_item_of(raws@[i], #[trigger] r@[i]),
{
    let mut r: Vec<WorkItem> = Vec::new();
    let mut i: usize = 0;
    while i < raws.len()
        invariant
            i <= raws@.len(),
            r@.len() == i,
            forall|k: int| 0 <= k < i ==> work_item_of(raws@[k], #[trigger] r@[k]),
        decreases raws@.len() - i,
    {
        r.push(work_item_from_raw(&raws[i]));
        i = i + 1;
    }
    r
}

// ─── Area trees ──────────────────────────────────────────────────

/// A node of the area classification tree.
#[derive(Debug)]
pub struct AreaNode {
    pub name: String,
    pub children: Option<Vec<AreaNode>>,
}

/// The full path of an area named `name` below `prefix`.
pub open spec fn area_path(prefix: Seq<char>, name: Seq<char>) -> Seq<char> {
    if prefix.len() == 0 {
        name
    } else {
        prefix + "\\"@ + name
    }
}

/// The paths of `node` and of everything below it, in pre-order.
pub open spec fn tree_paths(node: AreaNode, prefix: Seq<char>) -> Seq<Seq<char>>
    decreases node, 0int,
{
    let full = area_path(prefix, node.name@);
    seq![full] + match node.children {
        Some(kids) => forest_paths(kids@, full),
        None => seq![],
    }
}

/// The paths of the trees `kids`, one after the other.
pub open spec fn forest_paths(kids: Seq<AreaNode>, prefix: Seq<char>) -> Seq<Seq<char>>
    decreases kids, 1int,
{
    if kids.len() == 0 {
        seq![]
    } else {
        forest_paths(kids.drop_last(), prefix) + tree_paths(kids.last(), prefix)
    }
}

fn collect_paths(node: &AreaNode, prefix: &Vec<char>, out: &mut Vec<Vec<char>>)
    ensures
        views(final(out)@) == views(old(out)@) + tree_paths(*node, prefix@),
    decreases node,
{
    let mut full: Vec<char> = Vec::new();
    if prefix.len() == 0 {
        push_str(&mut full, node.name.as_str());
    } else {
        push_chars(&mut full, prefix);
        push_str(&mut full, "\\");
        push_str(&mut full, node.name.as_str());
    }
    assert(full@ == area_path(prefix@, node.name@));
    let ghost start = views(out@);
    let ghost fv = full@;
    out.push(full.clone());
    assert(views(out@) =~= start + seq![fv]);
    match &node.children {
        Some(kids) => {
            let mut j: usize = 0;
            assert(kids@.take(0) =~= seq![]);
            while j < kids.len()
                invariant
                    j <= kids@.len(),
                    node.children == Some(*kids),
                    full@ == fv,
                    views(out@) == start + seq![fv] + forest_paths(kids@.take(j as int), fv),
                decreases kids@.len() - j,
            {
                let ghost before = views(out@);
                proof {
                    let k = *kids;
                    assert(decreases_to!(*node => node.children));
                    assert(node.children->0 == k);
                    assert(decreases_to!(node.children => node.children->0));
                    assert(decreases_to!(k => k@));
                    assert(decreases_to!(k@ => k@[j as int]));
                }
                collect_paths(&kids[j], &full, out);
                assert(kids@.take(j + 1).drop_last() =~= kids@.take(j as int));
                assert(kids@.take(j + 1).last() == kids@[j as int]);
                assert(views(out@) =~= start + seq![fv] + forest_paths(kids@.take(j + 1), fv));
                j = j + 1;
            }
            assert(kids@.take(kids@.len() as int) =~= kids@);
        },
        None => {
            assert(views(out@) =~= start + tree_paths(*node, prefix@));
        },
    }
}

/// The paths of every area in the tree, `\\`-separated from the root,
/// sorted.
pub fn area_paths(root: &AreaNode) -> (r: Vec<String>)
    ensures
        crate::order::sorted_text(str_views(r@)),
        str_views(r@).to_multiset() == tree_paths(*root, seq![]).to_multiset(),
{
    let mut out: Vec<Vec<char>> = Vec::new();
    let empty: Vec<char> = Vec::new();
    collect_paths(root, &empty, &mut out);
    assert(views(out@) =~= tree_paths(*root, seq![]));
    let mut names: Vec<String> = Vec::new();
    let mut i: usize = 0;
    while i < out.len()
        invariant
            i <= out@.len(),
            str_views(names@) == views(out@).take(i as int),
        decreases out@.len() - i,
    {
        let ghost n0 = str_views(names@);
        names.push(string_from(&out[i]));
        assert(str_views(names@) =~= n0.push(out@[i as int]@));
        assert(views(out@).take(i + 1) =~= views(out@).take(i as int).push(out@[i as int]@));
        i = i + 1;
    }
    assert(views(out@).take(out@.len() as int) =~= views(out@));
    crate::order::sort_strings(names)
}

// ─── curl ────────────────────────────────────────────────────────

/// The curl arguments of an authenticated GET (15 s at most, the PAT as
/// password of an empty user).
pub open spec fn curl_get_args_of(url: Seq<char>, pat: Seq<char>) -> Seq<Seq<char>> {
    seq!["-s"@, "--max-time"@, "15"@, "-u"@, ":"@ + pat, url]
}

/// The curl arguments of an authenticated GET.
pub fn curl_get_args(url: &str, pat: &str) -> (r: Vec<String>)
    ensures
        str_views(r@) == curl_get_args_of(url@, pat@),
{
    let mut r: Vec<String> = Vec::new();
    r.push("-s".to_string());
    r.push("--max-time".to_string());
    r.push("15".to_string());
    r.push("-u".to_string());
    let mut u: Vec<char> = Vec::new();
    push_str(&mut u, ":");
    push_str(&mut u, pat);
    r.push(string_from(&u));
    r.push(url.to_string());
    assert(str_views(r@) =~= curl_get_args_of(url@, pat@));
    r
}

/// The curl arguments of an authenticated JSON POST.
pub open spec fn curl_post_args_of(url: Seq<char>, pat: Seq<char>, body: Seq<char>) -> Seq<Seq<char>> {
    seq![
        "-s"@,
        "--max-time"@,
        "15"@,
        "-X"@,
        "POST"@,
        "-u"@,
        ":"@ + pat,
        "-H"@,
        "Content-Type: application/json"@,
        "-d"@,
        body,
        url,
    ]
}

/// The curl arguments of an authenticated JSON POST.
pub fn curl_post_args(url: &str, pat: &str, body: &str) -> (r: Vec<String>)
    ensures
        str_views(r@) == curl_post_args_of(url@, pat@, body@),
{
    let mut r: Vec<String> = Vec::new();
    r.push("-s".to_string());
    r.push("--max-time".to_string());
    r.push("15".to_string());
    r.push("-X".to_string());
    r.push("POST".to_string());
    r.push("-u".to_string());
    let mut u: Vec<char> = Vec::new();
    push_str(&mut u, ":");
    push_str(&mut u, pat);
    r.push(string_from(&u));
    r.push("-H".to_string());
    r.push("Content-Type: application/json".to_string());
    r.push("-d".to_string());
    r.push(body.to_string());
    r.push(url.to_string());
    assert(str_views(r@) =~= curl_post_args_of(url@, pat@, body@));
    r
}

} // verus!
