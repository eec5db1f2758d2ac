//! Reading the JSON replies that watchers poll, and the notices each
//! reply leads to.
use vstd::prelude::*;

use crate::watch::{
    comments_notice, comments_notice_of, notice_view, pipeline_notice, pipeline_notice_of,
    pr_finished, pr_finished_of, pr_merge_notice, pr_merge_notice_of, sonar_notice, sonar_notice_of,
    Notice,
};

verus! {

/// The string at `key` of the JSON object in `body`: none when `body` is
/// not JSON or the value is missing or not a string.
pub uninterp spec fn json_text_at(body: Seq<char>, key: Seq<char>) -> Option<Seq<char>>;

/// The length of the array at `key` of the JSON value in `body`: the
/// outer none when `body` is not JSON, the inner none when the value is
/// missing or not an array.
pub uninterp spec fn json_array_len_at(body: Seq<char>, key: Seq<char>) -> Option<Option<u64>>;

/// The number of entries of the array at `key`, zero when there is no
/// such array; none when `body` is not JSON.
pub open spec fn json_count_at(body: Seq<char>, key: Seq<char>) -> Option<u64> {
    match json_array_len_at(body, key) {
        Some(Some(n)) => Some(n),
        Some(None) => Some(0),
        None => None,
    }
}

/// The string at `outer`.`inner` of the JSON value in `body`: none when
/// `body` is not JSON or either value is missing, or the inner one is not
/// a string.
pub uninterp spec fn json_text_in(body: Seq<char>, outer: Seq<char>, inner: Seq<char>) -> Option<Seq<char>>;

/// Reads a string field with serde_json
/// (`from_str::<Value>(body)`, then `get(key)` and `as_str`). The
/// contract names the result: it depends on the two texts alone.
#[verifier::external_body]
fn json_text(body: &str, key: &str) -> (r: Option<String>)
    ensures
        match r {
            Some(s) => json_text_at(body@, key@) == Some(s@),
            None => json_text_at(body@, key@) is None,
        },
{
    let v: serde_json::Value = serde_json::from_str(body).ok()?;
    v.get(key).and_then(|x| x.as_str()).map(|s| s.to_string())
}

/// Measures an array field with serde_json (`from_str::<Value>(body)`,
/// then `get(key)`, `as_array` and `len`). The contract names the result:
/// it depends on the two texts alone.
#[verifier::external_body]
fn json_array_len(body: &str, key: &str) -> (r: Option<Option<u64>>)
    ensures
        r == json_array_len_at(body@, key@),
{
    let v: serde_json::Value = serde_json::from_str(body).ok()?;
    Some(v.get(key).and_then(|x| x.as_array()).map(|a| a.len() as u64))
}

/// The number of entries of an array field, zero when there is no such
/// array; none when `body` is not JSON.
fn json_count(body: &str, key: &str) -> (r: Option<u64>)
    ensures
        r == json_count_at(body@, key@),
{
    match json_array_len(body, key) {
        Some(Some(n)) => Some(n),
        Some(None) => Some(0),
        None => None,
    }
}

/// Reads a nested string field with serde_json (`from_str::<Value>(body)`,
/// then `get(outer)`, `get(inner)` and `as_str`). The contract names the
/// result: it depends on the three texts alone.
#[verifier::external_body]
fn json_text_nested(body: &str, outer: &str, inner: &str) -> (r: Option<String>)
    ensures
        match r {
            Some(s) => json_text_in(body@, outer@, inner@) == Some(s@),
            None => json_text_in(body@, outer@, inner@) is None,
        },
{
    let v: serde_json::Value = serde_json::from_str(body).ok()?;
    v.get(outer).and_then(|o| o.get(inner)).and_then(|x| x.as_str()).map(|s| s.to_string())
}

/// An optional text, empty when missing.
pub open spec fn or_empty(t: Option<Seq<char>>) -> Seq<char> {
    match t {
        Some(s) => s,
        None => seq![],
    }
}

fn text_or_empty(t: Option<String>) -> (s: String)
    ensures
        s@ == or_empty(
            match t {
                Some(x) => Some(x@),
                None => None,
            },
        ),
{
    match t {
        Some(x) => x,
        None => {
            let e = String::new();
            assert(e@ =~= seq![]);
            e
        },
    }
}

/// The notice of a pipeline poll from the build's JSON.
pub fn pipeline_poll(body: &str, build_id: u64, org: &str, project: &str) -> (n: Option<Notice>)
    ensures
        notice_view(n) == pipeline_notice_of(
            or_empty(json_text_at(body@, "status"@)),
            or_empty(json_text_at(body@, "result"@)),
            build_id,
            org@,
            project@,
        ),
{
    let status = text_or_empty(json_text(body, "status"));
    let result = text_or_empty(json_text(body, "result"));
    pipeline_notice(status.as_str(), result.as_str(), build_id, org, project)
}

/// The notice of a PR-merge poll from the pull request's JSON.
pub fn pr_merge_poll(body: &str, pr_id: u64, org: &str, project: &str) -> (n: Option<Notice>)
    ensures
        notice_view(n) == pr_merge_notice_of(or_empty(json_text_at(body@, "status"@)), pr_id, org@, project@),
{
    let status = text_or_empty(json_text(body, "status"));
    pr_merge_notice(status.as_str(), pr_id, org, project)
}

/// Whether the pull request's JSON says it is merged or abandoned.
pub fn pr_closed_poll(body: &str) -> (b: bool)
    ensures
        b == pr_finished_of(or_empty(json_text_at(body@, "status"@))),
{
    let status = text_or_empty(json_text(body, "status"));
    pr_finished(status.as_str())
}

/// The notice of a comment poll from the threads' JSON, and the count to
/// compare with next time (unchanged when the reply is not JSON).
pub fn comments_poll(last: Option<u64>, body: &str, pr_id: u64, org: &str, project: &str) -> (r: (
    Option<Notice>,
    Option<u64>,
))
    ensures
        match json_count_at(body@, "value"@) {
            Some(c) => notice_view(r.0) == comments_notice_of(last, c, pr_id, org@, project@) && r.1
                == Some(c),
            None => r.0 is None && r.1 == last,
        },
{
    match json_count(body, "value") {
        Some(c) => (comments_notice(last, c, pr_id, org, project), Some(c)),
        None => (None, last),
    }
}

/// The notice of a SonarQube poll from the quality gate's JSON.
pub fn sonar_poll(body: &str, project_key: &str) -> (n: Option<Notice>)
    ensures
        notice_view(n) == sonar_notice_of(json_text_in(body@, "projectStatus"@, "status"@), project_key@),
{
    let status = json_text_nested(body, "projectStatus", "status");
    match &status {
        Some(s) => sonar_notice(Some(s.as_str()), project_key),
        None => sonar_notice(None, project_key),
    }
}

} // verus!
