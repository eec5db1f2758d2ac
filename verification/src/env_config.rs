//! Filling the configuration from `PILOT_*` environment variables.
use vstd::prelude::*;

use crate::config::{clone_strings, str_views, AppConfig, AzdoConfig, AzdoFilters};
use crate::text::str_eq;

verus! {

/// The environment variables that the configuration is filled from, as
/// read (`PILOT_AZDO_ORG`, `PILOT_AZDO_PROJECT`, `PILOT_AZDO_TEAM`,
/// `PILOT_AZDO_AREA`, `PILOT_CODE_PATH`).
#[derive(Debug, Clone)]
pub struct EnvValues {
    pub org: Option<String>,
    pub project: Option<String>,
    pub team: Option<String>,
    pub area: Option<String>,
    pub code_path: Option<String>,
}

/// A variable that is set and not empty.
pub open spec fn usable(e: Option<String>) -> bool {
    e matches Some(s) && s@.len() > 0
}

/// A text field after filling: a usable variable overrides it, otherwise
/// it stays as configured.
pub open spec fn fill(current: Seq<char>, e: Option<String>) -> Seq<char> {
    if usable(e) {
        e->0@
    } else {
        current
    }
}

/// The AzDo section after filling: a usable variable overrides the
/// organization, the project, the team and the area paths (which become
/// that one path); the rest as configured (or defaulted).
pub open spec fn filled_azdo(a: Option<AzdoConfig>, env: EnvValues, r: AzdoConfig) -> bool {
    let org = match a {
        Some(x) => x.organization@,
        None => seq![],
    };
    let project = match a {
        Some(x) => x.project@,
        None => seq![],
    };
    let team = match a {
        Some(x) => match x.team {
            Some(t) => Some(t@),
            None => None,
        },
        None => None,
    };
    let areas = match a {
        Some(x) => str_views(x.filters.area_paths@),
        None => seq![],
    };
    &&& r.organization@ == fill(org, env.org)
    &&& r.project@ == fill(project, env.project)
    &&& match r.team {
        Some(t) => Some(t@),
        None => None,
    } == (if usable(env.team) {
        Some(env.team->0@)
    } else {
        team
    })
    &&& str_views(r.filters.area_paths@) == (if usable(env.area) {
        seq![env.area->0@]
    } else {
        areas
    })
    &&& match a {
        Some(x) => r.filters.iteration == x.filters.iteration && r.filters.states@
            == x.filters.states@,
        None => r.filters.iteration@ == "current"@ && str_views(r.filters.states@) == seq![
            "New"@,
            "Active"@,
            "Resolved"@,
        ],
    }
}

/// The copilot flags after filling: `--add-dir` and the code path are
/// added when the path is set and no `--add-dir` flag is there.
pub open spec fn filled_flags(flags: Seq<Seq<char>>, code: Option<String>) -> Seq<Seq<char>> {
    if usable(code) && !flags.contains("--add-dir"@) {
        flags + seq!["--add-dir"@, code->0@]
    } else {
        flags
    }
}

/// Filling the copilot flags a second time from the same code path adds
/// nothing: at most one `--add-dir` pair is ever added.
pub proof fn lemma_flags_filled_once(flags: Seq<Seq<char>>, code: Option<String>)
    ensures
        filled_flags(filled_flags(flags, code), code) == filled_flags(flags, code),
{
    let once = filled_flags(flags, code);
    if usable(code) && !flags.contains("--add-dir"@) {
        assert(once[flags.len() as int] == "--add-dir"@);
        assert(once.contains("--add-dir"@));
    }
}

/// Filling a text field a second time from the same variable changes
/// nothing.
pub proof fn lemma_fill_twice(current: Seq<char>, e: Option<String>)
    ensures
        fill(fill(current, e), e) == fill(current, e),
{
}

fn is_usable(e: &Option<String>) -> (b: bool)
    ensures
        b == usable(*e),
{
    match e {
        Some(s) => !s.as_str().is_empty(),
        None => false,
    }
}

fn fill_text(current: &String, e: &Option<String>) -> (r: String)
    ensures
        r@ == fill(current@, *e),
{
    if is_usable(e) {
        match e {
            Some(s) => s.clone(),
            None => current.clone(),
        }
    } else {
        current.clone()
    }
}

fn has_flag(flags: &Vec<String>, f: &str) -> (b: bool)
    ensures
        b == str_views(flags@).contains(f@),
{
    let mut i: usize = 0;
    while i < flags.len()
        invariant
            i <= flags@.len(),
            forall|k: int| 0 <= k < i ==> (#[trigger] flags@[k])@ != f@,
        decreases flags@.len() - i,
    {
        if str_eq(flags[i].as_str(), f) {
            assert(str_views(flags@)[i as int] == f@);
            return true;
        }
        i = i + 1;
    }
    assert forall|k: int| 0 <= k < str_views(flags@).len() implies str_views(flags@)[k] != f@ by {
        assert(str_views(flags@)[k] == flags@[k]@);
    }
    false
}

impl AppConfig {
    /// Fill from `PILOT_*` environment variables: set and non-empty, they
    /// override the AzDo organization, project, team and area path; and
    /// `--add-dir` with the code path for Copilot; the AzDo section is
    /// dropped when it still has no project.
    pub fn enrich_from_env(&mut self, env: &EnvValues)
        ensures
            match final(self).azdo {
                Some(a) => a.project@.len() > 0 && filled_azdo(old(self).azdo, *env, a),
                None => forall|a: AzdoConfig|
                    filled_azdo(old(self).azdo, *env, a) ==> a.project@.len() == 0,
            },
            str_views(final(self).copilot.extra_flags@) == filled_flags(
                str_views(old(self).copilot.extra_flags@),
                env.code_path,
            ),
            final(self).copilot.bin == old(self).copilot.bin,
            final(self).copilot.yolo == old(self).copilot.yolo,
            final(self).copilot.default_agent == old(self).copilot.default_agent,
            final(self).copilot.auto_launch == old(self).copilot.auto_launch,
            final(self).copilot.prompt_template == old(self).copilot.prompt_template,
            final(self).copilot.plan_mode == old(self).copilot.plan_mode,
            final(self).keybindings == old(self).keybindings,
            final(self).notify == old(self).notify,
    {
        let base = match &self.azdo {
            Some(a) => AzdoConfig {
                organization: a.organization.clone(),
                project: a.project.clone(),
                team: match &a.team {
                    Some(t) => Some(t.clone()),
                    None => None,
                },
                filters: AzdoFilters {
                    iteration: a.filters.iteration.clone(),
                    states: clone_strings(&a.filters.states),
                    area_paths: clone_strings(&a.filters.area_paths),
                },
            },
            None => AzdoConfig::default(),
        };
        let organization = fill_text(&base.organization, &env.org);
        let project = fill_text(&base.project, &env.project);
        let team = if is_usable(&env.team) {
            match &env.team {
                Some(t) => Some(t.clone()),
                None => None,
            }
        } else {
            base.team
        };
        let area_paths = if is_usable(&env.area) {
            let mut v: Vec<String> = Vec::new();
            match &env.area {
                Some(a) => v.push(a.clone()),
                None => {},
            }
            v
        } else {
            base.filters.area_paths
        };
        proof {
            if usable(env.area) {
                assert(str_views(area_paths@) =~= seq![env.area->0@]);
            }
        }
        let filled = AzdoConfig {
            organization,
            project,
            team,
            filters: AzdoFilters {
                iteration: base.filters.iteration,
                states: base.filters.states,
                area_paths,
            },
        };
        proof {
            if self.azdo is None {
                assert(base.organization@ =~= Seq::<char>::empty());
                assert(base.project@ =~= Seq::<char>::empty());
                assert(str_views(base.filters.area_paths@) =~= Seq::<Seq<char>>::empty());
            } else {
                let a = self.azdo->0;
                assert(str_views(base.filters.area_paths@) == str_views(a.filters.area_paths@));
            }
        }
        assert(filled_azdo(self.azdo, *env, filled));
        let ghost old_flags = str_views(self.copilot.extra_flags@);
        match &env.code_path {
            Some(code) => {
                if !code.as_str().is_empty() && !has_flag(&self.copilot.extra_flags, "--add-dir") {
                    self.copilot.extra_flags.push("--add-dir".to_string());
                    self.copilot.extra_flags.push(code.clone());
                    assert(str_views(self.copilot.extra_flags@) =~= old_flags + seq!["--add-dir"@, code@]);
                }
            },
            None => {},
        }
        let empty_project = filled.project.as_str().is_empty();
        if empty_project {
            self.azdo = None;
        } else {
            self.azdo = Some(filled);
        }
    }
}

} // verus!
