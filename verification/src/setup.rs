//! The setup wizard: its prompts and answers, the filterable list picker
//! and the AzDo section it saves.
use vstd::prelude::*;

use crate::config::{str_views, AzdoConfig, AzdoFilters};
use crate::lists::{wrap_down, wrap_down_spec, wrap_up};
use crate::text::{chars_of, contains, has_substring, occurs_at, push_chars, push_str, string_from, trim, trim_chars};

verus! {

/// The lower-case form of a text (`str::to_lowercase`, Unicode rules).
pub uninterp spec fn lowercase(s: Seq<char>) -> Seq<char>;

/// Lower-cases a text with std's `str::to_lowercase`. The contract names
/// the result, which depends on the text alone, and states that it is
/// empty exactly when the text is (every character maps to at least one).
#[verifier::external_body]
fn to_lower(s: &str) -> (r: String)
    ensures
        r@ == lowercase(s@),
        r@.len() == 0 <==> s@.len() == 0,
{
    s.to_lowercase()
}

/// The prompt of a text question, with the default in brackets when
/// there is one.
pub open spec fn prompt_of(label: Seq<char>, default: Option<Seq<char>>) -> Seq<char> {
    let d = match default {
        Some(x) => x,
        None => seq![],
    };
    if d.len() == 0 {
        "  "@ + label + " > "@
    } else {
        "  "@ + label + " ["@ + d + "] > "@
    }
}

/// The prompt of a text question.
pub fn prompt_text(label: &str, default: Option<&str>) -> (r: String)
    ensures
        r@ == prompt_of(
            label@,
            match default {
                Some(x) => Some(x@),
                None => None,
            },
        ),
{
    let mut v: Vec<char> = Vec::new();
    push_str(&mut v, "  ");
    push_str(&mut v, label);
    let d = match default {
        Some(x) => x,
        None => "",
    };
    proof {
        reveal_strlit("");
    }
    if d.is_empty() {
        push_str(&mut v, " > ");
    } else {
        push_str(&mut v, " [");
        push_str(&mut v, d);
        push_str(&mut v, "] > ");
    }
    string_from(&v)
}

/// The answer to a text question: the input trimmed, or the default (or
/// nothing) when that is empty.
pub open spec fn answer_of(input: Seq<char>, default: Option<Seq<char>>) -> Seq<char> {
    if trim(input).len() == 0 {
        match default {
            Some(d) => d,
            None => seq![],
        }
    } else {
        trim(input)
    }
}

/// The answer to a text question.
pub fn text_answer(input: &str, default: Option<&str>) -> (r: String)
    ensures
        r@ == answer_of(
            input@,
            match default {
                Some(x) => Some(x@),
                None => None,
            },
        ),
{
    let c = chars_of(input);
    let t = trim_chars(&c);
    if t.len() == 0 {
        match default {
            Some(d) => d.to_string(),
            None => {
                let e = String::new();
                assert(e@ =~= Seq::<char>::empty());
                e
            },
        }
    } else {
        string_from(&t)
    }
}

/// The items (by index, below `n`) whose lower-case form holds the
/// lower-case query.
pub open spec fn matching(items: Seq<String>, q: Seq<char>, n: nat) -> Seq<usize>
    decreases n,
{
    if n == 0 {
        seq![]
    } else {
        let init = matching(items, q, (n - 1) as nat);
        if has_substring(lowercase(items[n - 1]@), q) {
            init.push((n - 1) as usize)
        } else {
            init
        }
    }
}

/// The items a query keeps, in order: all when the lower-cased query is
/// empty (exactly when the query is), else those that hold it, ignoring
/// case.
pub open spec fn filtered_of(query: Seq<char>, items: Seq<String>) -> Seq<usize> {
    if lowercase(query).len() == 0 {
        Seq::new(items.len(), |i: int| i as usize)
    } else {
        matching(items, lowercase(query), items.len())
    }
}

/// Indices listed in increasing order, each below `n`.
pub open spec fn increasing_below(s: Seq<usize>, n: nat) -> bool {
    &&& forall|k: int| 0 <= k < s.len() ==> (#[trigger] s[k]) < n
    &&& forall|k: int, l: int| 0 <= k < l < s.len() ==> s[k] < s[l]
}

proof fn lemma_substring_trans(a: Seq<char>, b: Seq<char>, c: Seq<char>)
    requires
        has_substring(a, b),
        has_substring(b, c),
    ensures
        has_substring(a, c),
{
    let i = choose|i: int| occurs_at(a, b, i);
    let j = choose|j: int| occurs_at(b, c, j);
    assert forall|k: int| 0 <= k < c.len() implies a.subrange(i + j, i + j + c.len())[k] == c[k] by {
        assert(a.subrange(i, i + b.len())[j + k] == b[j + k]);
        assert(b.subrange(j, j + c.len())[k] == c[k]);
    }
    assert(a.subrange(i + j, i + j + c.len()) =~= c);
    assert(occurs_at(a, c, i + j));
}

proof fn lemma_matching_facts(items: Seq<String>, q: Seq<char>, n: nat)
    requires
        n <= items.len(),
        items.len() <= usize::MAX,
    ensures
        increasing_below(matching(items, q, n), n),
        forall|k: int|
            0 <= k < matching(items, q, n).len() ==> has_substring(
                lowercase(items[(#[trigger] matching(items, q, n)[k]) as int]@),
                q,
            ),
        forall|i: int|
            0 <= i < n && has_substring(lowercase((#[trigger] items[i])@), q) ==> matching(
                items,
                q,
                n,
            ).contains(i as usize),
    decreases n,
{
    if n > 0 {
        let m0 = matching(items, q, (n - 1) as nat);
        lemma_matching_facts(items, q, (n - 1) as nat);
        let m = matching(items, q, n);
        assert(((n - 1) as usize) as int == n - 1);
        assert forall|k: int| 0 <= k < m0.len() implies m[k] == m0[k] by {}
        assert forall|k: int| 0 <= k < m.len() implies (#[trigger] m[k]) < n && has_substring(
            lowercase(items[m[k] as int]@),
            q,
        ) by {
            if k < m0.len() {
                assert(m[k] == m0[k]);
            }
        }
        assert forall|k: int, l: int| 0 <= k < l < m.len() implies m[k] < m[l] by {
            if l < m0.len() {
                assert(m[k] == m0[k] && m[l] == m0[l]);
            } else {
                assert(m[k] == m0[k]);
            }
        }
        assert forall|i: int|
            0 <= i < n && has_substring(lowercase((#[trigger] items[i])@), q) implies m.contains(i as usize) by {
            if i < n - 1 {
                assert(m0.contains(i as usize));
                let k = choose|k: int| 0 <= k < m0.len() && m0[k] == i as usize;
                assert(m[k] == m0[k]);
            } else {
                assert(m[m.len() - 1] == (n - 1) as usize);
            }
        }
    }
}

/// A query that holds another (ignoring case) keeps no item the other
/// drops: its result lies within the other's, both listed in increasing
/// order. (The empty query keeps every item, in order.)
pub proof fn lemma_longer_query_keeps_less(short: Seq<char>, long: Seq<char>, items: Seq<String>)
    requires
        has_substring(lowercase(long), lowercase(short)),
        items.len() <= usize::MAX,
    ensures
        increasing_below(filtered_of(short, items), items.len()),
        increasing_below(filtered_of(long, items), items.len()),
        forall|k: int|
            0 <= k < filtered_of(long, items).len() ==> filtered_of(short, items).contains(
                #[trigger] filtered_of(long, items)[k],
            ),
{
    let f1 = filtered_of(short, items);
    let f2 = filtered_of(long, items);
    lemma_matching_facts(items, lowercase(short), items.len());
    lemma_matching_facts(items, lowercase(long), items.len());
    if lowercase(long).len() == 0 {
        let w = choose|w: int| occurs_at(lowercase(long), lowercase(short), w);
        assert(lowercase(short).len() == 0);
    }
    if lowercase(short).len() == 0 {
        assert forall|k: int| 0 <= k < f1.len() implies (#[trigger] f1[k]) as int == k by {}
    }
    if lowercase(long).len() == 0 {
        assert forall|k: int| 0 <= k < f2.len() implies (#[trigger] f2[k]) as int == k by {}
    }
    assert forall|k: int| 0 <= k < f2.len() implies f1.contains(#[trigger] f2[k]) by {
        if lowercase(short).len() == 0 {
            assert(f1[f2[k] as int] == f2[k]);
        } else {
            let i = f2[k] as int;
            lemma_substring_trans(lowercase(items[i]@), lowercase(long), lowercase(short));
        }
    }
}

/// The items a query keeps: all, in order, for an empty query.
pub fn update_filter(query: &str, items: &Vec<String>) -> (r: Vec<usize>)
    ensures
        r@ == filtered_of(query@, items@),
        query@.len() == 0 ==> r@ == Seq::new(items@.len(), |i: int| i as usize),
{
    let mut r: Vec<usize> = Vec::new();
    let mut i: usize = 0;
    let q = to_lower(query);
    if q.as_str().is_empty() {
        while i < items.len()
            invariant
                i <= items@.len(),
                r@ == Seq::new(i as nat, |k: int| k as usize),
            decreases items@.len() - i,
        {
            r.push(i);
            i = i + 1;
            assert(r@ =~= Seq::new(i as nat, |k: int| k as usize));
        }
        return r;
    }
    let qc = chars_of(q.as_str());
    while i < items.len()
        invariant
            i <= items@.len(),
            qc@ == lowercase(query@),
            r@ == matching(items@, lowercase(query@), i as nat),
        decreases items@.len() - i,
    {
        let low = to_lower(items[i].as_str());
        let lc = chars_of(low.as_str());
        if contains(&lc, &qc) {
            r.push(i);
        }
        i = i + 1;
    }
    r
}

/// The search line of the picker.
pub open spec fn picker_search_of(filter: Seq<char>) -> Seq<char> {
    if filter.len() == 0 {
        "🔍 Type to filter..."@
    } else {
        "🔍 "@ + filter
    }
}

/// A key of the list picker.
#[derive(Debug, Clone, Copy, PartialEq, Eq, Structural)]
pub enum PickKey {
    Esc,
    Enter,
    Up,
    Down,
    Backspace,
    Char(char),
    Other,
}

/// What a key of the list picker leads to.
#[derive(Debug, Clone, Copy, PartialEq, Eq, Structural)]
pub enum Picked {
    /// Keep picking.
    Continue,
    /// The item with this index was chosen.
    Chosen(usize),
    /// The picker was cancelled.
    Cancelled,
}

/// The state of the list picker: the filter typed, the items it keeps
/// and the selected row.
pub struct Picker {
    pub filter: Vec<char>,
    pub filtered: Vec<usize>,
    pub selected: Option<usize>,
}

impl Picker {
    /// The picker over `n` items: no filter, all items, the first
    /// selected.
    pub fn new(n: usize) -> (p: Picker)
        ensures
            p.filter@.len() == 0,
            p.filtered@ == Seq::new(n as nat, |i: int| i as usize),
            p.selected == Some(0usize),
    {
        let mut f: Vec<usize> = Vec::new();
        let mut i: usize = 0;
        while i < n
            invariant
                i <= n,
                f@ == Seq::new(i as nat, |k: int| k as usize),
            decreases n - i,
        {
            f.push(i);
            i = i + 1;
            assert(f@ =~= Seq::new(i as nat, |k: int| k as usize));
        }
        Picker { filter: Vec::new(), filtered: f, selected: Some(0) }
    }

    /// The search line.
    pub fn search_line(&self) -> (s: String)
        ensures
            s@ == picker_search_of(self.filter@),
    {
        if self.filter.len() == 0 {
            "🔍 Type to filter...".to_string()
        } else {
            let mut v: Vec<char> = Vec::new();
            push_str(&mut v, "🔍 ");
            push_chars(&mut v, &self.filter);
            string_from(&v)
        }
    }
}

/// A control character in the ASCII range (`char::is_ascii_control`).
pub open spec fn is_ascii_control(c: char) -> bool {
    (c as u32) < 32 || c as u32 == 127
}

/// The selection after the filter changed: the first row, none when
/// nothing is kept.
pub open spec fn first_row(filtered: Seq<usize>) -> Option<usize> {
    if filtered.len() == 0 {
        None
    } else {
        Some(0)
    }
}

/// Handles a key of the list picker over `items`: Esc cancels; Enter
/// chooses the item on the selected row, if any; Up and Down move round
/// the rows; Backspace and printable characters edit the filter, which
/// is applied again with the selection back on the first row.
pub fn pick_key(p: &mut Picker, items: &Vec<String>, key: PickKey) -> (r: Picked)
    requires
        old(p).selected matches Some(s) ==> s < usize::MAX,
    ensures
        key == PickKey::Esc ==> r == Picked::Cancelled && *final(p) == *old(p),
        key == PickKey::Enter ==> *final(p) == *old(p) && r == (match old(p).selected {
            Some(s) => if s < old(p).filtered@.len() {
                Picked::Chosen(old(p).filtered@[s as int])
            } else {
                Picked::Continue
            },
            None => Picked::Continue,
        }),
        key == PickKey::Up ==> r == Picked::Continue && final(p).filter == old(p).filter
            && final(p).filtered == old(p).filtered && final(p).selected == (if old(
            p,
        ).filtered@.len() == 0 {
            old(p).selected
        } else {
            Some(
                (match old(p).selected {
                    Some(s) => if s == 0 {
                        (old(p).filtered@.len() - 1) as usize
                    } else {
                        (s - 1) as usize
                    },
                    None => (old(p).filtered@.len() - 1) as usize,
                }),
            )
        }),
        key == PickKey::Down ==> r == Picked::Continue && final(p).filter == old(p).filter
            && final(p).filtered == old(p).filtered && final(p).selected == (if old(
            p,
        ).filtered@.len() == 0 {
            old(p).selected
        } else {
            Some(
                wrap_down_spec(
                    old(p).filtered@.len() as usize,
                    match old(p).selected {
                        Some(s) => s,
                        None => 0,
                    },
                ),
            )
        }),
        key == PickKey::Backspace ==> r == Picked::Continue && final(p).filter@ == (if old(
            p,
        ).filter@.len() > 0 {
            old(p).filter@.drop_last()
        } else {
            old(p).filter@
        }) && final(p).filtered@ == filtered_of(final(p).filter@, items@) && final(p).selected
            == first_row(final(p).filtered@),
        key matches PickKey::Char(c) ==> r == Picked::Continue && (if is_ascii_control(c) {
            *final(p) == *old(p)
        } else {
            final(p).filter@ == old(p).filter@.push(c) && final(p).filtered@ == filtered_of(
                final(p).filter@,
                items@,
            ) && final(p).selected == first_row(final(p).filtered@)
        }),
        key == PickKey::Other ==> r == Picked::Continue && *final(p) == *old(p),
{
    match key {
        PickKey::Esc => Picked::Cancelled,
        PickKey::Enter => match p.selected {
            Some(s) => if s < p.filtered.len() {
                Picked::Chosen(p.filtered[s])
            } else {
                Picked::Continue
            },
            None => Picked::Continue,
        },
        PickKey::Up => {
            p.selected = wrap_up(p.filtered.len(), p.selected);
            Picked::Continue
        },
        PickKey::Down => {
            p.selected = wrap_down(p.filtered.len(), p.selected);
            Picked::Continue
        },
        PickKey::Backspace => {
            if p.filter.len() > 0 {
                p.filter.pop();
            }
            refilter(p, items);
            Picked::Continue
        },
        PickKey::Char(c) => {
            let code = c as u32;
            if !(code < 32 || code == 127) {
                p.filter.push(c);
                refilter(p, items);
            }
            Picked::Continue
        },
        PickKey::Other => Picked::Continue,
    }
}

fn refilter(p: &mut Picker, items: &Vec<String>)
    ensures
        final(p).filter == old(p).filter,
        final(p).filtered@ == filtered_of(final(p).filter@, items@),
        final(p).selected == first_row(final(p).filtered@),
{
    let q = string_from(&p.filter);
    let f = update_filter(q.as_str(), items);
    p.selected = if f.len() == 0 { None } else { Some(0) };
    p.filtered = f;
}

/// The AzDo section that the wizard saves: the answers, with the New,
/// Active and Resolved states and the chosen area path (if any).
pub fn wizard_azdo(org: String, project: String, team: Option<String>, area: Option<String>, iteration: String) -> (r:
    AzdoConfig)
    ensures
        r.organization == org,
        r.project == project,
        r.team == team,
        r.filters.iteration == iteration,
        str_views(r.filters.states@) == seq!["New"@, "Active"@, "Resolved"@],
        str_views(r.filters.area_paths@) == match area {
            Some(a) => seq![a@],
            None => Seq::<Seq<char>>::empty(),
        },
{
    let mut states: Vec<String> = Vec::new();
    states.push("New".to_string());
    states.push("Active".to_string());
    states.push("Resolved".to_string());
    let mut areas: Vec<String> = Vec::new();
    let ghost av = area;
    match area {
        Some(a) => areas.push(a),
        None => {},
    }
    assert(str_views(states@) =~= seq!["New"@, "Active"@, "Resolved"@]);
    assert(str_views(areas@) =~= match av {
        Some(a) => seq![a@],
        None => Seq::<Seq<char>>::empty(),
    });
    AzdoConfig {
        organization: org,
        project,
        team,
        filters: AzdoFilters { iteration, states, area_paths: areas },
    }
}

} // verus!
