//! Prefix routing of a query over the loaded plugins.
//!
//! Plugins are tried one at a time in registration order. A plugin is asked
//! only if its prefix is a literal prefix of the query, and it is handed the
//! query with that prefix removed. An answer of `None` means "not applicable"
//! and the next plugin is tried; `Some(list)`, even an empty list, ends the
//! search. When no plugin claims the query the result is the empty list.
//!
//! Asking a plugin suspends the caller, so the search is a state machine: the
//! host calls [`route_begin`], performs each [`RouteStep::Ask`] it is handed,
//! and feeds the answer to [`route_on_answer`] until it gets a
//! [`RouteStep::Show`].
use vstd::prelude::*;
use vstd::string::StrSliceExecFns;
use vstd::string::StringExecFns;
use crate::item::ListItem;

verus! {

/// `p` is a literal prefix of `q`.
pub open spec fn is_prefix(p: Seq<char>, q: Seq<char>) -> bool {
    p.len() <= q.len() && q.subrange(0, p.len() as int) == p
}

/// The character sequences of a list of strings.
pub open spec fn views(ps: Seq<String>) -> Seq<Seq<char>> {
    ps.map_values(|p: String| p@)
}

/// The first plugin at or after `from` whose prefix matches `q`.
pub open spec fn first_match(ps: Seq<Seq<char>>, q: Seq<char>, from: nat) -> Option<nat>
    decreases ps.len() - from,
{
    if from >= ps.len() {
        None
    } else if is_prefix(ps[from as int], q) {
        Some(from)
    } else {
        first_match(ps, q, from + 1)
    }
}

/// What the search starting at plugin `from` ends with, when plugin `i`
/// would answer `answers(i)` to the query stripped of its prefix.
pub open spec fn route_outcome(
    ps: Seq<Seq<char>>,
    q: Seq<char>,
    answers: spec_fn(nat) -> Option<Seq<ListItem>>,
    from: nat,
) -> Seq<ListItem>
    decreases ps.len() - from,
{
    if from >= ps.len() {
        Seq::empty()
    } else if is_prefix(ps[from as int], q) && answers(from).is_some() {
        answers(from).unwrap()
    } else {
        route_outcome(ps, q, answers, from + 1)
    }
}

/// The plugins that the search starting at `from` asks, in order.
pub open spec fn route_asked(
    ps: Seq<Seq<char>>,
    q: Seq<char>,
    answers: spec_fn(nat) -> Option<Seq<ListItem>>,
    from: nat,
) -> Seq<nat>
    decreases ps.len() - from,
{
    if from >= ps.len() {
        Seq::empty()
    } else if is_prefix(ps[from as int], q) {
        if answers(from).is_some() {
            seq![from]
        } else {
            seq![from] + route_asked(ps, q, answers, from + 1)
        }
    } else {
        route_asked(ps, q, answers, from + 1)
    }
}

/// What the host is to do next while routing a query.
#[derive(Debug)]
pub enum RouteStep {
    /// Ask plugin `plugin` for its results on `query` (the prefix removed).
    Ask { plugin: usize, query: String },
    /// The search is over: show these results.
    Show(Vec<ListItem>),
}

/// The query stripped of `prefix`, if `prefix` is a literal prefix of it.
pub fn strip_prefix(prefix: &String, query: &String) -> (r: Option<String>)
    ensures
        r.is_some() == is_prefix(prefix@, query@),
        r.is_some() ==> r.unwrap()@ == query@.skip(prefix@.len() as int),
{
    let p = prefix.as_str();
    let q = query.as_str();
    let pl = p.unicode_len();
    let ql = q.unicode_len();
    if pl > ql {
        return None;
    }
    let mut i: usize = 0;
    while i < pl
        invariant
            i <= pl <= ql,
            pl == prefix@.len(),
            ql == query@.len(),
            p@ == prefix@,
            q@ == query@,
            forall|j: int| 0 <= j < i ==> prefix@[j] == query@[j],
        decreases pl - i,
    {
        if p.get_char(i) != q.get_char(i) {
            assert(query@.subrange(0, pl as int)[i as int] != prefix@[i as int]);
            return None;
        }
        i = i + 1;
    }
    assert(query@.subrange(0, pl as int) =~= prefix@);
    let rest = q.substring_char(pl, ql);
    assert(rest@ =~= query@.skip(pl as int));
    Some(String::from_str(rest))
}

/// The step that looks for a plugin at or after `from`.
fn search_from(prefixes: &Vec<String>, query: &String, from: usize) -> (r: RouteStep)
    requires
        from <= prefixes@.len(),
    ensures
        match r {
            RouteStep::Ask { plugin, query: rest } => first_match(views(prefixes@), query@, from as nat)
                == Some(plugin as nat) && plugin < prefixes@.len() && rest@ == query@.skip(prefixes@[plugin as int]@.len() as int),
            RouteStep::Show(items) => first_match(views(prefixes@), query@, from as nat).is_none()
                && items@.len() == 0,
        },
    decreases prefixes@.len() - from,
{
    if from == prefixes.len() {
        return RouteStep::Show(Vec::new());
    }
    match strip_prefix(&prefixes[from], query) {
        Some(rest) => RouteStep::Ask { plugin: from, query: rest },
        None => search_from(prefixes, query, from + 1),
    }
}

/// The first step of routing `query`: ask the first plugin whose prefix
/// matches, or show nothing if none does.
pub fn route_begin(prefixes: &Vec<String>, query: &String) -> (r: RouteStep)
    ensures
        match r {
            RouteStep::Ask { plugin, query: rest } => first_match(views(prefixes@), query@, 0)
                == Some(plugin as nat) && plugin < prefixes@.len() && rest@ == query@.skip(prefixes@[plugin as int]@.len() as int),
            RouteStep::Show(items) => first_match(views(prefixes@), query@, 0).is_none()
                && items@.len() == 0,
        },
{
    search_from(prefixes, query, 0)
}

/// The step after plugin `asked` answered: its list if it claimed the query,
/// else the next plugin whose prefix matches, else nothing.
pub fn route_on_answer(
    prefixes: &Vec<String>,
    query: &String,
    asked: usize,
    answer: Option<Vec<ListItem>>,
) -> (r: RouteStep)
    requires
        asked < prefixes@.len(),
    ensures
        answer.is_some() ==> r == RouteStep::Show(answer.unwrap()),
        answer.is_none() ==> match r {
            RouteStep::Ask { plugin, query: rest } => first_match(
                views(prefixes@),
                query@,
                asked as nat + 1,
            ) == Some(plugin as nat) && plugin < prefixes@.len() && rest@ == query@.skip(
                prefixes@[plugin as int]@.len() as int,
            ),
            RouteStep::Show(items) => first_match(views(prefixes@), query@, asked as nat + 1).is_none()
                && items@.len() == 0,
        },
{
    match answer {
        Some(list) => RouteStep::Show(list),
        None => {
            let n = prefixes.len();
            assert(asked < n);
            search_from(prefixes, query, asked + 1)
        },
    }
}

/// The steps agree with the search as a whole: from `from`, the search asks
/// the plugin that `first_match` picks, ends there if it answers, and
/// otherwise goes on after it; with no match it shows nothing and asks no one.
pub proof fn lemma_step_agrees(
    ps: Seq<Seq<char>>,
    q: Seq<char>,
    answers: spec_fn(nat) -> Option<Seq<ListItem>>,
    from: nat,
)
    ensures
        match first_match(ps, q, from) {
            None => route_outcome(ps, q, answers, from) == Seq::<ListItem>::empty()
                && route_asked(ps, q, answers, from) == Seq::<nat>::empty(),
            Some(i) => from <= i < ps.len() && is_prefix(ps[i as int], q) && if answers(i).is_some() {
                route_outcome(ps, q, answers, from) == answers(i).unwrap()
                    && route_asked(ps, q, answers, from) == seq![i]
            } else {
                route_outcome(ps, q, answers, from) == route_outcome(ps, q, answers, i + 1)
                    && route_asked(ps, q, answers, from) == seq![i] + route_asked(
                    ps,
                    q,
                    answers,
                    i + 1,
                )
            },
        },
    decreases ps.len() - from,
{
    if from < ps.len() && !is_prefix(ps[from as int], q) {
        lemma_step_agrees(ps, q, answers, from + 1);
    }
}

/// Routing never asks a plugin whose prefix is not a literal prefix of the query.
pub proof fn lemma_route_asks_only_matching(
    ps: Seq<Seq<char>>,
    q: Seq<char>,
    answers: spec_fn(nat) -> Option<Seq<ListItem>>,
    from: nat,
)
    ensures
        forall|k: int|
            0 <= k < route_asked(ps, q, answers, from).len() ==> {
                let i = #[trigger] route_asked(ps, q, answers, from)[k];
                i < ps.len() && is_prefix(ps[i as int], q)
            },
    decreases ps.len() - from,
{
    if from < ps.len() {
        lemma_route_asks_only_matching(ps, q, answers, from + 1);
        let rest = route_asked(ps, q, answers, from + 1);
        if is_prefix(ps[from as int], q) && answers(from).is_none() {
            assert forall|k: int|
                0 <= k < route_asked(ps, q, answers, from).len() implies {
                let i = #[trigger] route_asked(ps, q, answers, from)[k];
                i < ps.len() && is_prefix(ps[i as int], q)
            } by {
                if k > 0 {
                    assert(route_asked(ps, q, answers, from)[k] == rest[k - 1]);
                }
            }
        }
    }
}

/// When every matching plugin before `j` answers "not applicable" and the
/// matching plugin `j` answers with a list, routing shows that list and asks
/// no plugin after `j`.
pub proof fn lemma_route_stops_at_first_answer(
    ps: Seq<Seq<char>>,
    q: Seq<char>,
    answers: spec_fn(nat) -> Option<Seq<ListItem>>,
    from: nat,
    j: nat,
)
    requires
        from <= j < ps.len(),
        is_prefix(ps[j as int], q),
        answers(j).is_some(),
        forall|i: nat| from <= i < j && is_prefix(ps[i as int], q) ==> (#[trigger] answers(i)).is_none(),
    ensures
        route_outcome(ps, q, answers, from) == answers(j).unwrap(),
        route_asked(ps, q, answers, from).len() > 0,
        route_asked(ps, q, answers, from).last() == j,
        forall|k: int|
            0 <= k < route_asked(ps, q, answers, from).len() ==> from <= #[trigger] route_asked(
                ps,
                q,
                answers,
                from,
            )[k] <= j,
    decreases j - from,
{
    if from < j {
        lemma_route_stops_at_first_answer(ps, q, answers, from + 1, j);
        let rest = route_asked(ps, q, answers, from + 1);
        if is_prefix(ps[from as int], q) {
            assert(answers(from).is_none());
            assert forall|k: int|
                0 <= k < route_asked(ps, q, answers, from).len() implies from <= #[trigger] route_asked(
                ps,
                q,
                answers,
                from,
            )[k] <= j by {
                if k > 0 {
                    assert(route_asked(ps, q, answers, from)[k] == rest[k - 1]);
                }
            }
        }
    }
}

} // verus!
