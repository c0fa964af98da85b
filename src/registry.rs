//! The plugin registry and the event processor.
//!
//! The host loads every configured plugin once; those that fail to load are
//! left out and the rest keep their configured order. User events are then
//! turned into steps: the host performs each plugin call a step asks for and
//! reports the answer back, and emits the [`PluginEvent`] it is finally given.
//!
//! An activation is recorded in the frequency table before the plugin's own
//! activate call is made, whatever that call later does. If the record cannot
//! be written the activation fails and the plugin is not called.
use vstd::prelude::*;
use crate::activation::{frequency_of, record_spec, ActivationStore, Table};
use crate::item::{Action, Input, ListItem};
use crate::route::{first_match, route_begin, route_on_answer, views, RouteStep};

verus! {

/// The loaded plugins of a list of load attempts: the successes, in order.
pub open spec fn loaded<T>(attempts: Seq<Option<T>>) -> Seq<T>
    decreases attempts.len(),
{
    if attempts.len() == 0 {
        Seq::empty()
    } else {
        let rest = loaded(attempts.drop_last());
        match attempts.last() {
            Some(p) => rest.push(p),
            None => rest,
        }
    }
}

/// Keeps the plugins that loaded, in their configured order, and drops the
/// attempts that failed.
pub fn collect_loaded<T>(attempts: Vec<Option<T>>) -> (r: Vec<T>)
    ensures
        r@ == loaded(attempts@),
{
    let ghost all = attempts@;
    let mut rest = attempts;
    let mut rev: Vec<Option<T>> = Vec::new();
    while rest.len() > 0
        invariant
            rest@.len() + rev@.len() == all.len(),
            rest@ == all.subrange(0, rest@.len() as int),
            forall|i: int| 0 <= i < rev@.len() ==> rev@[i] == all[all.len() - 1 - i],
        decreases rest@.len(),
    {
        let a = rest.pop().unwrap();
        rev.push(a);
    }
    let mut out: Vec<T> = Vec::new();
    let ghost done: int = 0;
    assert(all.subrange(0, 0) =~= Seq::<Option<T>>::empty());
    while rev.len() > 0
        invariant
            done + rev@.len() == all.len(),
            0 <= done <= all.len(),
            forall|i: int| 0 <= i < rev@.len() ==> rev@[i] == all[all.len() - 1 - i],
            out@ == loaded(all.subrange(0, done)),
        decreases rev@.len(),
    {
        let a = rev.pop().unwrap();
        assert(a == all[done]);
        assert(all.subrange(0, done + 1).drop_last() =~= all.subrange(0, done));
        match a {
            Some(p) => out.push(p),
            None => {},
        }
        proof {
            done = done + 1;
        }
    }
    assert(all.subrange(0, all.len() as int) =~= all);
    out
}

/// What the user did.
#[derive(Debug)]
pub enum UiEvent {
    /// The query text changed.
    InputChanged { query: String },
    /// The user chose `item`, produced by plugin `plugin`.
    Activate { plugin: usize, item: ListItem },
    /// The user asked plugin `plugin` to complete `query` from `item`.
    Complete { plugin: usize, query: String, item: ListItem },
}

/// What the host is to show or do.
#[derive(Debug)]
pub enum PluginEvent {
    /// Replace the result list.
    SetList(Vec<ListItem>),
    /// Apply these actions.
    Activate(Vec<Action>),
    /// Replace the input, when the plugin offered a completion.
    SetInput(Option<Input>),
}

/// What the host is to do next for an event.
#[derive(Debug)]
pub enum Step {
    /// Ask plugin `plugin` for results on `query` (its prefix removed), and
    /// report the answer with [`Host::on_query_answer`].
    Query { plugin: usize, query: String },
    /// Call plugin `plugin`'s activate on `item`; its actions become
    /// [`PluginEvent::Activate`].
    Activate { plugin: usize, item: ListItem },
    /// Call plugin `plugin`'s complete on `query` and `item`; its answer
    /// becomes [`PluginEvent::SetInput`].
    Complete { plugin: usize, query: String, item: ListItem },
    /// Hand this to the presentation layer.
    Emit(PluginEvent),
}

/// Why an event could not be processed.
#[derive(Debug, Clone, Copy, PartialEq, Eq)]
pub enum DispatchError {
    /// The event names a plugin that is not loaded.
    UnknownPlugin,
    /// The item's activation count cannot grow any further.
    FrequencyOverflow,
}

/// The loaded plugins, by prefix, and the activation frequency table.
pub struct Host {
    prefixes: Vec<String>,
    store: ActivationStore,
}

/// The step that a routing step stands for.
pub open spec fn step_of_route(r: RouteStep) -> Step {
    match r {
        RouteStep::Ask { plugin, query } => Step::Query { plugin, query },
        RouteStep::Show(items) => Step::Emit(PluginEvent::SetList(items)),
    }
}

/// `s` is the step for searching from plugin `from` on `q` over prefixes `ps`:
/// ask the first match, with its prefix removed, or show nothing.
pub open spec fn is_search_step(s: Step, ps: Seq<Seq<char>>, q: Seq<char>, from: nat) -> bool {
    match s {
        Step::Query { plugin, query } => first_match(ps, q, from) == Some(plugin as nat)
            && query@ == q.skip(ps[plugin as int].len() as int),
        Step::Emit(PluginEvent::SetList(items)) => first_match(ps, q, from).is_none() && items@.len()
            == 0,
        _ => false,
    }
}

fn step_from_route(r: RouteStep) -> (s: Step)
    ensures
        s == step_of_route(r),
{
    match r {
        RouteStep::Ask { plugin, query } => Step::Query { plugin, query },
        RouteStep::Show(items) => Step::Emit(PluginEvent::SetList(items)),
    }
}

impl Host {
    /// The prefixes of the loaded plugins, in registration order.
    pub closed spec fn prefixes(&self) -> Seq<Seq<char>> {
        views(self.prefixes@)
    }

    /// The activation frequency table.
    pub closed spec fn table(&self) -> Table {
        self.store@
    }

    pub closed spec fn wf(&self) -> bool {
        self.store.wf()
    }

    /// A host over plugins with the given prefixes, and an empty table.
    pub fn new(prefixes: Vec<String>) -> (r: Host)
        ensures
            r.wf(),
            r.prefixes() == views(prefixes@),
            r.table() == Table::empty(),
    {
        Host { prefixes, store: ActivationStore::new() }
    }

    /// How many plugins are loaded.
    pub fn plugin_count(&self) -> (r: usize)
        ensures
            r == self.prefixes().len(),
    {
        self.prefixes.len()
    }

    /// How often an item with this title was activated.
    pub fn frequency(&self, title: &String) -> (r: u64)
        requires
            self.wf(),
        ensures
            r as nat == frequency_of(self.table(), title@),
    {
        self.store.frequency(title)
    }

    /// The first step for a user event that happened at time `now`.
    ///
    /// A changed query starts the prefix search. An activation is recorded
    /// in the table and then handed to its plugin. A completion goes to its
    /// plugin unchanged.
    pub fn process_ui_event(&mut self, ev: UiEvent, now: i64) -> (r: Result<Step, DispatchError>)
        requires
            old(self).wf(),
        ensures
            final(self).wf(),
            final(self).prefixes() == old(self).prefixes(),
            match ev {
                UiEvent::InputChanged { query } => final(self).table() == old(self).table() && (
                r matches Ok(s) && is_search_step(s, old(self).prefixes(), query@, 0)),
                UiEvent::Activate { plugin, item } => if plugin >= old(self).prefixes().len() {
                    r == Err::<Step, DispatchError>(DispatchError::UnknownPlugin) && final(self).table()
                        == old(self).table()
                } else if frequency_of(old(self).table(), item.title@) >= u64::MAX {
                    r == Err::<Step, DispatchError>(DispatchError::FrequencyOverflow)
                        && final(self).table() == old(self).table()
                } else {
                    r == Ok::<Step, DispatchError>(Step::Activate { plugin, item })
                        && final(self).table() == record_spec(old(self).table(), item.title@, now)
                },
                UiEvent::Complete { plugin, query, item } => final(self).table() == old(self).table()
                    && if plugin >= old(self).prefixes().len() {
                    r == Err::<Step, DispatchError>(DispatchError::UnknownPlugin)
                } else {
                    r == Ok::<Step, DispatchError>(Step::Complete { plugin, query, item })
                },
            },
    {
        match ev {
            UiEvent::InputChanged { query } => {
                let step = route_begin(&self.prefixes, &query);
                Ok(step_from_route(step))
            },
            UiEvent::Activate { plugin, item } => {
                if plugin >= self.prefixes.len() {
                    return Err(DispatchError::UnknownPlugin);
                }
                let title = item.title.clone();
                match self.store.record(title, now) {
                    Some(_) => Ok(Step::Activate { plugin, item }),
                    None => Err(DispatchError::FrequencyOverflow),
                }
            },
            UiEvent::Complete { plugin, query, item } => {
                if plugin >= self.prefixes.len() {
                    return Err(DispatchError::UnknownPlugin);
                }
                Ok(Step::Complete { plugin, query, item })
            },
        }
    }

    /// The step after plugin `asked` answered the query `query` of a
    /// [`Step::Query`]: its list if it claimed the query, otherwise the
    /// search goes on after it.
    pub fn on_query_answer(&self, query: &String, asked: usize, answer: Option<Vec<ListItem>>) -> (r:
        Step)
        requires
            asked < self.prefixes().len(),
        ensures
            answer.is_some() ==> r == Step::Emit(PluginEvent::SetList(answer.unwrap())),
            answer.is_none() ==> is_search_step(r, self.prefixes(), query@, asked as nat + 1),
    {
        let step = route_on_answer(&self.prefixes, query, asked, answer);
        step_from_route(step)
    }
}

} // verus!
