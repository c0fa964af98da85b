//! The activation frequency table: for each item title, how often it was
//! activated and when last.
//!
//! Recording is an upsert: a title seen for the first time gets frequency 1,
//! a known title has its frequency raised by one and its last use replaced.
//! Records are never removed. Calls take `&mut self`, so activations are
//! applied one after another and none is lost.
use vstd::prelude::*;

verus! {

/// The row kept for one title. `last_use` is a time in seconds since the Unix
/// epoch, in UTC.
#[derive(Debug, Clone)]
pub struct ActivationRecord {
    pub title: String,
    pub frequency: u64,
    pub last_use: i64,
}

/// The table as a map from title to (frequency, last use).
pub type Table = Map<Seq<char>, (nat, i64)>;

/// How often `t` was activated according to `m`; 0 for an unknown title.
pub open spec fn frequency_of(m: Table, t: Seq<char>) -> nat {
    if m.dom().contains(t) {
        m[t].0
    } else {
        0
    }
}

/// The table after one activation of `t` at time `at`.
pub open spec fn record_spec(m: Table, t: Seq<char>, at: i64) -> Table {
    m.insert(t, (frequency_of(m, t) + 1, at))
}

/// The table after activating each title of `ts` in turn at time `at`.
pub open spec fn record_all(m: Table, ts: Seq<Seq<char>>, at: i64) -> Table
    decreases ts.len(),
{
    if ts.len() == 0 {
        m
    } else {
        record_spec(record_all(m, ts.drop_last(), at), ts.last(), at)
    }
}

/// How many times `t` occurs in `ts`.
pub open spec fn count_of(ts: Seq<Seq<char>>, t: Seq<char>) -> nat
    decreases ts.len(),
{
    if ts.len() == 0 {
        0
    } else {
        count_of(ts.drop_last(), t) + if ts.last() == t {
            1nat
        } else {
            0nat
        }
    }
}

/// The map that a list of rows denotes; a later row for a title wins.
pub open spec fn table_of(recs: Seq<ActivationRecord>) -> Table
    decreases recs.len(),
{
    if recs.len() == 0 {
        Map::empty()
    } else {
        table_of(recs.drop_last()).insert(
            recs.last().title@,
            (recs.last().frequency as nat, recs.last().last_use),
        )
    }
}

/// No two rows share a title.
pub open spec fn titles_unique(recs: Seq<ActivationRecord>) -> bool {
    forall|i: int, j: int|
        0 <= i < j < recs.len() ==> (#[trigger] recs[i]).title@ != (#[trigger] recs[j]).title@
}

proof fn lemma_row_found(recs: Seq<ActivationRecord>, i: int)
    requires
        titles_unique(recs),
        0 <= i < recs.len(),
    ensures
        table_of(recs).dom().contains(recs[i].title@),
        table_of(recs)[recs[i].title@] == (recs[i].frequency as nat, recs[i].last_use),
    decreases recs.len(),
{
    if i < recs.len() - 1 {
        let d = recs.drop_last();
        assert(d[i] == recs[i]);
        assert(recs[i].title@ != recs[recs.len() - 1].title@);
        lemma_row_found(d, i);
    }
}

proof fn lemma_row_absent(recs: Seq<ActivationRecord>, t: Seq<char>)
    requires
        forall|i: int| 0 <= i < recs.len() ==> (#[trigger] recs[i]).title@ != t,
    ensures
        !table_of(recs).dom().contains(t),
    decreases recs.len(),
{
    if recs.len() > 0 {
        let d = recs.drop_last();
        assert forall|i: int| 0 <= i < d.len() implies (#[trigger] d[i]).title@ != t by {
            assert(d[i] == recs[i]);
        }
        lemma_row_absent(d, t);
    }
}

proof fn lemma_row_updated(recs: Seq<ActivationRecord>, i: int, r: ActivationRecord)
    requires
        titles_unique(recs),
        0 <= i < recs.len(),
        r.title@ == recs[i].title@,
    ensures
        table_of(recs.update(i, r)) == table_of(recs).insert(r.title@, (r.frequency as nat, r.last_use)),
    decreases recs.len(),
{
    let u = recs.update(i, r);
    let d = recs.drop_last();
    if i == recs.len() - 1 {
        assert(u.drop_last() =~= d);
        assert(table_of(u) =~= table_of(recs).insert(r.title@, (r.frequency as nat, r.last_use)));
    } else {
        assert(u.drop_last() =~= d.update(i, r));
        assert(recs[i].title@ != recs[recs.len() - 1].title@);
        assert(titles_unique(d)) by {
            assert forall|a: int, b: int| 0 <= a < b < d.len() implies (#[trigger] d[a]).title@
                != (#[trigger] d[b]).title@ by {
                assert(d[a] == recs[a] && d[b] == recs[b]);
            }
        }
        lemma_row_updated(d, i, r);
        assert(table_of(u) =~= table_of(recs).insert(r.title@, (r.frequency as nat, r.last_use)));
    }
}

/// Activating each title of `ts` in turn raises the frequency of every title
/// by exactly the number of times it occurs in `ts`: no activation is lost
/// and none counts twice.
pub proof fn lemma_frequency_counts_activations(m: Table, ts: Seq<Seq<char>>, at: i64, t: Seq<char>)
    ensures
        frequency_of(record_all(m, ts, at), t) == frequency_of(m, t) + count_of(ts, t),
    decreases ts.len(),
{
    if ts.len() > 0 {
        lemma_frequency_counts_activations(m, ts.drop_last(), at, t);
    }
}

/// The activation frequency table.
pub struct ActivationStore {
    records: Vec<ActivationRecord>,
}

impl View for ActivationStore {
    type V = Table;

    closed spec fn view(&self) -> Table {
        table_of(self.records@)
    }
}

impl ActivationStore {
    /// The store's internal invariant: one row per title.
    pub closed spec fn wf(&self) -> bool {
        titles_unique(self.records@)
    }

    /// An empty table.
    pub fn new() -> (r: ActivationStore)
        ensures
            r.wf(),
            r@ == Table::empty(),
    {
        ActivationStore { records: Vec::new() }
    }

    /// The row index holding `title`, if any.
    fn position(&self, title: &String) -> (r: Option<usize>)
        requires
            self.wf(),
        ensures
            match r {
                Some(i) => i < self.records@.len() && self.records@[i as int].title@ == title@,
                None => forall|i: int|
                    0 <= i < self.records@.len() ==> (#[trigger] self.records@[i]).title@ != title@,
            },
    {
        let mut i: usize = 0;
        while i < self.records.len()
            invariant
                i <= self.records@.len(),
                forall|j: int| 0 <= j < i ==> (#[trigger] self.records@[j]).title@ != title@,
            decreases self.records@.len() - i,
        {
            if self.records[i].title == *title {
                return Some(i);
            }
            i = i + 1;
        }
        None
    }

    /// How often `title` was activated; 0 if never.
    pub fn frequency(&self, title: &String) -> (r: u64)
        requires
            self.wf(),
        ensures
            r as nat == frequency_of(self@, title@),
    {
        match self.position(title) {
            Some(i) => {
                proof {
                    lemma_row_found(self.records@, i as int);
                }
                self.records[i].frequency
            },
            None => {
                proof {
                    lemma_row_absent(self.records@, title@);
                }
                0
            },
        }
    }

    /// When `title` was last activated, if ever.
    pub fn last_use(&self, title: &String) -> (r: Option<i64>)
        requires
            self.wf(),
        ensures
            r.is_some() == self@.dom().contains(title@),
            r.is_some() ==> r.unwrap() == self@[title@].1,
    {
        match self.position(title) {
            Some(i) => {
                proof {
                    lemma_row_found(self.records@, i as int);
                }
                Some(self.records[i].last_use)
            },
            None => {
                proof {
                    lemma_row_absent(self.records@, title@);
                }
                None
            },
        }
    }

    /// Records one activation of `title` at time `at` and returns the new
    /// frequency. Fails, leaving the table unchanged, only when the frequency
    /// is already the largest a `u64` holds.
    pub fn record(&mut self, title: String, at: i64) -> (r: Option<u64>)
        requires
            old(self).wf(),
        ensures
            final(self).wf(),
            r.is_some() == (frequency_of(old(self)@, title@) < u64::MAX),
            r.is_some() ==> final(self)@ == record_spec(old(self)@, title@, at),
            r.is_some() ==> r.unwrap() as nat == frequency_of(final(self)@, title@),
            r.is_none() ==> final(self)@ == old(self)@,
    {
        match self.position(&title) {
            Some(i) => {
                proof {
                    lemma_row_found(self.records@, i as int);
                }
                let f = self.records[i].frequency;
                if f == u64::MAX {
                    return None;
                }
                let ghost before = self.records@;
                let row = ActivationRecord { title, frequency: f + 1, last_use: at };
                self.records[i] = row;
                proof {
                    assert(self.records@ == before.update(i as int, row));
                    lemma_row_updated(before, i as int, row);
                    assert forall|a: int, b: int| 0 <= a < b < self.records@.len() implies (
                    #[trigger] self.records@[a]).title@ != (#[trigger] self.records@[b]).title@ by {
                        assert(before[a].title@ != before[b].title@);
                    }
                }
                Some(f + 1)
            },
            None => {
                proof {
                    lemma_row_absent(self.records@, title@);
                }
                let ghost before = self.records@;
                let row = ActivationRecord { title, frequency: 1, last_use: at };
                self.records.push(row);
                proof {
                    assert(self.records@.drop_last() =~= before);
                    assert forall|a: int, b: int| 0 <= a < b < self.records@.len() implies (
                    #[trigger] self.records@[a]).title@ != (#[trigger] self.records@[b]).title@ by {
                        if b < before.len() {
                            assert(before[a].title@ != before[b].title@);
                        }
                    }
                }
                Some(1)
            },
        }
    }
}

} // verus!
