//! Accounting for schema migrations: which of the recorded migrations a run
//! has newly applied.

use std::collections::HashSet;
use vstd::prelude::*;

verus! {

/// One applied migration, as the schema history records it.
#[derive(Debug)]
pub struct MigrationRecord {
    pub version: i32,
    pub name: String,
}

/// Mathematical model of [`MigrationRecord`].
pub ghost struct MigrationRecordView {
    pub version: i32,
    pub name: Seq<char>,
}

impl View for MigrationRecord {
    type V = MigrationRecordView;

    open spec fn view(&self) -> MigrationRecordView {
        MigrationRecordView { version: self.version, name: self.name@ }
    }
}

/// What a migration run did.
#[derive(Debug)]
pub struct MigrationSummary {
    /// The migrations that this run applied, in the order of the history.
    pub newly_applied: Vec<MigrationRecord>,
    /// How many distinct versions had been applied before the run.
    pub already_applied: usize,
    /// How many are applied after it.
    pub total: usize,
}

/// The records of a history, by view.
pub open spec fn records_view(records: Seq<MigrationRecord>) -> Seq<MigrationRecordView> {
    records.map_values(|record: MigrationRecord| record@)
}

/// The records of a history whose version is not among those applied
/// before, in their order.
pub open spec fn unapplied(history: Seq<MigrationRecordView>, applied: Set<i32>) -> Seq<
    MigrationRecordView,
>
    decreases history.len(),
{
    if history.len() == 0 {
        Seq::empty()
    } else if applied.contains(history.last().version) {
        unapplied(history.drop_last(), applied)
    } else {
        unapplied(history.drop_last(), applied).push(history.last())
    }
}

/// Taking one more element of a list adds that element to the set of those
/// taken.
proof fn lemma_take_one_more(versions: Seq<i32>, at: int)
    requires
        0 <= at < versions.len(),
    ensures
        versions.take(at + 1).to_set() == versions.take(at).to_set().insert(versions[at]),
{
    let shorter = versions.take(at);
    let longer = versions.take(at + 1);
    assert(longer =~= shorter.push(versions[at]));
    assert forall|version: i32|
        longer.to_set().contains(version) <==> shorter.to_set().insert(versions[at]).contains(
            version,
        ) by {
        if shorter.contains(version) {
            let k = choose|k: int| 0 <= k < shorter.len() && shorter[k] == version;
            assert(longer[k] == version);
        }
        if longer.contains(version) {
            let k = choose|k: int| 0 <= k < longer.len() && longer[k] == version;
            if k < at {
                assert(shorter[k] == version);
            }
        }
        assert(longer[at] == versions[at]);
    }
    assert(longer.to_set() =~= shorter.to_set().insert(versions[at]));
}

/// Collects the distinct versions of a list.
fn distinct_versions(versions: &Vec<i32>) -> (distinct: HashSet<i32>)
    ensures
        distinct@ == versions@.to_set(),
        distinct@.len() <= versions.len(),
{
    broadcast use vstd::std_specs::hash::group_hash_axioms;

    let mut distinct: HashSet<i32> = HashSet::new();
    let mut at: usize = 0;
    while at < versions.len()
        invariant
            at <= versions.len(),
            distinct@.finite(),
            distinct@.len() <= at,
            distinct@ == versions@.take(at as int).to_set(),
        decreases versions.len() - at,
    {
        proof {
            lemma_take_one_more(versions@, at as int);
        }
        distinct.insert(versions[at]);
        at += 1;
    }
    assert(versions@.take(versions.len() as int) =~= versions@);
    distinct
}

/// Tells the migrations that a run applied from those applied before it.
///
/// `before` lists the versions in the schema history before the run, `after`
/// the history after it. A record of `after` is newly applied where its
/// version is not in `before`.
pub fn summarize_migrations(before: &Vec<i32>, after: &Vec<MigrationRecord>) -> (summary:
    MigrationSummary)
    requires
        before.len() + after.len() <= usize::MAX,
    ensures
        records_view(summary.newly_applied@) == unapplied(records_view(after@), before@.to_set()),
        summary.already_applied == before@.to_set().len(),
        summary.total == summary.already_applied + summary.newly_applied.len(),
{
    let previously_applied = distinct_versions(before);
    let mut newly_applied: Vec<MigrationRecord> = Vec::new();
    let mut at: usize = 0;
    while at < after.len()
        invariant
            at <= after.len(),
            newly_applied.len() <= at,
            previously_applied@ == before@.to_set(),
            records_view(newly_applied@) == unapplied(
                records_view(after@).take(at as int),
                before@.to_set(),
            ),
        decreases after.len() - at,
    {
        broadcast use vstd::std_specs::hash::group_hash_axioms;

        let record = &after[at];
        assert(records_view(after@).take(at + 1).drop_last() =~= records_view(after@).take(
            at as int,
        ));
        if !previously_applied.contains(&record.version) {
            newly_applied.push(
                MigrationRecord { version: record.version, name: record.name.clone() },
            );
        }
        at += 1;
    }
    assert(records_view(after@).take(after.len() as int) =~= records_view(after@));
    let already_applied = previously_applied.len();
    let total = already_applied + newly_applied.len();
    MigrationSummary { newly_applied, already_applied, total }
}

} // verus!
