//! Records that take effect at a milestone.
//!
//! A store holds the history of one piece of configuration: each record is a
//! value and the milestone from which it holds. The value in effect at a
//! milestone is that of the record with the greatest milestone not after it,
//! whatever the order in which the records were written.

use vstd::prelude::*;
use crate::model::tangle::MilestoneIndex;

verus! {

/// What a record can hold: values that can be compared for equality, field
/// by field, and copied.
pub trait Payload: View + Sized {
    /// Whether this value is equal to `other`.
    fn same_as(&self, other: &Self) -> (same: bool)
        ensures
            same == (self@ == other@),
    ;

    /// A copy of this value.
    fn duplicate(&self) -> (copy: Self)
        ensures
            copy@ == self@,
    ;
}

/// A value and the milestone from which it holds.
#[derive(Clone, Debug, PartialEq, Eq)]
pub struct VersionedRecord<T> {
    pub at: MilestoneIndex,
    pub value: T,
}

impl<T: Payload> VersionedRecord<T> {
    /// A copy of the record.
    pub fn duplicate(&self) -> (copy: VersionedRecord<T>)
        ensures
            copy.at == self.at,
            copy.value@ == self.value@,
    {
        VersionedRecord { at: self.at, value: self.value.duplicate() }
    }
}

/// What an upsert did.
#[derive(Clone, Copy, Debug, PartialEq, Eq, Structural)]
pub enum UpsertOutcome {
    /// The record was stored.
    Stored,
    /// The value was in effect already, and nothing was stored.
    Unchanged,
}

/// The records of one piece of configuration, keyed by their milestone.
pub struct VersionedStore<T> {
    records: Vec<VersionedRecord<T>>,
}

/// Whether the record at `key` is the one in effect at `at`: of the records
/// not after `at` it is the latest.
pub open spec fn is_effective_at<V>(
    records: Map<MilestoneIndex, V>,
    at: MilestoneIndex,
    key: MilestoneIndex,
) -> bool {
    &&& records.dom().contains(key)
    &&& key.0 <= at.0
    &&& forall|other: MilestoneIndex| #[trigger]
        records.dom().contains(other) && other.0 <= at.0 ==> other.0 <= key.0
}

/// Whether `value` is in effect at `at`.
pub open spec fn in_effect_at<V>(records: Map<MilestoneIndex, V>, at: MilestoneIndex, value: V) -> bool {
    exists|key: MilestoneIndex| #[trigger] is_effective_at(records, at, key) && records[key] == value
}

/// The records after an upsert of `value` at `at`: as before where the value
/// is in effect at `at` already, and else with the record for `at` added, in
/// place of a record for that same milestone if there was one.
pub open spec fn upserted<V>(records: Map<MilestoneIndex, V>, at: MilestoneIndex, value: V) -> Map<
    MilestoneIndex,
    V,
> {
    if in_effect_at(records, at, value) {
        records
    } else {
        records.insert(at, value)
    }
}

/// What an upsert of `value` does where `in_effect` is the record in effect
/// at the milestone of the upsert: nothing where that record holds the same
/// value, and else it stores a record.
pub fn upsert_decision<T: Payload>(in_effect: Option<&VersionedRecord<T>>, value: &T) -> (outcome:
    UpsertOutcome)
    ensures
        outcome == match in_effect {
            Some(record) => if record.value@ == value@ {
                UpsertOutcome::Unchanged
            } else {
                UpsertOutcome::Stored
            },
            None => UpsertOutcome::Stored,
        },
{
    match in_effect {
        Some(record) => if record.value.same_as(value) {
            UpsertOutcome::Unchanged
        } else {
            UpsertOutcome::Stored
        },
        None => UpsertOutcome::Stored,
    }
}

/// Whether the records are in the order of their milestones, each milestone
/// once.
spec fn ascending<T>(records: Seq<VersionedRecord<T>>) -> bool {
    forall|i: int, j: int|
        0 <= i < j < records.len() ==> (#[trigger] records[i]).at.0 < (#[trigger] records[j]).at.0
}

/// Whether one of the records is for the milestone `key`.
spec fn has_record<T>(records: Seq<VersionedRecord<T>>, key: MilestoneIndex) -> bool {
    exists|i: int| 0 <= i < records.len() && (#[trigger] records[i]).at == key
}

/// The place of the record for the milestone `key`.
spec fn place_of<T>(records: Seq<VersionedRecord<T>>, key: MilestoneIndex) -> int {
    choose|i: int| 0 <= i < records.len() && (#[trigger] records[i]).at == key
}

/// The records as a map from milestones to values.
spec fn as_map<T: View>(records: Seq<VersionedRecord<T>>) -> Map<MilestoneIndex, T::V> {
    Map::new(
        |key: MilestoneIndex| has_record(records, key),
        |key: MilestoneIndex| records[place_of(records, key)].value@,
    )
}

/// In records ordered by milestone, the record at a place is the one that the
/// map holds for its milestone.
proof fn lemma_record_in_map<T: View>(records: Seq<VersionedRecord<T>>, i: int)
    requires
        ascending(records),
        0 <= i < records.len(),
    ensures
        as_map(records).dom().contains(records[i].at),
        as_map(records)[records[i].at] == records[i].value@,
        place_of(records, records[i].at) == i,
{
    let key = records[i].at;
    assert(has_record(records, key));
    let j = place_of(records, key);
    if j < i {
        assert(records[j].at.0 < records[i].at.0);
    } else if i < j {
        assert(records[i].at.0 < records[j].at.0);
    }
}

impl<T: Payload> View for VersionedStore<T> {
    type V = Map<MilestoneIndex, T::V>;

    /// The stored values by the milestone from which each holds.
    closed spec fn view(&self) -> Map<MilestoneIndex, T::V> {
        as_map(self.records@)
    }
}

impl<T: Payload> VersionedStore<T> {
    /// The store's invariant: its records are kept in the order of their
    /// milestones, and no milestone has two.
    pub closed spec fn wf(&self) -> bool {
        ascending(self.records@)
    }

    /// The number of records.
    pub closed spec fn count_spec(&self) -> nat {
        self.records@.len()
    }

    /// A store without records.
    pub fn new() -> (store: VersionedStore<T>)
        ensures
            store.wf(),
            store@ == Map::<MilestoneIndex, T::V>::empty(),
            store.count_spec() == 0,
    {
        let store = VersionedStore { records: Vec::new() };
        assert(store@ =~= Map::<MilestoneIndex, T::V>::empty());
        store
    }

    /// The number of records.
    pub fn count(&self) -> (n: usize)
        requires
            self.wf(),
        ensures
            n == self.count_spec(),
            n == self@.dom().len(),
            self@.dom().finite(),
    {
        proof {
            lemma_map_size(self.records@);
        }
        self.records.len()
    }

    /// The place of the first record that is after `at`.
    fn first_after(&self, at: MilestoneIndex) -> (place: usize)
        requires
            self.wf(),
        ensures
            place <= self.records@.len(),
            forall|i: int| 0 <= i < place ==> (#[trigger] self.records@[i]).at.0 <= at.0,
            forall|i: int|
                place <= i < self.records@.len() ==> (#[trigger] self.records@[i]).at.0 > at.0,
    {
        let mut place: usize = 0;
        while place < self.records.len() && self.records[place].at.0 <= at.0
            invariant
                place <= self.records@.len(),
                ascending(self.records@),
                forall|i: int| 0 <= i < place ==> (#[trigger] self.records@[i]).at.0 <= at.0,
            decreases self.records@.len() - place,
        {
            place += 1;
        }
        place
    }

    /// The record with the greatest milestone, if the store has any record.
    pub fn get_latest(&self) -> (latest: Option<VersionedRecord<T>>)
        requires
            self.wf(),
        ensures
            match latest {
                Some(record) => {
                    &&& self@.dom().contains(record.at)
                    &&& self@[record.at] == record.value@
                    &&& forall|other: MilestoneIndex| #[trigger]
                        self@.dom().contains(other) ==> other.0 <= record.at.0
                },
                None => self@ == Map::<MilestoneIndex, T::V>::empty(),
            },
    {
        let n = self.records.len();
        if n == 0 {
            assert(self@ =~= Map::<MilestoneIndex, T::V>::empty());
            None
        } else {
            proof {
                lemma_record_in_map(self.records@, n - 1);
                assert forall|other: MilestoneIndex| #[trigger]
                    self@.dom().contains(other) implies other.0 <= self.records@[n - 1].at.0 by {
                    let i = place_of(self.records@, other);
                    if i < n - 1 {
                        assert(self.records@[i].at.0 < self.records@[n - 1].at.0);
                    }
                }
            }
            Some(self.records[n - 1].duplicate())
        }
    }

    /// The record in effect at `at`: the one with the greatest milestone not
    /// after `at`, if there is a record not after `at`.
    pub fn get_for_index(&self, at: MilestoneIndex) -> (found: Option<VersionedRecord<T>>)
        requires
            self.wf(),
        ensures
            match found {
                Some(record) => is_effective_at(self@, at, record.at) && self@[record.at]
                    == record.value@,
                None => forall|key: MilestoneIndex| #[trigger]
                    self@.dom().contains(key) ==> key.0 > at.0,
            },
    {
        let place = self.first_after(at);
        proof {
            assert forall|key: MilestoneIndex| #[trigger]
                self@.dom().contains(key) && key.0 <= at.0 implies place > 0 && key.0
                <= self.records@[place - 1].at.0 by {
                let i = place_of(self.records@, key);
                if i < place - 1 {
                    assert(self.records@[i].at.0 < self.records@[place - 1].at.0);
                }
            }
        }
        if place == 0 {
            None
        } else {
            proof {
                lemma_record_in_map(self.records@, place - 1);
            }
            Some(self.records[place - 1].duplicate())
        }
    }

    /// Stores `value` as holding from `at` on, unless it is in effect at
    /// `at` already. A record for a milestone before existing records is
    /// stored like any other, and a record for a milestone that has a record
    /// with another value takes its place.
    pub fn upsert(&mut self, at: MilestoneIndex, value: T) -> (outcome: UpsertOutcome)
        requires
            old(self).wf(),
        ensures
            final(self).wf(),
            final(self)@ == upserted(old(self)@, at, value@),
            outcome == if in_effect_at(old(self)@, at, value@) {
                UpsertOutcome::Unchanged
            } else {
                UpsertOutcome::Stored
            },
    {
        let place = self.first_after(at);
        let ghost before = self.records@;
        proof {
            // the record in front of `place`, if there is one, is in effect at `at`
            if place > 0 {
                lemma_record_in_map(before, place - 1);
                assert forall|other: MilestoneIndex| #[trigger]
                    as_map(before).dom().contains(other) && other.0 <= at.0 implies other.0
                    <= before[place - 1].at.0 by {
                    let i = place_of(before, other);
                    if i < place - 1 {
                        assert(before[i].at.0 < before[place - 1].at.0);
                    }
                }
                assert(is_effective_at(as_map(before), at, before[place - 1].at));
                assert forall|key: MilestoneIndex| #[trigger]
                    is_effective_at(as_map(before), at, key) implies key == before[place - 1].at by {
                    assert(as_map(before).dom().contains(before[place - 1].at));
                }
            } else {
                assert forall|key: MilestoneIndex| !#[trigger] is_effective_at(
                    as_map(before),
                    at,
                    key,
                ) by {
                    if as_map(before).dom().contains(key) {
                        let i = place_of(before, key);
                        assert(before[i].at.0 > at.0);
                    }
                }
            }
        }
        let in_effect = if place > 0 {
            Some(&self.records[place - 1])
        } else {
            None
        };
        match upsert_decision(in_effect, &value) {
            UpsertOutcome::Unchanged => {
                return UpsertOutcome::Unchanged;
            },
            UpsertOutcome::Stored => {},
        }
        let record = VersionedRecord { at, value };
        if place > 0 && self.records[place - 1].at.0 == at.0 {
            self.records[place - 1] = record;
            proof {
                let after = self.records@;
                assert(ascending(after)) by {
                    assert forall|i: int, j: int| 0 <= i < j < after.len() implies (
                    #[trigger] after[i]).at.0 < (#[trigger] after[j]).at.0 by {
                        assert(before[i].at.0 < before[j].at.0);
                    }
                }
                assert(as_map(after) =~= as_map(before).insert(at, value@)) by {
                    assert forall|key: MilestoneIndex|
                        has_record(after, key) <==> has_record(before, key) by {
                        if has_record(after, key) {
                            let i = place_of(after, key);
                            assert(before[i].at == key);
                        }
                        if has_record(before, key) {
                            let i = place_of(before, key);
                            assert(after[i].at == key);
                        }
                    }
                    assert(has_record(before, at)) by {
                        assert(before[place - 1].at == at);
                    }
                    assert forall|key: MilestoneIndex| has_record(after, key) implies as_map(
                        after,
                    )[key] == as_map(before).insert(at, value@)[key] by {
                        let i = place_of(after, key);
                        lemma_record_in_map(after, i);
                        lemma_record_in_map(before, i);
                    }
                }
            }
        } else {
            self.records.insert(place, record);
            proof {
                let after = self.records@;
                assert(ascending(after)) by {
                    assert forall|i: int, j: int| 0 <= i < j < after.len() implies (
                    #[trigger] after[i]).at.0 < (#[trigger] after[j]).at.0 by {
                        if j < place {
                            assert(after[i] == before[i] && after[j] == before[j]);
                        } else if j == place {
                            assert(after[i] == before[i]);
                            if i < place - 1 {
                                assert(before[i].at.0 < before[place - 1].at.0);
                            }
                        } else if i < place {
                            assert(after[i] == before[i] && after[j] == before[j - 1]);
                        } else if i == place {
                            assert(after[j] == before[j - 1]);
                        } else {
                            assert(after[i] == before[i - 1] && after[j] == before[j - 1]);
                        }
                    }
                }
                assert(as_map(after) =~= as_map(before).insert(at, value@)) by {
                    assert(after[place as int].at == at);
                    assert forall|key: MilestoneIndex|
                        has_record(after, key) <==> key == at || has_record(before, key) by {
                        if has_record(after, key) && key != at {
                            let i = place_of(after, key);
                            if i < place {
                                assert(before[i].at == key);
                            } else {
                                assert(before[i - 1].at == key);
                            }
                        }
                        if has_record(before, key) {
                            let i = place_of(before, key);
                            if i < place {
                                assert(after[i].at == key);
                            } else {
                                assert(after[i + 1].at == key);
                            }
                        }
                    }
                    assert forall|key: MilestoneIndex| has_record(after, key) implies as_map(
                        after,
                    )[key] == as_map(before).insert(at, value@)[key] by {
                        let i = place_of(after, key);
                        lemma_record_in_map(after, i);
                        if i < place {
                            assert(after[i] == before[i]);
                            lemma_record_in_map(before, i);
                        } else if i > place {
                            assert(after[i] == before[i - 1]);
                            lemma_record_in_map(before, i - 1);
                        }
                    }
                }
            }
        }
        UpsertOutcome::Stored
    }
}

/// Where a record is not after `at`, some record is in effect at `at`.
pub proof fn lemma_some_record_in_effect<V>(
    records: Map<MilestoneIndex, V>,
    at: MilestoneIndex,
    key: MilestoneIndex,
)
    requires
        records.dom().contains(key),
        key.0 <= at.0,
    ensures
        exists|latest: MilestoneIndex|
            key.0 <= latest.0 && #[trigger] is_effective_at(records, at, latest),
    decreases at.0 - key.0,
{
    if exists|other: MilestoneIndex|
        #[trigger] records.dom().contains(other) && key.0 < other.0 <= at.0 {
        let other = choose|other: MilestoneIndex|
            #[trigger] records.dom().contains(other) && key.0 < other.0 <= at.0;
        lemma_some_record_in_effect(records, at, other);
    } else {
        assert(is_effective_at(records, at, key));
    }
}

/// At most one record is in effect at a milestone.
pub proof fn lemma_one_record_in_effect<V>(
    records: Map<MilestoneIndex, V>,
    at: MilestoneIndex,
    a: MilestoneIndex,
    b: MilestoneIndex,
)
    requires
        is_effective_at(records, at, a),
        is_effective_at(records, at, b),
    ensures
        a == b,
{
    assert(records.dom().contains(a) && records.dom().contains(b));
}

/// A later milestone is never answered with an earlier record: the record in
/// effect at a milestone is not before the record in effect at a milestone
/// before it.
pub proof fn lemma_lookup_is_monotonic<V>(
    records: Map<MilestoneIndex, V>,
    earlier: MilestoneIndex,
    later: MilestoneIndex,
    in_effect_earlier: MilestoneIndex,
    in_effect_later: MilestoneIndex,
)
    requires
        earlier.0 <= later.0,
        is_effective_at(records, earlier, in_effect_earlier),
        is_effective_at(records, later, in_effect_later),
    ensures
        in_effect_earlier.0 <= in_effect_later.0,
{
    assert(records.dom().contains(in_effect_earlier));
}

/// An upsert puts its value in effect at its milestone, whether it stored a
/// record or found the value in effect.
pub proof fn lemma_upsert_takes_effect<V>(records: Map<MilestoneIndex, V>, at: MilestoneIndex, value: V)
    ensures
        in_effect_at(upserted(records, at, value), at, value),
{
    if !in_effect_at(records, at, value) {
        let after = records.insert(at, value);
        assert(after.dom().contains(at));
        assert(is_effective_at(after, at, at));
    }
}

/// A value that differs from the one in effect is always stored: the store
/// then holds a record for the milestone with that value, and every record
/// for another milestone as before.
pub proof fn lemma_upsert_stores_differing<V>(
    records: Map<MilestoneIndex, V>,
    at: MilestoneIndex,
    value: V,
)
    requires
        !in_effect_at(records, at, value),
    ensures
        upserted(records, at, value) == records.insert(at, value),
        upserted(records, at, value).dom().contains(at),
        upserted(records, at, value)[at] == value,
        forall|key: MilestoneIndex|
            key != at && records.dom().contains(key) ==> #[trigger] upserted(
                records,
                at,
                value,
            ).dom().contains(key) && upserted(records, at, value)[key] == records[key],
{
}

/// The same value upserted again at a later milestone, with no differing
/// value on record in between, stores nothing: the second upsert leaves the
/// store as the first left it.
pub proof fn lemma_upsert_again_is_unchanged<V>(
    records: Map<MilestoneIndex, V>,
    first: MilestoneIndex,
    second: MilestoneIndex,
    value: V,
)
    requires
        first.0 <= second.0,
        forall|between: MilestoneIndex| #[trigger]
            records.dom().contains(between) && first.0 < between.0 <= second.0 ==> records[between]
                == value,
    ensures
        in_effect_at(upserted(records, first, value), second, value),
        upserted(upserted(records, first, value), second, value) == upserted(records, first, value),
{
    let once = upserted(records, first, value);
    lemma_upsert_takes_effect(records, first, value);
    let held = choose|key: MilestoneIndex| #[trigger]
        is_effective_at(once, first, key) && once[key] == value;
    lemma_some_record_in_effect(once, second, held);
    let latest = choose|latest: MilestoneIndex|
        held.0 <= latest.0 && #[trigger] is_effective_at(once, second, latest);
    if latest.0 <= first.0 {
        lemma_one_record_in_effect(once, first, held, latest);
    } else {
        assert(records.dom().contains(latest));
    }
    assert(once[latest] == value);
}

/// A record written for a milestone before existing records changes no
/// answer but those for the milestones from its own up to the next record:
/// as of a milestone before it, or as of a milestone that a later record is
/// not after, the record in effect is the one that was in effect before.
pub proof fn lemma_backfill_is_local<V>(
    records: Map<MilestoneIndex, V>,
    at: MilestoneIndex,
    value: V,
    as_of: MilestoneIndex,
    key: MilestoneIndex,
)
    requires
        as_of.0 < at.0 || exists|later: MilestoneIndex|
            #[trigger] records.dom().contains(later) && at.0 < later.0 <= as_of.0,
    ensures
        is_effective_at(upserted(records, at, value), as_of, key) <==> is_effective_at(
            records,
            as_of,
            key,
        ),
        is_effective_at(records, as_of, key) ==> upserted(records, at, value)[key] == records[key],
{
    let after = upserted(records, at, value);
    if as_of.0 >= at.0 {
        let later = choose|later: MilestoneIndex|
            #[trigger] records.dom().contains(later) && at.0 < later.0 <= as_of.0;
        assert(after.dom().contains(later));
        if is_effective_at(after, as_of, key) {
            assert(records.dom().contains(key));
            assert forall|other: MilestoneIndex| #[trigger]
                records.dom().contains(other) && other.0 <= as_of.0 implies other.0 <= key.0 by {
                assert(after.dom().contains(other));
            }
        }
        if is_effective_at(records, as_of, key) {
            assert(after.dom().contains(key));
        }
    } else {
        if is_effective_at(after, as_of, key) {
            assert forall|other: MilestoneIndex| #[trigger]
                records.dom().contains(other) && other.0 <= as_of.0 implies other.0 <= key.0 by {
                assert(after.dom().contains(other));
            }
        }
        if is_effective_at(records, as_of, key) {
            assert(after.dom().contains(key));
        }
    }
}

/// Records ordered by milestone are as many as the milestones of their map.
proof fn lemma_map_size<T: View>(records: Seq<VersionedRecord<T>>)
    requires
        ascending(records),
    ensures
        as_map(records).dom().finite(),
        as_map(records).dom().len() == records.len(),
    decreases records.len(),
{
    if records.len() == 0 {
        assert(as_map(records).dom() =~= Set::<MilestoneIndex>::empty());
    } else {
        let front = records.drop_last();
        let last = records.last();
        assert(ascending(front)) by {
            assert forall|i: int, j: int| 0 <= i < j < front.len() implies (#[trigger] front[i]).at.0
                < (#[trigger] front[j]).at.0 by {
                assert(front[i] == records[i] && front[j] == records[j]);
            }
        }
        lemma_map_size(front);
        assert(!as_map(front).dom().contains(last.at)) by {
            if has_record(front, last.at) {
                let i = place_of(front, last.at);
                assert(front[i] == records[i]);
                assert(records[i].at.0 < records[records.len() - 1].at.0);
            }
        }
        assert(as_map(records).dom() =~= as_map(front).dom().insert(last.at)) by {
            assert forall|key: MilestoneIndex|
                has_record(records, key) <==> key == last.at || has_record(front, key) by {
                if has_record(records, key) && key != last.at {
                    let i = place_of(records, key);
                    assert(front[i].at == key);
                }
                if has_record(front, key) {
                    let i = place_of(front, key);
                    assert(records[i].at == key);
                }
                assert(records[records.len() - 1].at == last.at);
            }
        }
    }
}

} // verus!
