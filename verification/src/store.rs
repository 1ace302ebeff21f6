//! What a store holds, and what its operations do to it.

use vstd::prelude::*;
use crate::error::StoreError;
use crate::record::Record;

verus! {

/// The contents of a store: the history of reports and the latest report of
/// each vehicle.
pub ghost struct Tables {
    /// Every report that was added, oldest first.
    pub records: Seq<Record>,
    /// The report that was last written for each vehicle.
    pub status: Map<u64, Record>,
}

impl Tables {
    /// A store that was just opened on fresh storage.
    pub open spec fn empty() -> Tables {
        Tables { records: Seq::empty(), status: Map::empty() }
    }

    /// The contents after `record` was added to the history.
    pub open spec fn with_record(self, record: Record) -> Tables {
        Tables { records: self.records.push(record), status: self.status }
    }

    /// The contents after `record` became the status of its vehicle.  The
    /// call order decides, not the timestamps.
    pub open spec fn with_status(self, record: Record) -> Tables {
        Tables { records: self.records, status: self.status.insert(record.bus_id, record) }
    }

    /// Whether `listed` holds the history, in some order.
    pub open spec fn lists_records(self, listed: Seq<Record>) -> bool {
        listed.to_multiset() == self.records.to_multiset()
    }

    /// Whether `listed` holds the status table, in some order: the status of
    /// every vehicle that has one, and nothing else.
    pub open spec fn lists_status(self, listed: Seq<Record>) -> bool {
        &&& forall|i: int, j: int|
            0 <= i < j < listed.len() ==> listed[i].bus_id != listed[j].bus_id
        &&& forall|i: int|
            0 <= i < listed.len() ==> self.status.contains_key(#[trigger] listed[i].bus_id)
                && self.status[listed[i].bus_id] == listed[i]
        &&& forall|bus_id: u64| #[trigger]
            self.status.contains_key(bus_id) ==> exists|i: int|
                0 <= i < listed.len() && #[trigger] listed[i].bus_id == bus_id
    }
}

/// A store of reports.  Writing takes the store exclusively; a failed
/// operation leaves the contents as they were.
pub trait DataBase {
    /// What the store holds.
    spec fn tables(&self) -> Tables;

    /// Appends `record` to the history, whatever the history already holds.
    fn add_record(&mut self, record: &Record) -> (done: Result<(), StoreError>)
        ensures
            match done {
                Ok(_) => final(self).tables() == old(self).tables().with_record(*record),
                Err(error) => error == StoreError::Write && final(self).tables() == old(
                    self,
                ).tables(),
            },
    ;

    /// Makes `record` the status of its vehicle, in place of an earlier one.
    fn update_status(&mut self, record: &Record) -> (done: Result<(), StoreError>)
        ensures
            match done {
                Ok(_) => final(self).tables() == old(self).tables().with_status(*record),
                Err(error) => error == StoreError::Write && final(self).tables() == old(
                    self,
                ).tables(),
            },
    ;

    /// Every report of the history.  No order is promised.
    fn list_records(&self) -> (listed: Result<Vec<Record>, StoreError>)
        ensures
            match listed {
                Ok(records) => self.tables().lists_records(records@),
                Err(error) => error == StoreError::Format,
            },
    ;

    /// The status of every vehicle.  No order is promised.
    fn list_status(&self) -> (listed: Result<Vec<Record>, StoreError>)
        ensures
            match listed {
                Ok(records) => self.tables().lists_status(records@),
                Err(error) => error == StoreError::Format,
            },
    ;
}

/// Two reports of one vehicle with different timestamps are both kept by the
/// history as rows of their own, the second after the first, behind
/// everything it held before.
pub proof fn lemma_history_keeps_every_report(tables: Tables, first: Record, second: Record)
    requires
        first.bus_id == second.bus_id,
        first.timestamp != second.timestamp,
    ensures
        ({
            let after = tables.with_record(first).with_record(second);
            let n = tables.records.len() as int;
            &&& after.records.len() == n + 2
            &&& after.records.subrange(0, n) == tables.records
            &&& after.records[n] == first
            &&& after.records[n + 1] == second
            &&& after.records[n] != after.records[n + 1]
            &&& after.status == tables.status
        }),
{
    let after = tables.with_record(first).with_record(second);
    assert(after.records.subrange(0, tables.records.len() as int) =~= tables.records);
}

/// Every report of the history can be retrieved: a listing of the history
/// holds it, whatever the order of the listing.
pub proof fn lemma_listing_holds_history(tables: Tables, listed: Seq<Record>, record: Record)
    requires
        tables.lists_records(listed),
        tables.records.contains(record),
    ensures
        listed.contains(record),
        listed.len() == tables.records.len(),
{
    tables.records.to_multiset_ensures();
    listed.to_multiset_ensures();
    assert(listed.to_multiset().count(record) > 0);
}

/// Of two status updates for one vehicle the later call wins: the vehicle has
/// one status, the second report, as if the first had never been written.
pub proof fn lemma_status_last_write_wins(tables: Tables, first: Record, second: Record)
    requires
        first.bus_id == second.bus_id,
    ensures
        ({
            let after = tables.with_status(first).with_status(second);
            &&& after == tables.with_status(second)
            &&& after.status[second.bus_id] == second
            &&& after.status.dom() == tables.status.dom().insert(second.bus_id)
            &&& after.records == tables.records
        }),
{
    let after = tables.with_status(first).with_status(second);
    assert(after.status =~= tables.with_status(second).status);
    assert(after.status.dom() =~= tables.status.dom().insert(second.bus_id));
}

/// Status updates for two vehicles do not touch each other: both hold their
/// own report, in whichever order they were written, and every other vehicle
/// keeps what it had.
pub proof fn lemma_status_of_vehicles_independent(tables: Tables, one: Record, other: Record)
    requires
        one.bus_id != other.bus_id,
    ensures
        ({
            let after = tables.with_status(one).with_status(other);
            &&& after.status[one.bus_id] == one
            &&& after.status[other.bus_id] == other
            &&& after == tables.with_status(other).with_status(one)
            &&& forall|bus_id: u64|
                bus_id != one.bus_id && bus_id != other.bus_id ==> (
                #[trigger] after.status.contains_key(bus_id) <==> tables.status.contains_key(
                    bus_id,
                )) && after.status[bus_id] == tables.status[bus_id]
        }),
{
    let after = tables.with_status(one).with_status(other);
    assert(after.status =~= tables.with_status(other).with_status(one).status);
}

/// A listing of the status table holds exactly one row of a vehicle that has a
/// status, and that row is its status.
pub proof fn lemma_listing_holds_one_status(tables: Tables, listed: Seq<Record>, bus_id: u64)
    requires
        tables.lists_status(listed),
        tables.status.contains_key(bus_id),
    ensures
        exists|i: int|
            {
                &&& 0 <= i < listed.len()
                &&& #[trigger] listed[i] == tables.status[bus_id]
                &&& forall|j: int|
                    0 <= j < listed.len() && #[trigger] listed[j].bus_id == bus_id ==> j == i
            },
{
    let i = choose|i: int| 0 <= i < listed.len() && #[trigger] listed[i].bus_id == bus_id;
    assert(tables.status.contains_key(listed[i].bus_id));
    assert(listed[i] == tables.status[bus_id]);
    assert forall|j: int| 0 <= j < listed.len() && #[trigger] listed[j].bus_id == bus_id implies j
        == i by {
        if j < i {
            assert(listed[j].bus_id != listed[i].bus_id);
        } else if i < j {
            assert(listed[i].bus_id != listed[j].bus_id);
        }
    }
}

/// A listing of the status table holds each vehicle once, so after two
/// updates of one vehicle on fresh storage it holds the second report and
/// nothing else.
pub proof fn lemma_listing_after_replacement(first: Record, second: Record, listed: Seq<Record>)
    requires
        first.bus_id == second.bus_id,
        Tables::empty().with_status(first).with_status(second).lists_status(listed),
    ensures
        listed == seq![second],
{
    let after = Tables::empty().with_status(first).with_status(second);
    assert(after.status.contains_key(second.bus_id));
    let i = choose|i: int| 0 <= i < listed.len() && #[trigger] listed[i].bus_id == second.bus_id;
    assert(listed.len() == 1) by {
        if listed.len() > 1 {
            assert(after.status.contains_key(listed[0].bus_id));
            assert(after.status.contains_key(listed[1].bus_id));
        }
    }
    assert(after.status.contains_key(listed[0].bus_id));
    assert(listed =~= seq![second]);
}

} // verus!
