//! A store that keeps its tables in memory.

use vstd::prelude::*;
use crate::error::StoreError;
use crate::record::{decode_rows, decoded, decoded_rows, Record, Row};
use crate::store::{DataBase, Tables};

verus! {

/// The report that `row` stores.  Meant for rows that store one.
spec fn stored(row: Row) -> Record {
    decoded(row@).unwrap()
}

/// Whether one of `rows` belongs to the vehicle `bus_id`.
spec fn has_vehicle(rows: Seq<Row>, bus_id: u64) -> bool {
    exists|i: int| 0 <= i < rows.len() && #[trigger] stored(rows[i]).bus_id == bus_id
}

/// The position in `rows` of a row of the vehicle `bus_id`.
spec fn vehicle_index(rows: Seq<Row>, bus_id: u64) -> int {
    choose|i: int| 0 <= i < rows.len() && #[trigger] stored(rows[i]).bus_id == bus_id
}

/// The status table that `rows` hold: for each vehicle that has a row, the
/// report of that row.
spec fn status_of(rows: Seq<Row>) -> Map<u64, Record> {
    Map::new(
        |bus_id: u64| has_vehicle(rows, bus_id),
        |bus_id: u64| stored(rows[vehicle_index(rows, bus_id)]),
    )
}

/// Whether every one of `rows` stores a report, and no two of them belong to
/// one vehicle.
spec fn one_row_per_vehicle(rows: Seq<Row>) -> bool {
    &&& forall|i: int| 0 <= i < rows.len() ==> (#[trigger] decoded(rows[i]@)).is_ok()
    &&& forall|i: int, j: int|
        0 <= i < j < rows.len() ==> #[trigger] stored(rows[i]).bus_id != #[trigger] stored(
            rows[j],
        ).bus_id
}

/// A store whose tables live in memory, as the rows that a storage engine
/// would hold.  It never fails, and lists each table in the order in which
/// its rows were first written.
pub struct MemoryDataBase {
    records: Vec<Row>,
    status: Vec<Row>,
}

impl MemoryDataBase {
    #[verifier::type_invariant]
    spec fn rows_are_reports(self) -> bool {
        &&& forall|i: int|
            0 <= i < self.records@.len() ==> (#[trigger] decoded(self.records@[i]@)).is_ok()
        &&& one_row_per_vehicle(self.status@)
    }

    /// The vehicles that have a status, in the order in which they first got
    /// one.
    pub closed spec fn vehicles(&self) -> Seq<u64> {
        Seq::new(self.status@.len(), |i: int| stored(self.status@[i]).bus_id)
    }

    /// A store with two empty tables.
    pub fn new() -> (store: MemoryDataBase)
        ensures
            store.tables() == Tables::empty(),
            store.vehicles() == Seq::<u64>::empty(),
    {
        let store = MemoryDataBase { records: Vec::new(), status: Vec::new() };
        assert(store.tables().records =~= Seq::empty());
        assert(store.tables().status =~= Map::empty());
        assert(store.vehicles() =~= Seq::empty());
        store
    }
}

impl Default for MemoryDataBase {
    /// A store with two empty tables.
    fn default() -> (store: MemoryDataBase)
        ensures
            store.tables() == Tables::empty(),
            store.vehicles() == Seq::<u64>::empty(),
    {
        MemoryDataBase::new()
    }
}

/// Two rows that store reports belong to one vehicle exactly when their
/// identifier columns are equal.
proof fn lemma_same_column_same_vehicle(one: Row, other: Row)
    requires
        decoded(one@).is_ok(),
        decoded(other@).is_ok(),
    ensures
        one.bus_id == other.bus_id <==> stored(one).bus_id == stored(other).bus_id,
{
}

/// In `rows` with one row per vehicle, the row at `i` is the one that its
/// vehicle is found at.
proof fn lemma_vehicle_index(rows: Seq<Row>, i: int)
    requires
        one_row_per_vehicle(rows),
        0 <= i < rows.len(),
    ensures
        has_vehicle(rows, stored(rows[i]).bus_id),
        vehicle_index(rows, stored(rows[i]).bus_id) == i,
{
    let bus_id = stored(rows[i]).bus_id;
    let found = vehicle_index(rows, bus_id);
    assert(0 <= found < rows.len() && stored(rows[found]).bus_id == bus_id);
}

/// Replacing the row of a vehicle by another row of that vehicle replaces its
/// status and nothing else.
proof fn lemma_status_replaced(rows: Seq<Row>, i: int, row: Row, record: Record)
    requires
        one_row_per_vehicle(rows),
        0 <= i < rows.len(),
        decoded(row@) == Ok::<Record, StoreError>(record),
        stored(rows[i]).bus_id == record.bus_id,
    ensures
        one_row_per_vehicle(rows.update(i, row)),
        status_of(rows.update(i, row)) == status_of(rows).insert(record.bus_id, record),
{
    let after = rows.update(i, row);
    assert forall|a: int, b: int| 0 <= a < b < after.len() implies #[trigger] stored(
        after[a],
    ).bus_id != #[trigger] stored(after[b]).bus_id by {
        assert(stored(after[a]).bus_id == stored(rows[a]).bus_id);
        assert(stored(after[b]).bus_id == stored(rows[b]).bus_id);
    }
    assert forall|bus_id: u64| has_vehicle(after, bus_id) <==> (bus_id == record.bus_id
        || has_vehicle(rows, bus_id)) by {
        if has_vehicle(after, bus_id) {
            let k = vehicle_index(after, bus_id);
            assert(stored(rows[k]).bus_id == bus_id);
        }
        if bus_id == record.bus_id {
            assert(stored(after[i]).bus_id == bus_id);
        } else if has_vehicle(rows, bus_id) {
            let k = vehicle_index(rows, bus_id);
            assert(stored(after[k]).bus_id == bus_id);
        }
    }
    assert forall|bus_id: u64| has_vehicle(after, bus_id) implies status_of(after)[bus_id]
        == status_of(rows).insert(record.bus_id, record)[bus_id] by {
        let k = vehicle_index(after, bus_id);
        lemma_vehicle_index(after, k);
        if bus_id == record.bus_id {
            lemma_vehicle_index(after, i);
        } else {
            assert(stored(rows[k]).bus_id == bus_id);
            lemma_vehicle_index(rows, k);
        }
    }
    assert(status_of(after) =~= status_of(rows).insert(record.bus_id, record));
}

/// Appending the row of a vehicle that has none gives that vehicle its status
/// and changes nothing else.
proof fn lemma_status_appended(rows: Seq<Row>, row: Row, record: Record)
    requires
        one_row_per_vehicle(rows),
        decoded(row@) == Ok::<Record, StoreError>(record),
        !has_vehicle(rows, record.bus_id),
    ensures
        one_row_per_vehicle(rows.push(row)),
        status_of(rows.push(row)) == status_of(rows).insert(record.bus_id, record),
{
    let after = rows.push(row);
    let n = rows.len() as int;
    assert forall|a: int, b: int| 0 <= a < b < after.len() implies #[trigger] stored(
        after[a],
    ).bus_id != #[trigger] stored(after[b]).bus_id by {
        assert(after[a] == rows[a]);
        if b < n {
            assert(after[b] == rows[b]);
        } else {
            assert(stored(rows[a]).bus_id != record.bus_id);
        }
    }
    assert forall|bus_id: u64| has_vehicle(after, bus_id) <==> (bus_id == record.bus_id
        || has_vehicle(rows, bus_id)) by {
        if has_vehicle(after, bus_id) {
            let k = vehicle_index(after, bus_id);
            if k < n {
                assert(stored(rows[k]).bus_id == bus_id);
            }
        }
        if bus_id == record.bus_id {
            assert(stored(after[n]).bus_id == bus_id);
        } else if has_vehicle(rows, bus_id) {
            let k = vehicle_index(rows, bus_id);
            assert(stored(after[k]).bus_id == bus_id);
        }
    }
    assert forall|bus_id: u64| has_vehicle(after, bus_id) implies status_of(after)[bus_id]
        == status_of(rows).insert(record.bus_id, record)[bus_id] by {
        let k = vehicle_index(after, bus_id);
        lemma_vehicle_index(after, k);
        if bus_id == record.bus_id {
            lemma_vehicle_index(after, n);
        } else {
            assert(k < n);
            assert(stored(rows[k]).bus_id == bus_id);
            lemma_vehicle_index(rows, k);
        }
    }
    assert(status_of(after) =~= status_of(rows).insert(record.bus_id, record));
}

impl DataBase for MemoryDataBase {
    closed spec fn tables(&self) -> Tables {
        Tables {
            records: Seq::new(self.records@.len(), |i: int| stored(self.records@[i])),
            status: status_of(self.status@),
        }
    }

    fn add_record(&mut self, record: &Record) -> (done: Result<(), StoreError>)
        ensures
            done.is_ok(),
            final(self).vehicles() == old(self).vehicles(),
    {
        proof {
            use_type_invariant(&*self);
        }
        let row = record.encode();
        // The table is taken out while it grows and put back whole.
        let mut rows: Vec<Row> = Vec::new();
        std::mem::swap(&mut self.records, &mut rows);
        rows.push(row);
        std::mem::swap(&mut self.records, &mut rows);
        assert(self.tables().records =~= old(self).tables().records.push(*record));
        Ok(())
    }

    fn update_status(&mut self, record: &Record) -> (done: Result<(), StoreError>)
        ensures
            done.is_ok(),
            final(self).vehicles() == if old(self).vehicles().contains(record.bus_id) {
                old(self).vehicles()
            } else {
                old(self).vehicles().push(record.bus_id)
            },
    {
        proof {
            use_type_invariant(&*self);
        }
        let row = record.encode();
        // The table is taken out while it changes and put back whole.
        let mut rows: Vec<Row> = Vec::new();
        std::mem::swap(&mut self.status, &mut rows);
        let mut i: usize = 0;
        while i < rows.len()
            invariant
                0 <= i <= rows@.len(),
                rows@ == old(self).status@,
                one_row_per_vehicle(rows@),
                decoded(row@) == Ok::<Record, StoreError>(*record),
                forall|k: int| 0 <= k < i ==> #[trigger] stored(rows@[k]).bus_id != record.bus_id,
            ensures
                0 <= i <= rows@.len(),
                i < rows@.len() ==> stored(rows@[i as int]).bus_id == record.bus_id,
                i == rows@.len() ==> !has_vehicle(rows@, record.bus_id),
                rows@ == old(self).status@,
            decreases rows@.len() - i,
        {
            if rows[i].bus_id == row.bus_id {
                proof {
                    lemma_same_column_same_vehicle(rows@[i as int], row);
                }
                break;
            }
            proof {
                lemma_same_column_same_vehicle(rows@[i as int], row);
            }
            i += 1;
        }
        if i < rows.len() {
            proof {
                lemma_status_replaced(rows@, i as int, row, *record);
            }
            rows.set(i, row);
        } else {
            proof {
                lemma_status_appended(rows@, row, *record);
            }
            rows.push(row);
        }
        std::mem::swap(&mut self.status, &mut rows);
        proof {
            let before = old(self).status@;
            let held = old(self).vehicles();
            if i < before.len() {
                assert(held[i as int] == record.bus_id);
                assert(self.vehicles() =~= held);
            } else {
                if held.contains(record.bus_id) {
                    let k = choose|k: int| 0 <= k < held.len() && held[k] == record.bus_id;
                    assert(stored(before[k]).bus_id == record.bus_id);
                }
                assert(self.vehicles() =~= held.push(record.bus_id));
            }
        }
        Ok(())
    }

    fn list_records(&self) -> (listed: Result<Vec<Record>, StoreError>)
        ensures
            listed matches Ok(records) && records@ == self.tables().records,
    {
        proof {
            use_type_invariant(self);
        }
        assert(decoded_rows(self.records@).is_ok());
        let listed = decode_rows(&self.records);
        assert(listed matches Ok(records) && records@ =~= self.tables().records);
        listed
    }

    fn list_status(&self) -> (listed: Result<Vec<Record>, StoreError>)
        ensures
            listed matches Ok(records) && records@ == Seq::new(
                self.vehicles().len(),
                |i: int| self.tables().status[self.vehicles()[i]],
            ),
    {
        proof {
            use_type_invariant(self);
        }
        assert(decoded_rows(self.status@).is_ok());
        let listed = decode_rows(&self.status);
        proof {
            if let Ok(records) = &listed {
                let rows = self.status@;
                assert forall|i: int| 0 <= i < records@.len() implies records@[i] == stored(
                    #[trigger] rows[i],
                ) by {}
                assert forall|i: int, j: int| 0 <= i < j < records@.len() implies records@[i].bus_id
                    != records@[j].bus_id by {
                    assert(stored(rows[i]).bus_id != stored(rows[j]).bus_id);
                }
                assert forall|i: int| 0 <= i < records@.len() implies self.tables().status.contains_key(
                    #[trigger] records@[i].bus_id,
                ) && self.tables().status[records@[i].bus_id] == records@[i] by {
                    lemma_vehicle_index(rows, i);
                }
                assert forall|bus_id: u64| #[trigger]
                    self.tables().status.contains_key(bus_id) implies exists|i: int|
                    0 <= i < records@.len() && #[trigger] records@[i].bus_id == bus_id by {
                    let k = vehicle_index(rows, bus_id);
                    assert(records@[k].bus_id == bus_id);
                }
                assert(records@ =~= Seq::new(
                    self.vehicles().len(),
                    |i: int| self.tables().status[self.vehicles()[i]],
                ));
            }
        }
        listed
    }
}

} // verus!
