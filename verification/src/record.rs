//! A report of one vehicle, the row it is stored as, and the mapping between
//! the two.

use vstd::prelude::*;
use crate::error::StoreError;
use crate::timestamp::{parsed_timestamp, Timestamp};

verus! {

/// A geographic position.  Each coordinate is held as the bit pattern of a
/// 64-bit floating-point number of degrees; no range is enforced.  Two
/// positions are equal when their bit patterns are.
#[derive(Clone, Copy, Debug, PartialEq, Eq, Structural)]
pub struct Position {
    pub latitude_bits: u64,
    pub longitude_bits: u64,
}

/// One report of a vehicle.  A report is never changed: a newer one replaces
/// it.
#[derive(Clone, Copy, Debug, PartialEq, Eq, Structural)]
pub struct Record {
    /// The vehicle.  Many reports may share it.
    pub bus_id: u64,
    pub timestamp: Timestamp,
    pub position: Position,
    pub doors_open: bool,
}

/// A report as a table holds it: five scalar columns.
#[derive(Debug, PartialEq, Eq)]
pub struct Row {
    /// The vehicle, as a signed integer.
    pub bus_id: i64,
    /// The instant, as date-time text.
    pub timestamp: String,
    /// Bit pattern of the latitude column.
    pub latitude_bits: u64,
    /// Bit pattern of the longitude column.
    pub longitude_bits: u64,
    /// Zero for closed doors, anything else for open ones.
    pub doors_open: i64,
}

/// What a [`Row`] holds, as mathematical values.
pub ghost struct RowView {
    pub bus_id: int,
    pub timestamp: Seq<char>,
    pub latitude_bits: u64,
    pub longitude_bits: u64,
    pub doors_open: int,
}

impl View for Row {
    type V = RowView;

    open spec fn view(&self) -> RowView {
        RowView {
            bus_id: self.bus_id as int,
            timestamp: self.timestamp@,
            latitude_bits: self.latitude_bits,
            longitude_bits: self.longitude_bits,
            doors_open: self.doors_open as int,
        }
    }
}

/// The signed column value of a vehicle identifier: the identifier itself
/// while it fits, and the identifier less 2^64 above that.
pub open spec fn signed_id(bus_id: u64) -> int {
    if bus_id <= i64::MAX {
        bus_id as int
    } else {
        bus_id - 0x1_0000_0000_0000_0000
    }
}

/// The vehicle identifier of a signed column value: the inverse of
/// [`signed_id`].
pub open spec fn unsigned_id(column: int) -> int {
    if column >= 0 {
        column
    } else {
        column + 0x1_0000_0000_0000_0000
    }
}

/// The column value of a door state: one for open, zero for closed.
pub open spec fn door_flag(open: bool) -> int {
    if open {
        1
    } else {
        0
    }
}

/// The door state of a column value: anything but zero is open.
pub open spec fn flag_open(column: int) -> bool {
    column != 0
}

/// The row that stores `record`.
pub open spec fn encoded(record: Record) -> RowView {
    RowView {
        bus_id: signed_id(record.bus_id),
        timestamp: record.timestamp.text(),
        latitude_bits: record.position.latitude_bits,
        longitude_bits: record.position.longitude_bits,
        doors_open: door_flag(record.doors_open),
    }
}

/// The report that `row` stores, or the failure where its text is no
/// date-time.
pub open spec fn decoded(row: RowView) -> Result<Record, StoreError> {
    match parsed_timestamp(row.timestamp) {
        Some(timestamp) => Ok(
            Record {
                bus_id: unsigned_id(row.bus_id) as u64,
                timestamp,
                position: Position {
                    latitude_bits: row.latitude_bits,
                    longitude_bits: row.longitude_bits,
                },
                doors_open: flag_open(row.doors_open),
            },
        ),
        None => Err(StoreError::Format),
    }
}

/// Whether every one of `rows` stores a report.
pub open spec fn all_decode(rows: Seq<Row>) -> bool {
    forall|i: int| 0 <= i < rows.len() ==> (#[trigger] decoded(rows[i]@)).is_ok()
}

/// The reports that `rows` store, in the order of the rows, or the failure
/// where one of them stores none.
pub open spec fn decoded_rows(rows: Seq<Row>) -> Result<Seq<Record>, StoreError> {
    if all_decode(rows) {
        Ok(Seq::new(rows.len(), |i: int| decoded(rows[i]@).unwrap()))
    } else {
        Err(StoreError::Format)
    }
}

/// A vehicle identifier comes back from its signed column value.
pub proof fn lemma_bus_id_round_trip(bus_id: u64)
    ensures
        i64::MIN <= signed_id(bus_id) <= i64::MAX,
        unsigned_id(signed_id(bus_id)) == bus_id,
{
}

/// A door state is stored as zero or one, and comes back from it.
pub proof fn lemma_doors_round_trip(open: bool)
    ensures
        door_flag(open) == 0 || door_flag(open) == 1,
        door_flag(open) == 1 <==> open,
        flag_open(door_flag(open)) == open,
{
}

impl Record {
    /// The row that stores the report.  Decoding that row gives the report
    /// back.
    pub fn encode(&self) -> (row: Row)
        ensures
            row@ == encoded(*self),
            decoded(row@) == Ok::<Record, StoreError>(*self),
    {
        let bus_id: i64 = self.bus_id as i64;
        assert(bus_id as int == signed_id(self.bus_id)) by {
            let id = self.bus_id;
            assert(id <= 0x7fff_ffff_ffff_ffffu64 ==> (id as i64) as int == id as int)
                by (bit_vector);
            assert(id > 0x7fff_ffff_ffff_ffffu64 ==> (id as i64) as int == id as int
                - 0x1_0000_0000_0000_0000) by (bit_vector);
        }
        let timestamp = self.timestamp.to_text();
        let doors_open: i64 = if self.doors_open {
            1
        } else {
            0
        };
        Row {
            bus_id,
            timestamp,
            latitude_bits: self.position.latitude_bits,
            longitude_bits: self.position.longitude_bits,
            doors_open,
        }
    }

    /// The report that `row` stores.  Fails where the timestamp text is not
    /// in the date-time format, and on nothing else.
    pub fn decode(row: &Row) -> (read: Result<Record, StoreError>)
        ensures
            read == decoded(row@),
    {
        match Timestamp::parse(row.timestamp.as_str()) {
            Some(timestamp) => {
                let bus_id: u64 = row.bus_id as u64;
                assert(bus_id as int == unsigned_id(row.bus_id as int)) by {
                    let column = row.bus_id;
                    assert(column >= 0 ==> (column as u64) as int == column as int)
                        by (bit_vector);
                    assert(column < 0 ==> (column as u64) as int == column as int
                        + 0x1_0000_0000_0000_0000) by (bit_vector);
                }
                Ok(
                    Record {
                        bus_id,
                        timestamp,
                        position: Position {
                            latitude_bits: row.latitude_bits,
                            longitude_bits: row.longitude_bits,
                        },
                        doors_open: row.doors_open != 0,
                    },
                )
            },
            None => Err(StoreError::Format),
        }
    }
}

/// Decodes every row of a table, in order.  Fails where one of the rows
/// cannot be decoded, whatever the others hold.
pub fn decode_rows(rows: &Vec<Row>) -> (read: Result<Vec<Record>, StoreError>)
    ensures
        match read {
            Ok(records) => decoded_rows(rows@) == Ok::<Seq<Record>, StoreError>(records@),
            Err(error) => decoded_rows(rows@) == Err::<Seq<Record>, StoreError>(error),
        },
{
    let mut records: Vec<Record> = Vec::new();
    let mut i: usize = 0;
    while i < rows.len()
        invariant
            0 <= i <= rows.len(),
            records.len() == i,
            forall|k: int|
                0 <= k < i ==> #[trigger] decoded(rows@[k]@) == Ok::<Record, StoreError>(
                    records@[k],
                ),
        decreases rows.len() - i,
    {
        match Record::decode(&rows[i]) {
            Ok(record) => records.push(record),
            Err(error) => {
                assert(!decoded(rows@[i as int]@).is_ok());
                return Err(error);
            },
        }
        i += 1;
    }
    assert(all_decode(rows@));
    assert(records@ =~= Seq::new(rows@.len(), |i: int| decoded(rows@[i]@).unwrap()));
    Ok(records)
}

} // verus!
