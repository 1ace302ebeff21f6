use bus_telemetry::error::StoreError;
use bus_telemetry::record::{decode_rows, Position, Record, Row};
use bus_telemetry::timestamp::{Timestamp, MAX_SECONDS, MIN_SECONDS};
use chrono::{DateTime, TimeDelta, Utc};

fn instant(seconds: i64, nanos: u32) -> Timestamp {
    Timestamp::new(seconds, nanos).expect("an instant in range")
}

fn position(latitude: f64, longitude: f64) -> Position {
    Position { latitude_bits: latitude.to_bits(), longitude_bits: longitude.to_bits() }
}

fn report(bus_id: u64, seconds: i64, nanos: u32, doors_open: bool) -> Record {
    Record {
        bus_id,
        timestamp: instant(seconds, nanos),
        position: position(48.137154, 11.576124),
        doors_open,
    }
}

fn row(timestamp: &str) -> Row {
    Row {
        bus_id: 7,
        timestamp: timestamp.to_string(),
        latitude_bits: 1.5f64.to_bits(),
        longitude_bits: (-2.25f64).to_bits(),
        doors_open: 0,
    }
}

#[test]
fn epoch_is_second_zero() {
    let epoch = Timestamp::epoch();
    assert_eq!(epoch.seconds(), 0);
    assert_eq!(epoch.nanos(), 0);
    assert_eq!(Some(epoch), Timestamp::new(0, 0));
    assert_eq!(epoch.seconds(), DateTime::<Utc>::UNIX_EPOCH.timestamp());
}

#[test]
fn timestamp_text_of_whole_seconds() {
    assert_eq!(instant(0, 0).to_text(), "1970-01-01T00:00:00+00:00");
    assert_eq!(instant(1431648000, 0).to_text(), "2015-05-15T00:00:00+00:00");
    assert_eq!(instant(1417176009, 0).to_text(), "2014-11-28T12:00:09+00:00");
}

#[test]
fn timestamp_text_keeps_every_subsecond_digit() {
    assert_eq!(instant(1516991409, 453_000_000).to_text(), "2018-01-26T18:30:09.453+00:00");
    assert_eq!(instant(1516991409, 453_829_000).to_text(), "2018-01-26T18:30:09.453829+00:00");
    assert_eq!(instant(1516991409, 1).to_text(), "2018-01-26T18:30:09.000000001+00:00");
}

#[test]
fn timestamp_text_of_years_outside_four_digits() {
    assert_eq!(instant(-62167219200, 0).to_text(), "0000-01-01T00:00:00+00:00");
    assert_eq!(instant(-62198755200, 0).to_text(), "-0001-01-01T00:00:00+00:00");
    assert_eq!(instant(253402300800, 0).to_text(), "+10000-01-01T00:00:00+00:00");
    assert_eq!(instant(MIN_SECONDS, 0).to_text(), "-262143-01-01T00:00:00+00:00");
    assert_eq!(
        instant(MAX_SECONDS, 999_999_999).to_text(),
        "+262142-12-31T23:59:59.999999999+00:00"
    );
}

#[test]
fn timestamp_text_of_a_leap_second() {
    assert_eq!(instant(59, 1_500_000_000).to_text(), "1970-01-01T00:00:60.500+00:00");
    assert_eq!(Timestamp::parse("1970-01-01T00:00:60.500+00:00"), Some(instant(59, 1_500_000_000)));
}

#[test]
fn timestamp_range_is_the_range_of_the_calendar() {
    assert_eq!(MIN_SECONDS, DateTime::<Utc>::MIN_UTC.timestamp());
    assert_eq!(MAX_SECONDS, DateTime::<Utc>::MAX_UTC.timestamp());
    assert!(Timestamp::new(MIN_SECONDS, 0).is_some());
    assert!(Timestamp::new(MAX_SECONDS, 999_999_999).is_some());
    assert!(Timestamp::new(MAX_SECONDS, 1_999_999_999).is_some());
    assert!(Timestamp::new(MIN_SECONDS - 1, 0).is_none());
    assert!(Timestamp::new(MAX_SECONDS + 1, 0).is_none());
    assert!(Timestamp::new(i64::MIN, 0).is_none());
    assert!(Timestamp::new(i64::MAX, 0).is_none());
    assert!(DateTime::from_timestamp(MIN_SECONDS - 1, 0).is_none());
    assert!(DateTime::from_timestamp(MAX_SECONDS + 1, 0).is_none());
}

#[test]
fn timestamp_nanoseconds_are_bounded() {
    assert!(Timestamp::new(0, 999_999_999).is_some());
    assert!(Timestamp::new(0, 1_000_000_000).is_none());
    assert!(Timestamp::new(58, 1_000_000_000).is_none());
    assert!(Timestamp::new(59, 1_000_000_000).is_some());
    assert!(Timestamp::new(59, 1_999_999_999).is_some());
    assert!(Timestamp::new(59, 2_000_000_000).is_none());
    assert!(Timestamp::new(-1, 1_000_000_000).is_some());
    assert!(Timestamp::new(-2, 1_000_000_000).is_none());
    assert!(Timestamp::new(0, u32::MAX).is_none());
}

#[test]
fn timestamp_validity_agrees_with_the_calendar() {
    let seconds = [MIN_SECONDS, MIN_SECONDS + 59, -61, -60, -2, -1, 0, 1, 58, 59, 60, 119, MAX_SECONDS];
    let nanos = [0u32, 1, 999_999_999, 1_000_000_000, 1_999_999_999, 2_000_000_000];
    for s in seconds {
        for n in nanos {
            assert_eq!(
                Timestamp::new(s, n).is_some(),
                DateTime::from_timestamp(s, n).is_some(),
                "{s} {n}"
            );
        }
    }
}

#[test]
fn timestamp_parse_reads_the_date_time_format() {
    assert_eq!(Timestamp::parse("1970-01-01T00:00:00+00:00"), Some(instant(0, 0)));
    assert_eq!(Timestamp::parse("2012-12-12T12:12:12Z"), Some(instant(1355314332, 0)));
    assert_eq!(Timestamp::parse("2012-12-12 12:12:12Z"), Some(instant(1355314332, 0)));
    assert_eq!(Timestamp::parse("2012-12-12 12:12:12+00:00"), Some(instant(1355314332, 0)));
    assert_eq!(Timestamp::parse("2012-12-12T14:12:12+02:00"), Some(instant(1355314332, 0)));
    assert_eq!(
        Timestamp::parse("2018-01-26T18:30:09.453829+00:00"),
        Some(instant(1516991409, 453_829_000))
    );
    assert_eq!(Timestamp::parse("-262143-01-01T00:00:00+00:00"), Some(instant(MIN_SECONDS, 0)));
}

#[test]
fn timestamp_parse_rejects_other_text() {
    assert_eq!(Timestamp::parse(""), None);
    assert_eq!(Timestamp::parse("yesterday"), None);
    assert_eq!(Timestamp::parse("2012-12-12"), None);
    assert_eq!(Timestamp::parse("2012-12-12T12:12:12"), None);
    assert_eq!(Timestamp::parse("2012-13-12T12:12:12Z"), None);
    assert_eq!(Timestamp::parse("1970-01-01T00:00:00+00:00 and more"), None);
    assert_eq!(Timestamp::parse("-262144-12-31T23:59:59+00:00"), None);
}

#[test]
fn timestamp_text_reads_back_as_the_same_instant() {
    let mut seconds: Vec<i64> = vec![MIN_SECONDS, MIN_SECONDS + 1, -62198755200, -62167219200, -1, 0, 1];
    seconds.extend([59, 60, 1431648000, 253402300799, 253402300800, MAX_SECONDS - 60, MAX_SECONDS]);
    let mut walk: i64 = MIN_SECONDS;
    while walk <= MAX_SECONDS - 1_000_000_007 {
        walk += 1_000_000_007;
        seconds.push(walk);
    }
    let nanos = [0u32, 1, 1_000, 999_000, 1_000_000, 120_000_000, 999_999_999, 1_000_000_000, 1_999_999_999];
    let mut checked = 0;
    for s in &seconds {
        for n in nanos {
            if let Some(t) = Timestamp::new(*s, n) {
                assert_eq!(Timestamp::parse(&t.to_text()), Some(t), "{s} {n}");
                checked += 1;
            }
        }
    }
    assert!(checked > 10_000);
}

#[test]
fn encode_gives_the_five_columns() {
    let record = Record {
        bus_id: 42,
        timestamp: instant(1431648000, 0),
        position: position(1.5, -2.25),
        doors_open: true,
    };
    let row = record.encode();
    assert_eq!(row.bus_id, 42);
    assert_eq!(row.timestamp, "2015-05-15T00:00:00+00:00");
    assert_eq!(f64::from_bits(row.latitude_bits), 1.5);
    assert_eq!(f64::from_bits(row.longitude_bits), -2.25);
    assert_eq!(row.doors_open, 1);
}

#[test]
fn encode_stores_doors_as_zero_or_one() {
    assert_eq!(report(1, 0, 0, true).encode().doors_open, 1);
    assert_eq!(report(1, 0, 0, false).encode().doors_open, 0);
}

#[test]
fn decode_reads_any_nonzero_flag_as_open() {
    for flag in [1i64, 2, 7, -1, i64::MIN, i64::MAX] {
        let mut stored = report(1, 0, 0, false).encode();
        stored.doors_open = flag;
        assert_eq!(Record::decode(&stored), Ok(report(1, 0, 0, true)));
    }
    let stored = report(1, 0, 0, true).encode();
    assert_eq!(Record::decode(&Row { doors_open: 0, ..stored }), Ok(report(1, 0, 0, false)));
}

#[test]
fn doors_come_back_as_they_were() {
    for open in [true, false] {
        let record = report(3, 1431648000, 0, open);
        assert_eq!(Record::decode(&record.encode()).map(|r| r.doors_open), Ok(open));
    }
}

#[test]
fn encode_stores_large_identifiers_as_negative_numbers() {
    assert_eq!(report(0, 0, 0, true).encode().bus_id, 0);
    assert_eq!(report(i64::MAX as u64, 0, 0, true).encode().bus_id, i64::MAX);
    assert_eq!(report(i64::MAX as u64 + 1, 0, 0, true).encode().bus_id, i64::MIN);
    assert_eq!(report(u64::MAX, 0, 0, true).encode().bus_id, -1);
}

#[test]
fn decode_reads_negative_numbers_as_large_identifiers() {
    let stored = report(0, 0, 0, true).encode();
    assert_eq!(Record::decode(&Row { bus_id: -1, ..stored }).map(|r| r.bus_id), Ok(u64::MAX));
    let stored = report(0, 0, 0, true).encode();
    assert_eq!(
        Record::decode(&Row { bus_id: i64::MIN, ..stored }).map(|r| r.bus_id),
        Ok(1u64 << 63)
    );
}

#[test]
fn decode_gives_the_report_of_a_row() {
    let read = Record::decode(&row("2015-05-15T00:00:00+00:00"));
    assert_eq!(
        read,
        Ok(Record {
            bus_id: 7,
            timestamp: instant(1431648000, 0),
            position: position(1.5, -2.25),
            doors_open: false,
        })
    );
}

#[test]
fn decode_fails_on_malformed_timestamp_text() {
    assert_eq!(Record::decode(&row("not a timestamp")), Err(StoreError::Format));
    assert_eq!(Record::decode(&row("")), Err(StoreError::Format));
    assert_eq!(Record::decode(&row("2015-05-15")), Err(StoreError::Format));
}

#[test]
fn decode_gives_back_what_encode_took() {
    let earliest = DateTime::<Utc>::MIN_UTC;
    let later = earliest + TimeDelta::seconds(5);
    let records = [
        report(0, 0, 0, true),
        report(1, 1431648000, 453_829_000, false),
        report(u64::MAX, MAX_SECONDS, 1_999_999_999, true),
        report(1 << 63, MIN_SECONDS, 0, false),
        report(9, earliest.timestamp(), earliest.timestamp_subsec_nanos(), true),
        report(9, later.timestamp(), later.timestamp_subsec_nanos(), true),
        Record {
            bus_id: 12,
            timestamp: instant(59, 1_000_000_000),
            position: position(f64::NAN, -0.0),
            doors_open: false,
        },
        Record {
            bus_id: 13,
            timestamp: instant(-1, 999_999_999),
            position: position(f64::INFINITY, f64::MIN_POSITIVE),
            doors_open: true,
        },
    ];
    for record in records {
        assert_eq!(Record::decode(&record.encode()), Ok(record));
    }
}

#[test]
fn position_passes_through_unchanged() {
    let record = Record {
        bus_id: 5,
        timestamp: instant(0, 0),
        position: position(-33.8688, 151.2093),
        doors_open: false,
    };
    let row = record.encode();
    assert_eq!(row.latitude_bits, (-33.8688f64).to_bits());
    assert_eq!(row.longitude_bits, 151.2093f64.to_bits());
    let back = Record::decode(&row).expect("a row that was just encoded");
    assert_eq!(f64::from_bits(back.position.latitude_bits), -33.8688);
    assert_eq!(f64::from_bits(back.position.longitude_bits), 151.2093);
}

#[test]
fn decode_rows_keeps_the_order() {
    let records = vec![report(2, 10, 0, true), report(1, 5, 0, false), report(2, 0, 7, true)];
    let rows: Vec<Row> = records.iter().map(|r| r.encode()).collect();
    assert_eq!(decode_rows(&rows), Ok(records));
    assert_eq!(decode_rows(&Vec::new()), Ok(Vec::new()));
}

#[test]
fn decode_rows_fails_when_one_row_does() {
    let rows = vec![
        report(2, 10, 0, true).encode(),
        row("garbled"),
        report(1, 5, 0, false).encode(),
    ];
    assert_eq!(decode_rows(&rows), Err(StoreError::Format));
    assert_eq!(decode_rows(&vec![row("garbled")]), Err(StoreError::Format));
}

#[test]
fn errors_name_themselves() {
    assert_eq!(StoreError::Connection.message(), "cannot open or initialize the storage");
    assert_eq!(StoreError::Write.message(), "cannot write the row");
    assert_eq!(StoreError::Format.message(), "cannot decode a stored row");
}
