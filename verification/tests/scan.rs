use bytes::Bytes;
use timeseries::ops::{Record, StorageError, StorageResult};
use timeseries::scan::{Scan, ScanStep};

fn record(key: &'static str, value: &'static str) -> Record {
    Record::new(Bytes::from(key), Bytes::from(value))
}

/// Runs a scan on `answers`; the number of answers it took, and its result.
fn run(answers: Vec<StorageResult<Option<Record>>>) -> (usize, StorageResult<Vec<Record>>) {
    let mut scan = Scan::new();
    let mut taken = 0;
    for answer in answers {
        taken += 1;
        match scan.next(answer) {
            ScanStep::Continue(next) => scan = next,
            ScanStep::Finished(result) => return (taken, result),
        }
    }
    panic!("the scan is not over");
}

#[test]
fn scan_of_nothing_is_empty() {
    let (taken, result) = run(vec![Ok(None)]);
    assert_eq!(taken, 1);
    assert_eq!(result.unwrap().len(), 0);
}

#[test]
fn scan_gives_every_record_in_order() {
    let (taken, result) = run(vec![
        Ok(Some(record("a", "1"))),
        Ok(Some(record("b", "2"))),
        Ok(Some(record("c", "3"))),
        Ok(None),
        Ok(Some(record("d", "4"))),
    ]);
    assert_eq!(taken, 4);
    let records = result.unwrap();
    assert_eq!(records.len(), 3);
    assert_eq!((&records[0].key, &records[0].value), (&Bytes::from("a"), &Bytes::from("1")));
    assert_eq!((&records[1].key, &records[1].value), (&Bytes::from("b"), &Bytes::from("2")));
    assert_eq!((&records[2].key, &records[2].value), (&Bytes::from("c"), &Bytes::from("3")));
}

#[test]
fn scan_gives_the_first_error_alone() {
    let error = StorageError::Storage("lost".to_string());
    let (taken, result) = run(vec![
        Ok(Some(record("a", "1"))),
        Err(error.clone()),
        Ok(None),
    ]);
    assert_eq!(taken, 2);
    assert_eq!(result.unwrap_err(), error);
}
