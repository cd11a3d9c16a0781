use std::sync::Arc;

use bytes::Bytes;
use slatedb::config::{CheckpointOptions, Settings};
use slatedb::object_store::memory::InMemory;
use slatedb::{Db, DbBuilder, DbReader, MergeOperator, MergeOperatorError};
use slatedb_common::clock::MockSystemClock;
use timeseries::batch::WriteRequest;
use timeseries::ops::{
    MergeOptions, MergeRecordOp, PutOptions, PutRecordOp, Record, RecordOp, StorageError,
    StorageResult, Ttl, WriteOptions, WriteResult,
};
use timeseries::scan::{Scan, ScanStep};
use timeseries::slate::{
    checkpoint_result, checkpoint_scope, default_scan_options, get_result, merge_error,
    merge_result, next_result, storage_result, write_result, CheckpointScope, DurabilityLevel,
    IterationOrder, ScanOptions,
};
use uuid::Uuid;

fn block_on<F: std::future::Future>(future: F) -> F::Output {
    tokio::runtime::Builder::new_current_thread()
        .enable_all()
        .build()
        .unwrap()
        .block_on(future)
}

fn record(key: &'static str, value: &'static str) -> Record {
    Record::new(Bytes::from(key), Bytes::from(value))
}

async fn send(db: &Db, request: WriteRequest) -> Result<u64, slatedb::Error> {
    let options = slatedb::config::WriteOptions {
        await_durable: request.options.await_durable,
        ..Default::default()
    };
    db.write_with_options(request.batch, &options).await.map(|handle| handle.seqnum())
}

async fn write(db: &Db, request: WriteRequest) -> StorageResult<WriteResult> {
    write_result(send(db, request).await)
}

async fn open(path: &str, store: Arc<InMemory>) -> Db {
    DbBuilder::new(path, store).build().await.unwrap()
}

async fn open_reader(path: &str, store: Arc<InMemory>) -> DbReader {
    DbReader::builder(path, store).build().await.unwrap()
}

async fn read(reader: &DbReader, key: &'static str) -> StorageResult<Option<Record>> {
    let key = Bytes::from(key);
    get_result(key.clone(), reader.get(&key).await)
}

async fn get(db: &Db, key: &'static str) -> StorageResult<Option<Record>> {
    let key = Bytes::from(key);
    get_result(key.clone(), db.get(&key).await)
}

async fn reader_can_see(path: &str, store: Arc<InMemory>, key: &'static str) -> bool {
    let reader = open_reader(path, store).await;
    read(&reader, key).await.unwrap().is_some()
}

fn slate_scan_options(options: ScanOptions) -> slatedb::config::ScanOptions {
    slatedb::config::ScanOptions {
        durability_filter: match options.durability_filter {
            DurabilityLevel::Remote => slatedb::config::DurabilityLevel::Remote,
            DurabilityLevel::Memory => slatedb::config::DurabilityLevel::Memory,
        },
        dirty: options.dirty,
        read_ahead_bytes: options.read_ahead_bytes,
        cache_blocks: options.cache_blocks,
        max_fetch_tasks: options.max_fetch_tasks,
        order: match options.order {
            IterationOrder::Ascending => slatedb::IterationOrder::Ascending,
            IterationOrder::Descending => slatedb::IterationOrder::Descending,
        },
        filter_context: None,
    }
}

struct ConcatMergeOperator;

impl MergeOperator for ConcatMergeOperator {
    fn merge(
        &self,
        _key: &Bytes,
        existing_value: Option<Bytes>,
        value: Bytes,
    ) -> Result<Bytes, MergeOperatorError> {
        let mut result = existing_value.unwrap_or_default().to_vec();
        result.extend_from_slice(&value);
        Ok(Bytes::from(result))
    }

    fn merge_batch(
        &self,
        _key: &Bytes,
        existing_value: Option<Bytes>,
        operands: &[Bytes],
    ) -> Result<Bytes, MergeOperatorError> {
        if operands.is_empty() && existing_value.is_none() {
            return Err(MergeOperatorError::EmptyBatch);
        }
        let mut result = existing_value.unwrap_or_default().to_vec();
        for operand in operands {
            result.extend_from_slice(operand);
        }
        Ok(Bytes::from(result))
    }
}

async fn open_with_merge_operator(path: &str) -> Db {
    DbBuilder::new(path, Arc::new(InMemory::new()))
        .with_merge_operator(Arc::new(ConcatMergeOperator))
        .build()
        .await
        .unwrap()
}

#[test]
fn should_read_data_written_by_storage_via_reader() {
    block_on(async {
        let store = Arc::new(InMemory::new());
        let path = "/test/db";
        let db = open(path, store.clone()).await;
        let request = WriteRequest::put(vec![
            record("key1", "value1").into(),
            record("key2", "value2").into(),
        ]);
        write(&db, request).await.unwrap();
        storage_result(db.flush().await).unwrap();

        let reader = open_reader(path, store.clone()).await;
        let found = read(&reader, "key1").await.unwrap().unwrap();
        assert_eq!(found.key, Bytes::from("key1"));
        assert_eq!(found.value, Bytes::from("value1"));
        let found = read(&reader, "key2").await.unwrap().unwrap();
        assert_eq!(found.value, Bytes::from("value2"));
        assert!(read(&reader, "key3").await.unwrap().is_none());

        storage_result(db.close().await).unwrap();
    });
}

#[test]
fn should_scan_data_written_by_storage_via_reader() {
    block_on(async {
        let store = Arc::new(InMemory::new());
        let path = "/test/db";
        let db = open(path, store.clone()).await;
        let request = WriteRequest::put(vec![
            record("a", "1").into(),
            record("b", "2").into(),
            record("c", "3").into(),
        ]);
        write(&db, request).await.unwrap();
        storage_result(db.flush().await).unwrap();

        let reader = open_reader(path, store.clone()).await;
        let options = slate_scan_options(default_scan_options());
        let opened = reader.scan_with_options::<Vec<u8>, _>(.., &options).await;
        let mut iter = storage_result(opened).unwrap();
        let mut scan = Scan::new();
        let results = loop {
            let entry = iter.next().await.map(|entry| entry.map(|kv| (kv.key, kv.value)));
            match scan.next(next_result(entry)) {
                ScanStep::Continue(next) => scan = next,
                ScanStep::Finished(result) => break result.unwrap(),
            }
        };

        assert_eq!(results.len(), 3);
        assert_eq!((&results[0].key, &results[0].value), (&Bytes::from("a"), &Bytes::from("1")));
        assert_eq!((&results[1].key, &results[1].value), (&Bytes::from("b"), &Bytes::from("2")));
        assert_eq!((&results[2].key, &results[2].value), (&Bytes::from("c"), &Bytes::from("3")));

        storage_result(db.close().await).unwrap();
    });
}

#[test]
fn should_set_expire_ts_based_on_ttl() {
    block_on(async {
        let clock = Arc::new(MockSystemClock::new());
        let db = DbBuilder::new("/test/ttl_db", Arc::new(InMemory::new()))
            .with_settings(Settings { default_ttl: Some(30_000), ..Default::default() })
            .with_system_clock(clock.clone())
            .build()
            .await
            .unwrap();
        let put = |key, value, ttl| {
            PutRecordOp::new_with_options(record(key, value), PutOptions { ttl })
        };
        let request = WriteRequest::put(vec![
            put("key1", "value1", Ttl::ExpireAfter(20_000)),
            put("key2", "value2", Ttl::Default),
            put("key3", "value3", Ttl::NoExpiry),
            put("key4", "value4", Ttl::ExpireAt(77)),
        ]);
        write(&db, request).await.unwrap();

        let kv1 = db.get_key_value(b"key1").await.unwrap().unwrap();
        assert_eq!(kv1.expire_ts, Some(20_000));
        let kv2 = db.get_key_value(b"key2").await.unwrap().unwrap();
        assert_eq!(kv2.expire_ts, Some(30_000));
        let kv3 = db.get_key_value(b"key3").await.unwrap().unwrap();
        assert_eq!(kv3.expire_ts, None);
        let kv4 = db.get_key_value(b"key4").await.unwrap().unwrap();
        assert_eq!(kv4.expire_ts, Some(77));

        storage_result(db.close().await).unwrap();
    });
}

#[test]
fn should_set_expire_ts_on_merge_records_based_on_ttl() {
    block_on(async {
        let clock = Arc::new(MockSystemClock::new());
        let db = DbBuilder::new("/test/merge_ttl_db", Arc::new(InMemory::new()))
            .with_settings(Settings { default_ttl: Some(30_000), ..Default::default() })
            .with_system_clock(clock.clone())
            .with_merge_operator(Arc::new(ConcatMergeOperator))
            .build()
            .await
            .unwrap();
        let merge = |key, value, ttl| {
            MergeRecordOp::new_with_ttl(record(key, value), MergeOptions { ttl })
        };
        let request = WriteRequest::merge(vec![
            merge("key1", "v1", Ttl::ExpireAfter(20_000)),
            merge("key2", "v2", Ttl::Default),
            merge("key3", "v3", Ttl::NoExpiry),
            merge("key4", "v4", Ttl::ExpireAt(77)),
        ]);
        merge_result(send(&db, request).await).unwrap();

        let kv1 = db.get_key_value(b"key1").await.unwrap().unwrap();
        assert_eq!(kv1.value, Bytes::from("v1"));
        assert_eq!(kv1.expire_ts, Some(20_000));
        let kv2 = db.get_key_value(b"key2").await.unwrap().unwrap();
        assert_eq!(kv2.value, Bytes::from("v2"));
        assert_eq!(kv2.expire_ts, Some(30_000));
        let kv3 = db.get_key_value(b"key3").await.unwrap().unwrap();
        assert_eq!(kv3.value, Bytes::from("v3"));
        assert_eq!(kv3.expire_ts, None);
        let kv4 = db.get_key_value(b"key4").await.unwrap().unwrap();
        assert_eq!(kv4.value, Bytes::from("v4"));
        assert_eq!(kv4.expire_ts, Some(77));

        storage_result(db.close().await).unwrap();
    });
}

#[test]
fn put_defaults_to_not_await_durable() {
    block_on(async {
        let store = Arc::new(InMemory::new());
        let path = "/test/put_default_durability";
        let db = open(path, store.clone()).await;
        let request = WriteRequest::put(vec![record("k1", "v1").into()]);
        assert!(!request.options.await_durable);
        write(&db, request).await.unwrap();

        assert!(!reader_can_see(path, store.clone(), "k1").await);
        storage_result(db.flush().await).unwrap();
        assert!(reader_can_see(path, store.clone(), "k1").await);

        storage_result(db.close().await).unwrap();
    });
}

#[test]
fn apply_with_await_durable_true_is_visible_to_reader() {
    block_on(async {
        let store = Arc::new(InMemory::new());
        let path = "/test/apply_durable";
        let db = open(path, store.clone()).await;
        let request = WriteRequest::apply_with_options(
            vec![RecordOp::Put(record("k1", "v1").into())],
            WriteOptions { await_durable: true },
        );
        write(&db, request).await.unwrap();

        assert!(reader_can_see(path, store.clone(), "k1").await);
        storage_result(db.close().await).unwrap();
    });
}

#[test]
fn snapshot_sees_writes_made_before_it() {
    block_on(async {
        let db = open("/test/snapshot", Arc::new(InMemory::new())).await;
        let request = WriteRequest::put(vec![record("k1", "v1").into()]);
        write(&db, request).await.unwrap();

        let snapshot = storage_result(db.snapshot().await).unwrap();
        let request = WriteRequest::put(vec![record("k1", "v2").into()]);
        write(&db, request).await.unwrap();

        let key = Bytes::from("k1");
        let found = get_result(key.clone(), snapshot.get(&key).await).unwrap().unwrap();
        assert_eq!(found.value, Bytes::from("v1"));

        storage_result(db.close().await).unwrap();
    });
}

#[test]
fn last_put_or_delete_on_a_key_decides() {
    block_on(async {
        let db = open_with_merge_operator("/test/decides").await;
        let merge = |key, value| RecordOp::Merge(record(key, value).into());
        let put = |key, value| RecordOp::Put(record(key, value).into());
        let request = WriteRequest::apply(vec![
            put("a", "old"),
            merge("b", "x"),
            put("a", "new"),
            put("c", "gone"),
            merge("b", "y"),
            merge("d", "lost"),
            RecordOp::Delete(Bytes::from("c")),
            put("d", "p"),
            merge("d", "q"),
            merge("d", "r"),
        ]);
        assert!(!request.options.await_durable);
        write(&db, request).await.unwrap();

        assert_eq!(get(&db, "a").await.unwrap().unwrap().value, Bytes::from("new"));
        assert_eq!(get(&db, "b").await.unwrap().unwrap().value, Bytes::from("xy"));
        assert!(get(&db, "c").await.unwrap().is_none());
        assert_eq!(get(&db, "d").await.unwrap().unwrap().value, Bytes::from("pqr"));
        storage_result(db.close().await).unwrap();
    });
}

#[test]
fn order_across_keys_is_of_no_consequence() {
    block_on(async {
        let merge = |key, value| RecordOp::Merge(record(key, value).into());
        let put = |key, value| RecordOp::Put(record(key, value).into());
        let orders = [
            vec![put("a", "1"), put("b", "x"), merge("a", "2"), merge("b", "y")],
            vec![put("b", "x"), merge("b", "y"), put("a", "1"), merge("a", "2")],
        ];
        for ops in orders {
            let db = open_with_merge_operator("/test/order").await;
            write(&db, WriteRequest::apply(ops)).await.unwrap();
            assert_eq!(get(&db, "a").await.unwrap().unwrap().value, Bytes::from("12"));
            assert_eq!(get(&db, "b").await.unwrap().unwrap().value, Bytes::from("xy"));
            assert!(get(&db, "c").await.unwrap().is_none());
            storage_result(db.close().await).unwrap();
        }
    });
}

#[test]
fn put_and_merge_are_apply_of_puts_and_merges() {
    block_on(async {
        let puts = [("k", "1"), ("k", "2")];
        let merges = [("k", "3"), ("k", "4")];
        let put = puts.map(|(key, value)| PutRecordOp::new(record(key, value)));
        let merge = merges.map(|(key, value)| MergeRecordOp::new(record(key, value)));
        let requests = [
            [
                WriteRequest::put(put.to_vec()),
                WriteRequest::merge(merge.to_vec()),
            ],
            [
                WriteRequest::apply(put.map(RecordOp::Put).into()),
                WriteRequest::apply(merge.map(RecordOp::Merge).into()),
            ],
        ];
        for pair in requests {
            let db = open_with_merge_operator("/test/same").await;
            for request in pair {
                write(&db, request).await.unwrap();
            }
            assert_eq!(get(&db, "k").await.unwrap().unwrap().value, Bytes::from("234"));
            storage_result(db.close().await).unwrap();
        }
    });
}

#[test]
fn delete_removes_what_was_written_before() {
    block_on(async {
        let db = open("/test/delete", Arc::new(InMemory::new())).await;
        let first = write(&db, WriteRequest::put(vec![record("k", "v").into()])).await.unwrap();
        assert!(get(&db, "k").await.unwrap().is_some());
        let request = WriteRequest::apply(vec![RecordOp::Delete(Bytes::from("k"))]);
        let second = write(&db, request).await.unwrap();
        assert!(get(&db, "k").await.unwrap().is_none());
        assert!(first.seqnum < second.seqnum);
        storage_result(db.close().await).unwrap();
    });
}

#[test]
fn empty_batch_is_empty() {
    assert!(WriteRequest::apply(vec![]).batch.is_empty());
    assert!(WriteRequest::put(vec![]).batch.is_empty());
    assert!(WriteRequest::merge(vec![]).batch.is_empty());
    assert!(!WriteRequest::put(vec![record("k", "").into()]).batch.is_empty());
}

#[test]
fn merge_without_operator_gives_a_clear_error() {
    block_on(async {
        let db = open("/test/no_operator", Arc::new(InMemory::new())).await;
        let request = WriteRequest::merge_with_options(
            vec![record("k", "v").into()],
            WriteOptions { await_durable: true },
        );
        assert!(request.options.await_durable);
        assert_eq!(
            merge_result(send(&db, request).await).unwrap_err(),
            StorageError::Storage("Merge operator not configured for this database".to_string())
        );
        storage_result(db.close().await).unwrap();
    });
}

#[test]
fn merge_error_replaces_only_messages_about_the_operator() {
    let clear =
        StorageError::Storage("Merge operator not configured for this database".to_string());
    assert_eq!(merge_error("a merge operator is missing".to_string()), clear);
    assert_eq!(merge_error("merge operator".to_string()), clear);
    assert_eq!(merge_error("it is not configured".to_string()), clear);
    for other in ["", "Merge Operator", "mergeoperator", "not  configured", "merge operato"] {
        assert_eq!(merge_error(other.to_string()), StorageError::Storage(other.to_string()));
    }
}

#[test]
fn merge_result_keeps_other_errors() {
    assert_eq!(merge_result::<&str>(Ok(9)), Ok(WriteResult { seqnum: 9 }));
    assert_eq!(merge_result(Err("timeout")), Err(StorageError::Storage("timeout".to_string())));
}

#[test]
fn write_result_carries_the_sequence_number() {
    assert_eq!(write_result::<&str>(Ok(u64::MAX)), Ok(WriteResult { seqnum: u64::MAX }));
    assert_eq!(
        write_result(Err("no merge operator")),
        Err(StorageError::Storage("no merge operator".to_string()))
    );
}

#[test]
fn read_errors_are_storage_errors() {
    let error = StorageError::Storage("gone".to_string());
    assert_eq!(get_result(Bytes::from("k"), Err("gone")).unwrap_err(), error);
    assert_eq!(next_result(Err("gone")).unwrap_err(), error);
    assert_eq!(storage_result::<(), &str>(Err("gone")).unwrap_err(), error);
    assert_eq!(checkpoint_result(Err("gone")).unwrap_err(), error);
}

#[test]
fn closed_database_answers_with_a_storage_error() {
    block_on(async {
        let db = open("/test/closed", Arc::new(InMemory::new())).await;
        storage_result(db.close().await).unwrap();
        match get(&db, "k").await {
            Err(StorageError::Storage(msg)) => assert!(msg.contains("Closed error")),
            _ => panic!("not a storage error"),
        }
    });
}

#[test]
fn checkpoint_result_names_the_checkpoint() {
    let info = checkpoint_result::<&str>(Ok((Uuid::from_u128(11), 4))).unwrap();
    assert_eq!(info.id, Uuid::from_u128(11));
    assert_eq!(info.manifest_id, 4);
}

#[test]
fn checkpoints_cover_all_data() {
    assert_eq!(checkpoint_scope(), CheckpointScope::All);
}

#[test]
fn reader_pinned_to_a_checkpoint_does_not_advance() {
    block_on(async {
        let store = Arc::new(InMemory::new());
        let path = "/test/checkpoint";
        let db = open(path, store.clone()).await;
        write(&db, WriteRequest::put(vec![record("k", "old").into()])).await.unwrap();
        let options = CheckpointOptions::default();
        let scope = match checkpoint_scope() {
            CheckpointScope::All => slatedb::config::CheckpointScope::All,
            CheckpointScope::Durable => slatedb::config::CheckpointScope::Durable,
        };
        let created = db.create_checkpoint(scope, &options);
        let info = checkpoint_result(created.await.map(|c| (c.id, c.manifest_id))).unwrap();
        write(&db, WriteRequest::put(vec![record("k", "new").into()])).await.unwrap();
        storage_result(db.flush().await).unwrap();

        let reader = DbReader::builder(path, store.clone())
            .with_checkpoint_id(info.id)
            .build()
            .await
            .unwrap();
        let found = read(&reader, "k").await.unwrap().unwrap();
        assert_eq!(found.value, Bytes::from("old"));
        storage_result(db.close().await).unwrap();
    });
}

#[test]
fn default_scan_options_values() {
    let options = default_scan_options();
    assert_eq!(options.durability_filter, DurabilityLevel::Memory);
    assert!(!options.dirty);
    assert_eq!(options.read_ahead_bytes, 1024 * 1024);
    assert!(options.cache_blocks);
    assert_eq!(options.max_fetch_tasks, 4);
    assert_eq!(options.order, IterationOrder::Ascending);
}

#[test]
fn checked_requests_refuse_what_cannot_be_written() {
    let options = WriteOptions::default();
    let put = |key: usize| PutRecordOp::new(Record::empty(Bytes::from(vec![b'k'; key])));
    let merge = |key: usize| MergeRecordOp::new(Record::empty(Bytes::from(vec![b'k'; key])));
    let delete = |key: usize| RecordOp::Delete(Bytes::from(vec![b'k'; key]));
    let puts = |sizes: &[usize]| {
        let records = sizes.iter().map(|n| put(*n)).collect();
        WriteRequest::checked_put_with_options(records, options.clone())
    };
    let merges = |sizes: &[usize]| {
        let records = sizes.iter().map(|n| merge(*n)).collect();
        WriteRequest::checked_merge_with_options(records, options.clone())
    };
    let ops = |records| WriteRequest::checked_apply_with_options(records, options.clone());

    assert!(!puts(&[1, 65535]).unwrap().batch.is_empty());
    assert!(puts(&[1, 0]).is_none());
    assert!(puts(&[65536, 1]).is_none());
    assert!(!merges(&[1, 65535]).unwrap().batch.is_empty());
    assert!(merges(&[0]).is_none());
    assert!(merges(&[1, 65536]).is_none());
    let fitting = vec![delete(1), RecordOp::Put(put(1)), RecordOp::Merge(merge(65535))];
    assert!(!ops(fitting).unwrap().batch.is_empty());
    assert!(ops(vec![delete(1), delete(0)]).is_none());
    assert!(ops(vec![delete(65536)]).is_none());
    assert!(ops(vec![RecordOp::Put(put(0))]).is_none());
    assert!(ops(vec![RecordOp::Merge(merge(65536))]).is_none());
}
