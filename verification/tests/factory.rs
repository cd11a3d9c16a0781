use std::sync::Arc;

use bytes::Bytes;
use slatedb::config::{DbReaderOptions, Settings};
use slatedb::db_cache::DbCache;
use slatedb::object_store::local::LocalFileSystem;
use slatedb::object_store::memory::InMemory;
use slatedb::object_store::ObjectStore;
use slatedb::{DbBuilder, DbReader, MergeOperator};
use timeseries::batch::WriteRequest;
use timeseries::factory::{
    reader_opened, storage_opened, Backend, ObjectStoreConfig, ReaderBuild, ReaderPlan, SettingsSource,
    SlateDbStorageConfig, StorageBuild, StoragePlan,
};
use timeseries::ops::{Record, StorageError};
use timeseries::slate::{get_result, storage_result};
use uuid::Uuid;

struct Words;

impl Backend for Words {
    type ObjectStoreConfig = &'static str;
    type BlockCacheConfig = &'static str;
    type ObjectStore = &'static str;
    type Settings = &'static str;
    type ReaderOptions = &'static str;
    type Cache = &'static str;
    type MetricsRecorder = &'static str;
    type MergeOperator = &'static str;
}

fn config(settings_path: Option<&str>) -> SlateDbStorageConfig<Words> {
    SlateDbStorageConfig {
        path: "data".to_string(),
        object_store: ObjectStoreConfig::Other("local"),
        settings_path: settings_path.map(|path| path.to_string()),
        block_cache: Some("block"),
        meta_cache: None,
    }
}

fn failed() -> StorageError {
    StorageError::Internal("failed".to_string())
}

#[test]
fn storage_build_gathers_what_the_steps_gave() {
    let config = config(None);
    let build = StorageBuild::new(&config, "recorder", Some("operator"));
    assert!(matches!(build.object_store_config(), ObjectStoreConfig::Other("local")));
    let build = build.object_store_created(Ok("store")).ok().unwrap();
    assert!(matches!(build.settings_source(), SettingsSource::Search));
    let build = build.settings_loaded::<&str>(Ok("settings"), "default").ok().unwrap();
    assert_eq!(build.cache_configs(), (&Some("block"), &None));
    let plan: StoragePlan<Words> = build.cache_built(Ok(Some("cache"))).ok().unwrap();
    assert_eq!(plan.path, "data");
    assert_eq!(plan.object_store, "store");
    assert_eq!(plan.settings, "settings");
    assert_eq!(plan.metrics_recorder, "recorder");
    assert_eq!(plan.cache, Some("cache"));
    assert_eq!(plan.merge_operator, Some("operator"));
}

#[test]
fn settings_that_are_searched_for_fall_back_to_the_default() {
    let config = config(None);
    let build = StorageBuild::new(&config, "recorder", None);
    let build = build.object_store_created(Ok("store")).ok().unwrap();
    let build = build.settings_loaded(Err("no file"), "default").ok().unwrap();
    let plan: StoragePlan<Words> = build.cache_built(Ok(None)).ok().unwrap();
    assert_eq!(plan.settings, "default");
    assert_eq!(plan.cache, None);
    assert_eq!(plan.merge_operator, None);
}

#[test]
fn settings_file_that_cannot_be_loaded_is_an_error() {
    let config = config(Some("slate.toml"));
    let build = StorageBuild::new(&config, "recorder", None);
    let build = build.object_store_created(Ok("store")).ok().unwrap();
    match build.settings_source() {
        SettingsSource::File(path) => assert_eq!(path, "slate.toml"),
        SettingsSource::Search => panic!("not a file"),
    }
    let error = build.settings_loaded(Err("no file"), "default").err().unwrap();
    let expected = "Failed to load SlateDB settings from slate.toml: no file";
    assert_eq!(error, StorageError::Storage(expected.to_string()));
}

#[test]
fn failed_step_ends_the_storage_build() {
    let config = config(None);
    let build = StorageBuild::new(&config, "recorder", None);
    assert_eq!(build.object_store_created(Err(failed())).err().unwrap(), failed());
    let build = StorageBuild::new(&config, "recorder", None);
    let build = build.object_store_created(Ok("store")).ok().unwrap();
    let build = build.settings_loaded::<&str>(Ok("settings"), "default").ok().unwrap();
    assert_eq!(build.cache_built(Err(failed())).err().unwrap(), failed());
}

#[test]
fn reader_build_gathers_what_the_steps_gave() {
    let config = config(None);
    let pin = Some(Uuid::from_u128(3));
    let build = ReaderBuild::new(&config, "options", "recorder", pin, Some("operator"));
    assert!(matches!(build.object_store_config(), ObjectStoreConfig::Other("local")));
    let build = build.object_store_created(Ok("store")).ok().unwrap();
    assert_eq!(build.cache_configs(), (&Some("block"), &None));
    let plan: ReaderPlan<Words> = build.cache_built(Ok(Some("cache"))).ok().unwrap();
    assert_eq!(plan.path, "data");
    assert_eq!(plan.object_store, "store");
    assert_eq!(plan.options, "options");
    assert_eq!(plan.metrics_recorder, "recorder");
    assert_eq!(plan.checkpoint_id, pin);
    assert_eq!(plan.merge_operator, Some("operator"));
    assert_eq!(plan.cache, Some("cache"));
}

#[test]
fn failed_step_ends_the_reader_build() {
    let config = config(None);
    let build = ReaderBuild::new(&config, "options", "recorder", None, None);
    assert_eq!(build.object_store_created(Err(failed())).err().unwrap(), failed());
    let build = ReaderBuild::new(&config, "options", "recorder", None, None);
    let build = build.object_store_created(Ok("store")).ok().unwrap();
    assert_eq!(build.cache_built(Err(failed())).err().unwrap(), failed());
}

#[test]
fn failure_to_open_names_what_failed() {
    assert_eq!(storage_opened::<u8, &str>(Ok(1)), Ok(1));
    assert_eq!(
        storage_opened::<u8, &str>(Err("fenced")),
        Err(StorageError::Storage("Failed to create SlateDB: fenced".to_string()))
    );
    assert_eq!(reader_opened::<u8, &str>(Ok(1)), Ok(1));
    assert_eq!(
        reader_opened::<u8, &str>(Err("no manifest")),
        Err(StorageError::Storage("Failed to create SlateDB reader: no manifest".to_string()))
    );
}

#[test]
fn in_memory_config_has_no_settings_file_and_no_caches() {
    let config: SlateDbStorageConfig<Words> = SlateDbStorageConfig::in_memory();
    assert_eq!(config.path, "test");
    assert!(matches!(config.object_store, ObjectStoreConfig::InMemory));
    assert_eq!(config.settings_path, None);
    assert_eq!(config.block_cache, None);
    assert_eq!(config.meta_cache, None);
}

#[test]
fn in_memory_build_always_has_a_merge_operator() {
    let config: SlateDbStorageConfig<Words> = SlateDbStorageConfig::in_memory();
    let build = StorageBuild::in_memory(&config, "recorder", "operator");
    assert!(matches!(build.object_store_config(), ObjectStoreConfig::InMemory));
    let build = build.object_store_created(Ok("store")).ok().unwrap();
    assert!(matches!(build.settings_source(), SettingsSource::Search));
    let build = build.settings_loaded::<&str>(Ok("settings"), "default").ok().unwrap();
    assert_eq!(build.cache_configs(), (&None, &None));
    let plan: StoragePlan<Words> = build.cache_built(Ok(None)).ok().unwrap();
    assert_eq!(plan.path, "test");
    assert_eq!(plan.metrics_recorder, "recorder");
    assert_eq!(plan.merge_operator, Some("operator"));
}

struct Slate;

impl Backend for Slate {
    type ObjectStoreConfig = ();
    type BlockCacheConfig = ();
    type ObjectStore = Arc<dyn ObjectStore>;
    type Settings = Settings;
    type ReaderOptions = DbReaderOptions;
    type Cache = Arc<dyn DbCache>;
    type MetricsRecorder = ();
    type MergeOperator = Arc<dyn MergeOperator + Send + Sync>;
}

#[test]
fn should_work_without_block_cache() {
    let runtime = tokio::runtime::Builder::new_current_thread().enable_all().build().unwrap();
    runtime.block_on(async {
        let tmp = tempfile::tempdir().unwrap();
        let config: SlateDbStorageConfig<Slate> = SlateDbStorageConfig {
            path: "data".to_string(),
            object_store: ObjectStoreConfig::Other(()),
            settings_path: None,
            block_cache: None,
            meta_cache: None,
        };
        let local = LocalFileSystem::new_with_prefix(tmp.path()).unwrap();
        let store: Arc<dyn ObjectStore> = Arc::new(local);
        let build = StorageBuild::new(&config, (), None);
        let build = build.object_store_created(Ok(store)).ok().unwrap();
        let build = build.settings_loaded(Settings::load(), Settings::default()).ok().unwrap();
        let plan = build.cache_built(Ok(None)).ok().unwrap();
        let builder = DbBuilder::new(plan.path, plan.object_store).with_settings(plan.settings);
        let storage = storage_opened(builder.build().await);
        assert!(storage.is_ok());
        storage_result(storage.ok().unwrap().close().await).unwrap();
    });
}

#[test]
fn plans_open_a_storage_and_its_reader() {
    let runtime = tokio::runtime::Builder::new_current_thread().enable_all().build().unwrap();
    runtime.block_on(async {
        let store: Arc<dyn ObjectStore> = Arc::new(InMemory::new());
        let config: SlateDbStorageConfig<Slate> = SlateDbStorageConfig::in_memory();

        let build = StorageBuild::new(&config, (), None);
        let build = build.object_store_created(Ok(store.clone())).ok().unwrap();
        let build = build.settings_loaded::<&str>(Err("none"), Settings::default()).ok().unwrap();
        let plan = build.cache_built(Ok(None)).ok().unwrap();
        let builder = DbBuilder::new(plan.path, plan.object_store).with_settings(plan.settings);
        let db = storage_opened(builder.build().await).unwrap();
        let record = Record::new(Bytes::from("k"), Bytes::from("v"));
        let request = WriteRequest::put(vec![record.into()]);
        db.write(request.batch).await.unwrap();
        storage_result(db.flush().await).unwrap();

        let options = DbReaderOptions::default();
        let build = ReaderBuild::new(&config, options, (), None, None);
        let build = build.object_store_created(Ok(store.clone())).ok().unwrap();
        let plan = build.cache_built(Ok(None)).ok().unwrap();
        let builder = DbReader::builder(plan.path, plan.object_store).with_options(plan.options);
        let reader = reader_opened(builder.build().await).unwrap();
        let key = Bytes::from("k");
        let found = get_result(key.clone(), reader.get(&key).await).unwrap().unwrap();
        assert_eq!(found.value, Bytes::from("v"));
        storage_result(db.close().await).unwrap();
    });
}
