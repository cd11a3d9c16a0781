//! Putting a storage together from its configuration, step by step.
//!
//! Opening a storage takes outside work in a fixed order: the object store,
//! then (for a read/write storage) the settings, then the caches, then the
//! database itself. Each step is a type here that says what is to be done next
//! and takes the outcome of doing it. A step that fails ends the build with its
//! error; the last step gives a plan with all that the database is opened with.

use uuid::Uuid;
use vstd::prelude::*;
use vstd::string::to_string_from_display_ensures;

use crate::ops::{StorageError, StorageErrorView, StorageResult};

verus! {

/// The types that a build hands on without looking inside.
pub trait Backend: Sized {
    /// Describes an object store that is not in memory.
    type ObjectStoreConfig;

    /// Describes a block cache.
    type BlockCacheConfig;

    /// An object store.
    type ObjectStore;

    /// Settings of the database.
    type Settings;

    /// Options of a reader.
    type ReaderOptions;

    /// A cache for blocks and metadata.
    type Cache;

    /// Records metrics.
    type MetricsRecorder;

    /// Merges values.
    type MergeOperator;
}

/// Describes the object store of a storage.
pub enum ObjectStoreConfig<C> {
    /// A store in memory.
    InMemory,
    /// Any other store, as `C` describes it.
    Other(C),
}

/// Configuration of a storage.
pub struct SlateDbStorageConfig<B: Backend> {
    /// Path of the database within the object store.
    pub path: String,
    pub object_store: ObjectStoreConfig<B::ObjectStoreConfig>,
    /// File to load the settings from, if they are not to be searched for.
    pub settings_path: Option<String>,
    pub block_cache: Option<B::BlockCacheConfig>,
    pub meta_cache: Option<B::BlockCacheConfig>,
}

impl<B: Backend> SlateDbStorageConfig<B> {
    /// The configuration of a storage in memory: no settings file and no caches.
    pub fn in_memory() -> (config: Self)
        ensures
            config.path@ == "test"@,
            config.object_store is InMemory,
            config.settings_path is None,
            config.block_cache is None,
            config.meta_cache is None,
    {
        SlateDbStorageConfig {
            path: "test".to_owned(),
            object_store: ObjectStoreConfig::InMemory,
            settings_path: None,
            block_cache: None,
            meta_cache: None,
        }
    }
}

/// Where settings are loaded from.
pub enum SettingsSource<'a> {
    /// From this file; a failure is an error.
    File(&'a String),
    /// From SlateDB's usual places; a failure leaves the default settings.
    Search,
}

/// The message of an error that names what failed, then the cause.
pub open spec fn failure_text(what: Seq<char>, cause: Seq<char>) -> Seq<char> {
    what + ": "@ + cause
}

/// The error that names what failed, then the cause.
fn failure<E: std::fmt::Display>(what: String, e: E) -> (error: StorageError)
    ensures
        exists|cause: String| #[trigger]
            to_string_from_display_ensures(&e, cause) && error@ == StorageErrorView::Storage(
                failure_text(what@, cause@),
            ),
{
    let cause = e.to_string();
    StorageError::Storage(what.concat(": ").concat(cause.as_str()))
}

/// `result` fails with an error that says `what` failed because of `e`.
pub open spec fn fails_because<T, E: std::fmt::Display>(
    result: StorageResult<T>,
    what: Seq<char>,
    e: E,
) -> bool {
    exists|cause: String| #[trigger]
        to_string_from_display_ensures(&e, cause) && (result matches Err(error) && error@
            == StorageErrorView::Storage(failure_text(what, cause@)))
}

/// A read/write storage whose object store is to be created.
pub struct StorageBuild<'a, B: Backend> {
    pub config: &'a SlateDbStorageConfig<B>,
    pub metrics_recorder: B::MetricsRecorder,
    pub merge_operator: Option<B::MergeOperator>,
}

impl<'a, B: Backend> StorageBuild<'a, B> {
    /// The build once its object store is created, or the reason why it is not.
    pub open spec fn after_object_store(
        self,
        outcome: StorageResult<B::ObjectStore>,
    ) -> StorageResult<StorageBuildWithStore<'a, B>> {
        match outcome {
            Ok(object_store) => Ok(StorageBuildWithStore { build: self, object_store }),
            Err(e) => Err(e),
        }
    }

    /// Starts to build a storage from `config`.
    pub fn new(
        config: &'a SlateDbStorageConfig<B>,
        metrics_recorder: B::MetricsRecorder,
        merge_operator: Option<B::MergeOperator>,
    ) -> (build: Self)
        ensures
            build == (StorageBuild { config, metrics_recorder, merge_operator }),
    {
        StorageBuild { config, metrics_recorder, merge_operator }
    }

    /// Starts to build a storage from `config` that always has a merge
    /// operator, as one in memory does.
    pub fn in_memory(
        config: &'a SlateDbStorageConfig<B>,
        metrics_recorder: B::MetricsRecorder,
        operator: B::MergeOperator,
    ) -> (build: Self)
        ensures
            build == (StorageBuild { config, metrics_recorder, merge_operator: Some(operator) }),
    {
        Self::new(config, metrics_recorder, Some(operator))
    }

    /// The object store to create.
    pub fn object_store_config(&self) -> (wanted: &ObjectStoreConfig<B::ObjectStoreConfig>)
        ensures
            *wanted == self.config.object_store,
    {
        &self.config.object_store
    }

    /// Takes the object store, or the reason why there is none.
    pub fn object_store_created(self, outcome: StorageResult<B::ObjectStore>) -> (next:
        StorageResult<StorageBuildWithStore<'a, B>>)
        ensures
            next == self.after_object_store(outcome),
    {
        match outcome {
            Ok(object_store) => Ok(StorageBuildWithStore { build: self, object_store }),
            Err(e) => Err(e),
        }
    }
}

/// A read/write storage whose settings are to be loaded.
pub struct StorageBuildWithStore<'a, B: Backend> {
    pub build: StorageBuild<'a, B>,
    pub object_store: B::ObjectStore,
}

impl<'a, B: Backend> StorageBuildWithStore<'a, B> {
    /// The build once it has its settings.
    pub open spec fn after_settings(
        self,
        settings: B::Settings,
    ) -> StorageBuildWithSettings<'a, B> {
        StorageBuildWithSettings { build: self.build, object_store: self.object_store, settings }
    }

    /// Where to load the settings from.
    pub fn settings_source(&self) -> (source: SettingsSource<'a>)
        ensures
            source == match self.build.config.settings_path {
                Some(path) => SettingsSource::File(&path),
                None => SettingsSource::Search,
            },
    {
        match &self.build.config.settings_path {
            Some(path) => SettingsSource::File(path),
            None => SettingsSource::Search,
        }
    }

    /// Takes the settings loaded, or the reason why there are none. Where the
    /// settings were searched for, `default` takes the place of a failure.
    pub fn settings_loaded<E: std::fmt::Display>(
        self,
        outcome: Result<B::Settings, E>,
        default: B::Settings,
    ) -> (next: StorageResult<StorageBuildWithSettings<'a, B>>)
        ensures
            match (outcome, self.build.config.settings_path) {
                (Ok(settings), _) => next == Ok::<_, StorageError>(self.after_settings(settings)),
                (Err(_), None) => next == Ok::<_, StorageError>(self.after_settings(default)),
                (Err(e), Some(path)) => fails_because(
                    next,
                    "Failed to load SlateDB settings from "@ + path@,
                    e,
                ),
            },
    {
        let settings = match outcome {
            Ok(settings) => settings,
            Err(e) => match &self.build.config.settings_path {
                Some(path) => {
                    let what = "Failed to load SlateDB settings from ".to_owned().concat(
                        path.as_str(),
                    );
                    return Err(failure(what, e));
                },
                None => default,
            },
        };
        Ok(
            StorageBuildWithSettings {
                build: self.build,
                object_store: self.object_store,
                settings,
            },
        )
    }
}

/// A read/write storage whose caches are to be built.
pub struct StorageBuildWithSettings<'a, B: Backend> {
    pub build: StorageBuild<'a, B>,
    pub object_store: B::ObjectStore,
    pub settings: B::Settings,
}

impl<'a, B: Backend> StorageBuildWithSettings<'a, B> {
    /// The plan once the cache is built, or the reason why it is not.
    pub open spec fn after_cache(self, outcome: StorageResult<Option<B::Cache>>) -> StorageResult<
        StoragePlan<B>,
    > {
        match outcome {
            Ok(cache) => Ok(
                StoragePlan {
                    path: self.build.config.path,
                    object_store: self.object_store,
                    settings: self.settings,
                    metrics_recorder: self.build.metrics_recorder,
                    cache,
                    merge_operator: self.build.merge_operator,
                },
            ),
            Err(e) => Err(e),
        }
    }

    /// The block cache and the metadata cache to build.
    pub fn cache_configs(&self) -> (wanted: (
        &Option<B::BlockCacheConfig>,
        &Option<B::BlockCacheConfig>,
    ))
        ensures
            *wanted.0 == self.build.config.block_cache,
            *wanted.1 == self.build.config.meta_cache,
    {
        (&self.build.config.block_cache, &self.build.config.meta_cache)
    }

    /// Takes the cache built, if one is configured, or the reason why it
    /// could not be.
    pub fn cache_built(self, outcome: StorageResult<Option<B::Cache>>) -> (plan: StorageResult<
        StoragePlan<B>,
    >)
        ensures
            plan == self.after_cache(outcome),
    {
        match outcome {
            Ok(cache) => Ok(
                StoragePlan {
                    path: self.build.config.path.clone(),
                    object_store: self.object_store,
                    settings: self.settings,
                    metrics_recorder: self.build.metrics_recorder,
                    cache,
                    merge_operator: self.build.merge_operator,
                },
            ),
            Err(e) => Err(e),
        }
    }
}

/// All that a read/write database is opened with.
pub struct StoragePlan<B: Backend> {
    pub path: String,
    pub object_store: B::ObjectStore,
    pub settings: B::Settings,
    pub metrics_recorder: B::MetricsRecorder,
    pub cache: Option<B::Cache>,
    pub merge_operator: Option<B::MergeOperator>,
}

/// The read/write database opened, or the reason why it could not be.
pub fn storage_opened<D, E: std::fmt::Display>(outcome: Result<D, E>) -> (result: StorageResult<D>)
    ensures
        match outcome {
            Ok(db) => result == Ok::<D, StorageError>(db),
            Err(e) => fails_because(result, "Failed to create SlateDB"@, e),
        },
{
    match outcome {
        Ok(db) => Ok(db),
        Err(e) => Err(failure("Failed to create SlateDB".to_owned(), e)),
    }
}

/// A read-only storage whose object store is to be created.
pub struct ReaderBuild<'a, B: Backend> {
    pub config: &'a SlateDbStorageConfig<B>,
    pub options: B::ReaderOptions,
    pub metrics_recorder: B::MetricsRecorder,
    pub checkpoint_id: Option<Uuid>,
    pub merge_operator: Option<B::MergeOperator>,
}

impl<'a, B: Backend> ReaderBuild<'a, B> {
    /// The build once its object store is created, or the reason why it is not.
    pub open spec fn after_object_store(
        self,
        outcome: StorageResult<B::ObjectStore>,
    ) -> StorageResult<ReaderBuildWithStore<'a, B>> {
        match outcome {
            Ok(object_store) => Ok(ReaderBuildWithStore { build: self, object_store }),
            Err(e) => Err(e),
        }
    }

    /// Starts to build a reader from `config`, pinned to a checkpoint if
    /// `checkpoint_id` is set.
    pub fn new(
        config: &'a SlateDbStorageConfig<B>,
        options: B::ReaderOptions,
        metrics_recorder: B::MetricsRecorder,
        checkpoint_id: Option<Uuid>,
        merge_operator: Option<B::MergeOperator>,
    ) -> (build: Self)
        ensures
            build == (ReaderBuild {
                config,
                options,
                metrics_recorder,
                checkpoint_id,
                merge_operator,
            }),
    {
        ReaderBuild { config, options, metrics_recorder, checkpoint_id, merge_operator }
    }

    /// The object store to create.
    pub fn object_store_config(&self) -> (wanted: &ObjectStoreConfig<B::ObjectStoreConfig>)
        ensures
            *wanted == self.config.object_store,
    {
        &self.config.object_store
    }

    /// Takes the object store, or the reason why there is none.
    pub fn object_store_created(self, outcome: StorageResult<B::ObjectStore>) -> (next:
        StorageResult<ReaderBuildWithStore<'a, B>>)
        ensures
            next == self.after_object_store(outcome),
    {
        match outcome {
            Ok(object_store) => Ok(ReaderBuildWithStore { build: self, object_store }),
            Err(e) => Err(e),
        }
    }
}

/// A read-only storage whose caches are to be built.
pub struct ReaderBuildWithStore<'a, B: Backend> {
    pub build: ReaderBuild<'a, B>,
    pub object_store: B::ObjectStore,
}

impl<'a, B: Backend> ReaderBuildWithStore<'a, B> {
    /// The plan once the cache is built, or the reason why it is not.
    pub open spec fn after_cache(self, outcome: StorageResult<Option<B::Cache>>) -> StorageResult<
        ReaderPlan<B>,
    > {
        match outcome {
            Ok(cache) => Ok(
                ReaderPlan {
                    path: self.build.config.path,
                    object_store: self.object_store,
                    options: self.build.options,
                    metrics_recorder: self.build.metrics_recorder,
                    checkpoint_id: self.build.checkpoint_id,
                    merge_operator: self.build.merge_operator,
                    cache,
                },
            ),
            Err(e) => Err(e),
        }
    }

    /// The block cache and the metadata cache to build.
    pub fn cache_configs(&self) -> (wanted: (
        &Option<B::BlockCacheConfig>,
        &Option<B::BlockCacheConfig>,
    ))
        ensures
            *wanted.0 == self.build.config.block_cache,
            *wanted.1 == self.build.config.meta_cache,
    {
        (&self.build.config.block_cache, &self.build.config.meta_cache)
    }

    /// Takes the cache built, if one is configured, or the reason why it
    /// could not be.
    pub fn cache_built(self, outcome: StorageResult<Option<B::Cache>>) -> (plan: StorageResult<
        ReaderPlan<B>,
    >)
        ensures
            plan == self.after_cache(outcome),
    {
        match outcome {
            Ok(cache) => Ok(
                ReaderPlan {
                    path: self.build.config.path.clone(),
                    object_store: self.object_store,
                    options: self.build.options,
                    metrics_recorder: self.build.metrics_recorder,
                    checkpoint_id: self.build.checkpoint_id,
                    merge_operator: self.build.merge_operator,
                    cache,
                },
            ),
            Err(e) => Err(e),
        }
    }
}

/// All that a read-only database is opened with.
pub struct ReaderPlan<B: Backend> {
    pub path: String,
    pub object_store: B::ObjectStore,
    pub options: B::ReaderOptions,
    pub metrics_recorder: B::MetricsRecorder,
    pub checkpoint_id: Option<Uuid>,
    pub merge_operator: Option<B::MergeOperator>,
    pub cache: Option<B::Cache>,
}

/// The reader opened, or the reason why it could not be.
pub fn reader_opened<D, E: std::fmt::Display>(outcome: Result<D, E>) -> (result: StorageResult<D>)
    ensures
        match outcome {
            Ok(reader) => result == Ok::<D, StorageError>(reader),
            Err(e) => fails_because(result, "Failed to create SlateDB reader"@, e),
        },
{
    match outcome {
        Ok(reader) => Ok(reader),
        Err(e) => Err(failure("Failed to create SlateDB reader".to_owned(), e)),
    }
}

} // verus!
