//! What a storage or a reader is opened with, for every outcome of the steps.

use uuid::Uuid;
use vstd::prelude::*;
use vstd::string::to_string_from_display_ensures;

use crate::factory::{
    reader_opened, storage_opened, Backend, ObjectStoreConfig, ReaderBuild, ReaderBuildWithStore,
    ReaderPlan, SettingsSource, SlateDbStorageConfig, StorageBuild, StorageBuildWithSettings,
    StorageBuildWithStore, StoragePlan,
};
use crate::ops::{StorageError, StorageResult};

verus! {

/// A storage in memory is at the path `test` of a store in memory, with no
/// settings file and no cache, and has the merge operator that it was given.
pub proof fn law_in_memory_storage_is_in_memory_with_a_merge_operator<B: Backend>(
    config: SlateDbStorageConfig<B>,
    metrics_recorder: B::MetricsRecorder,
    operator: B::MergeOperator,
    build: StorageBuild<'_, B>,
)
    requires
        call_ensures(SlateDbStorageConfig::<B>::in_memory, (), config),
        call_ensures(StorageBuild::<B>::in_memory, (&config, metrics_recorder, operator), build),
    ensures
        config.path@ == "test"@,
        config.object_store is InMemory,
        config.settings_path is None,
        config.block_cache is None,
        config.meta_cache is None,
        *build.config == config,
        build.metrics_recorder == metrics_recorder,
        build.merge_operator is Some,
        build.merge_operator->0 == operator,
{
}

/// The steps of a read/write storage ask for what its configuration names: the
/// object store, the settings file or a search for settings, and both caches.
pub proof fn law_storage_steps_ask_for_what_is_configured<B: Backend>(
    build: StorageBuild<'_, B>,
    with_store: StorageBuildWithStore<'_, B>,
    with_settings: StorageBuildWithSettings<'_, B>,
    store: &ObjectStoreConfig<B::ObjectStoreConfig>,
    source: SettingsSource<'_>,
    caches: (&Option<B::BlockCacheConfig>, &Option<B::BlockCacheConfig>),
)
    requires
        call_ensures(StorageBuild::<B>::object_store_config, (&build,), store),
        call_ensures(StorageBuildWithStore::<B>::settings_source, (&with_store,), source),
        call_ensures(StorageBuildWithSettings::<B>::cache_configs, (&with_settings,), caches),
    ensures
        *store == build.config.object_store,
        with_store.build.config.settings_path is None ==> source is Search,
        with_store.build.config.settings_path is Some ==> source is File && *source->File_0
            == with_store.build.config.settings_path->0,
        *caches.0 == with_settings.build.config.block_cache,
        *caches.1 == with_settings.build.config.meta_cache,
{
}

/// A read/write storage whose steps all succeed is opened at its configured
/// path with exactly what it was given and what the steps gave.
pub proof fn law_storage_steps_lose_and_change_nothing<B: Backend, E: std::fmt::Display>(
    config: SlateDbStorageConfig<B>,
    metrics_recorder: B::MetricsRecorder,
    merge_operator: Option<B::MergeOperator>,
    object_store: B::ObjectStore,
    settings: B::Settings,
    default: B::Settings,
    cache: Option<B::Cache>,
    build: StorageBuild<'_, B>,
    after_store: StorageResult<StorageBuildWithStore<'_, B>>,
    after_settings: StorageResult<StorageBuildWithSettings<'_, B>>,
    plan: StorageResult<StoragePlan<B>>,
)
    requires
        call_ensures(StorageBuild::<B>::new, (&config, metrics_recorder, merge_operator), build),
        call_ensures(
            StorageBuild::<B>::object_store_created,
            (build, Ok(object_store)),
            after_store,
        ),
        call_ensures(
            StorageBuildWithStore::<B>::settings_loaded::<E>,
            (after_store->Ok_0, Ok(settings), default),
            after_settings,
        ),
        call_ensures(
            StorageBuildWithSettings::<B>::cache_built,
            (after_settings->Ok_0, Ok(cache)),
            plan,
        ),
    ensures
        after_store is Ok,
        after_settings is Ok,
        plan is Ok,
        plan->Ok_0.path@ == config.path@,
        plan->Ok_0.object_store == object_store,
        plan->Ok_0.settings == settings,
        plan->Ok_0.metrics_recorder == metrics_recorder,
        plan->Ok_0.cache == cache,
        plan->Ok_0.merge_operator == merge_operator,
{
}

/// Settings that were searched for and could not be loaded are the default
/// settings. Nothing else of the build changes.
pub proof fn law_settings_searched_for_fall_back_to_the_default<B: Backend, E: std::fmt::Display>(
    build: StorageBuildWithStore<'_, B>,
    e: E,
    default: B::Settings,
    next: StorageResult<StorageBuildWithSettings<'_, B>>,
)
    requires
        build.build.config.settings_path is None,
        call_ensures(
            StorageBuildWithStore::<B>::settings_loaded::<E>,
            (build, Err(e), default),
            next,
        ),
    ensures
        next is Ok,
        next->Ok_0.settings == default,
        next->Ok_0.object_store == build.object_store,
        next->Ok_0.build == build.build,
{
}

/// A settings file that could not be loaded ends the build, with an error that
/// names the file and the cause.
pub proof fn law_settings_file_that_fails_is_named<B: Backend, E: std::fmt::Display>(
    build: StorageBuildWithStore<'_, B>,
    e: E,
    default: B::Settings,
    next: StorageResult<StorageBuildWithSettings<'_, B>>,
)
    requires
        build.build.config.settings_path is Some,
        call_ensures(
            StorageBuildWithStore::<B>::settings_loaded::<E>,
            (build, Err(e), default),
            next,
        ),
    ensures
        next is Err,
        next->Err_0 is Storage,
        exists|cause: String| #[trigger]
            to_string_from_display_ensures(&e, cause) && next->Err_0->Storage_0@
                == "Failed to load SlateDB settings from "@ + build.build.config.settings_path->0@
                + ": "@ + cause@,
{
}

/// An object store or a cache that could not be made ends the build of a
/// read/write storage, with the very error that it gave.
pub proof fn law_storage_step_that_fails_gives_its_error<B: Backend>(
    build: StorageBuild<'_, B>,
    with_settings: StorageBuildWithSettings<'_, B>,
    e: StorageError,
    after_store: StorageResult<StorageBuildWithStore<'_, B>>,
    plan: StorageResult<StoragePlan<B>>,
)
    requires
        call_ensures(StorageBuild::<B>::object_store_created, (build, Err(e)), after_store),
        call_ensures(StorageBuildWithSettings::<B>::cache_built, (with_settings, Err(e)), plan),
    ensures
        after_store is Err,
        after_store->Err_0 == e,
        plan is Err,
        plan->Err_0 == e,
{
}

/// A database that opens is handed on as it is; one that does not gives an
/// error that says so and names the cause.
pub proof fn law_database_is_handed_on_or_its_failure_named<D, E: std::fmt::Display>(
    db: D,
    e: E,
    good: StorageResult<D>,
    bad: StorageResult<D>,
)
    requires
        call_ensures(storage_opened::<D, E>, (Ok(db),), good),
        call_ensures(storage_opened::<D, E>, (Err(e),), bad),
    ensures
        good is Ok,
        good->Ok_0 == db,
        bad is Err,
        bad->Err_0 is Storage,
        exists|cause: String| #[trigger]
            to_string_from_display_ensures(&e, cause) && bad->Err_0->Storage_0@
                == "Failed to create SlateDB: "@ + cause@,
{
    reveal_strlit("Failed to create SlateDB");
    reveal_strlit(": ");
    reveal_strlit("Failed to create SlateDB: ");
    assert("Failed to create SlateDB"@ + ": "@ =~= "Failed to create SlateDB: "@);
}

/// The steps of a reader ask for what its configuration names: the object store
/// and both caches.
pub proof fn law_reader_steps_ask_for_what_is_configured<B: Backend>(
    build: ReaderBuild<'_, B>,
    with_store: ReaderBuildWithStore<'_, B>,
    store: &ObjectStoreConfig<B::ObjectStoreConfig>,
    caches: (&Option<B::BlockCacheConfig>, &Option<B::BlockCacheConfig>),
)
    requires
        call_ensures(ReaderBuild::<B>::object_store_config, (&build,), store),
        call_ensures(ReaderBuildWithStore::<B>::cache_configs, (&with_store,), caches),
    ensures
        *store == build.config.object_store,
        *caches.0 == with_store.build.config.block_cache,
        *caches.1 == with_store.build.config.meta_cache,
{
}

/// A reader whose steps all succeed is opened at its configured path with
/// exactly what it was given and what the steps gave. It is pinned if and only
/// if it was given a checkpoint, and to that one.
pub proof fn law_reader_steps_lose_and_change_nothing<B: Backend>(
    config: SlateDbStorageConfig<B>,
    options: B::ReaderOptions,
    metrics_recorder: B::MetricsRecorder,
    checkpoint_id: Option<Uuid>,
    merge_operator: Option<B::MergeOperator>,
    object_store: B::ObjectStore,
    cache: Option<B::Cache>,
    build: ReaderBuild<'_, B>,
    after_store: StorageResult<ReaderBuildWithStore<'_, B>>,
    plan: StorageResult<ReaderPlan<B>>,
)
    requires
        call_ensures(
            ReaderBuild::<B>::new,
            (&config, options, metrics_recorder, checkpoint_id, merge_operator),
            build,
        ),
        call_ensures(
            ReaderBuild::<B>::object_store_created,
            (build, Ok(object_store)),
            after_store,
        ),
        call_ensures(
            ReaderBuildWithStore::<B>::cache_built,
            (after_store->Ok_0, Ok(cache)),
            plan,
        ),
    ensures
        after_store is Ok,
        plan is Ok,
        plan->Ok_0.path@ == config.path@,
        plan->Ok_0.object_store == object_store,
        plan->Ok_0.options == options,
        plan->Ok_0.metrics_recorder == metrics_recorder,
        plan->Ok_0.checkpoint_id == checkpoint_id,
        plan->Ok_0.merge_operator == merge_operator,
        plan->Ok_0.cache == cache,
{
}

/// An object store or a cache that could not be made ends the build of a
/// reader, with the very error that it gave.
pub proof fn law_reader_step_that_fails_gives_its_error<B: Backend>(
    build: ReaderBuild<'_, B>,
    with_store: ReaderBuildWithStore<'_, B>,
    e: StorageError,
    after_store: StorageResult<ReaderBuildWithStore<'_, B>>,
    plan: StorageResult<ReaderPlan<B>>,
)
    requires
        call_ensures(ReaderBuild::<B>::object_store_created, (build, Err(e)), after_store),
        call_ensures(ReaderBuildWithStore::<B>::cache_built, (with_store, Err(e)), plan),
    ensures
        after_store is Err,
        after_store->Err_0 == e,
        plan is Err,
        plan->Err_0 == e,
{
}

/// A reader that opens is handed on as it is; one that does not gives an error
/// that says so and names the cause.
pub proof fn law_reader_is_handed_on_or_its_failure_named<D, E: std::fmt::Display>(
    reader: D,
    e: E,
    good: StorageResult<D>,
    bad: StorageResult<D>,
)
    requires
        call_ensures(reader_opened::<D, E>, (Ok(reader),), good),
        call_ensures(reader_opened::<D, E>, (Err(e),), bad),
    ensures
        good is Ok,
        good->Ok_0 == reader,
        bad is Err,
        bad->Err_0 is Storage,
        exists|cause: String| #[trigger]
            to_string_from_display_ensures(&e, cause) && bad->Err_0->Storage_0@
                == "Failed to create SlateDB reader: "@ + cause@,
{
    reveal_strlit("Failed to create SlateDB reader");
    reveal_strlit(": ");
    reveal_strlit("Failed to create SlateDB reader: ");
    assert("Failed to create SlateDB reader"@ + ": "@ =~= "Failed to create SlateDB reader: "@);
}

} // verus!
