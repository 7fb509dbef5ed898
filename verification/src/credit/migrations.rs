//! Storage-schema migrations.
//!
//! Migrations are keyed by the version they migrate from: the step at `0`
//! upgrades storage from version 0 to version 1. Each step only fills in what
//! is missing, so a retried step never overwrites live values.

use vstd::prelude::*;
use crate::credit::types::{Failure, PanicReason, SCHEMA_VERSION};

verus! {

/// The instance-storage entries the schema migrations read and write.
#[derive(Clone, Copy, Debug, PartialEq, Eq, Structural)]
pub struct SchemaStore {
    pub schema_version: Option<u32>,
    pub credit_line_count: Option<u32>,
    pub total_utilized: Option<i128>,
}

/// Emitted when storage moves from one schema version to another.
#[derive(Clone, Copy, Debug, PartialEq, Eq, Structural)]
pub struct SchemaVersionEvent {
    pub from: u32,
    pub to: u32,
}

/// A registered migration step.
#[derive(Clone, Copy, Debug, PartialEq, Eq, Structural)]
pub enum Migration {
    /// Version 0 to version 1: backfill the global counters.
    ZeroToOne,
}

/// The step registered for migrating from `from_version`, if any.
pub open spec fn spec_migration_for(from_version: u32) -> Option<Migration> {
    if from_version == 0 { Some(Migration::ZeroToOne) } else { None }
}

/// The step registered for migrating from `from_version`, if any.
pub fn migration_for(from_version: u32) -> (r: Option<Migration>)
    ensures
        r == spec_migration_for(from_version),
{
    match from_version {
        0 => Some(Migration::ZeroToOne),
        _ => None,
    }
}

/// Storage after the version-0-to-1 step: missing counters start at zero,
/// present ones are kept.
pub open spec fn spec_backfilled(store: SchemaStore) -> SchemaStore {
    SchemaStore {
        credit_line_count: match store.credit_line_count { Some(c) => Some(c), None => Some(0u32) },
        total_utilized: match store.total_utilized { Some(t) => Some(t), None => Some(0i128) },
        ..store
    }
}

/// Backfill the version-1 global counters that are missing.
pub fn migrate_0_to_1(store: SchemaStore) -> (r: SchemaStore)
    ensures
        r == spec_backfilled(store),
{
    let credit_line_count = match store.credit_line_count {
        Some(c) => Some(c),
        None => Some(0u32),
    };
    let total_utilized = match store.total_utilized {
        Some(t) => Some(t),
        None => Some(0i128),
    };
    SchemaStore { credit_line_count, total_utilized, ..store }
}

/// The stored schema version, zero when none is recorded.
pub open spec fn stored_version(store: SchemaStore) -> u32 {
    match store.schema_version { Some(v) => v, None => 0 }
}

/// What `migrate_storage` does: the storage after migration and the event
/// emitted, if any.
pub open spec fn spec_migrate_storage(store: SchemaStore) -> Result<(SchemaStore, Option<SchemaVersionEvent>), Failure> {
    let from = stored_version(store);
    if from == SCHEMA_VERSION {
        Ok((store, None))
    } else if from > SCHEMA_VERSION {
        Err(Failure::Panic(PanicReason::SchemaVersionTooNew))
    } else {
        Ok((
            SchemaStore { schema_version: Some(SCHEMA_VERSION), ..spec_backfilled(store) },
            Some(SchemaVersionEvent { from, to: SCHEMA_VERSION }),
        ))
    }
}

/// Run every registered migration from the stored version up to
/// [`SCHEMA_VERSION`], then record the new version and report the move.
/// Storage already at the target is left alone; storage from a newer version
/// is refused.
pub fn migrate_storage(store: SchemaStore) -> (r: Result<(SchemaStore, Option<SchemaVersionEvent>), Failure>)
    ensures
        r == spec_migrate_storage(store),
{
    let from = match store.schema_version {
        Some(v) => v,
        None => 0,
    };
    let target = SCHEMA_VERSION;
    if from == target {
        return Ok((store, None));
    }
    if from > target {
        return Err(Failure::Panic(PanicReason::SchemaVersionTooNew));
    }
    let mut current = from;
    let mut migrated = store;
    while current < target
        invariant
            from < target == SCHEMA_VERSION,
            from <= current <= target,
            current == from ==> migrated == store,
            current > from ==> migrated == spec_backfilled(store),
        decreases target - current,
    {
        let step = match migration_for(current) {
            Some(m) => m,
            None => return Err(Failure::Panic(PanicReason::MissingMigration)),
        };
        match step {
            Migration::ZeroToOne => {
                migrated = migrate_0_to_1(migrated);
            },
        }
        current = current + 1;
    }
    migrated.schema_version = Some(target);
    Ok((migrated, Some(SchemaVersionEvent { from, to: target })))
}

/// Migration is idempotent: migrating already-migrated storage changes
/// nothing and emits no event.
pub proof fn lemma_migration_idempotent(store: SchemaStore)
    requires
        spec_migrate_storage(store) is Ok,
    ensures
        spec_migrate_storage(spec_migrate_storage(store)->Ok_0.0)
            == Ok::<(SchemaStore, Option<SchemaVersionEvent>), Failure>((spec_migrate_storage(store)->Ok_0.0, None)),
{
}

/// A successful migration leaves storage at the target version, keeps every
/// counter that was present, and leaves no counter missing.
pub proof fn lemma_migration_preserves_counters(store: SchemaStore)
    requires
        spec_migrate_storage(store) is Ok,
        stored_version(store) < SCHEMA_VERSION,
    ensures
        ({
            let migrated = spec_migrate_storage(store)->Ok_0.0;
            &&& migrated.schema_version == Some(SCHEMA_VERSION)
            &&& migrated.credit_line_count is Some
            &&& migrated.total_utilized is Some
            &&& (store.credit_line_count matches Some(c) ==> migrated.credit_line_count == Some(c))
            &&& (store.total_utilized matches Some(t) ==> migrated.total_utilized == Some(t))
        }),
{
}

} // verus!
