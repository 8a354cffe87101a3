//! Which schema migrations a database needs, and the SQL of each.

use vstd::prelude::*;

verus! {

/// Current schema version.
pub const SCHEMA_VERSION: u32 = 3;

/// Migration v1: Create the initial notes table.
pub const MIGRATION_V1_SQL: &'static str = "CREATE TABLE IF NOT EXISTS notes (
            id          TEXT PRIMARY KEY,
            title       TEXT NOT NULL DEFAULT 'New Note',
            content     TEXT NOT NULL DEFAULT '',
            color       TEXT NOT NULL DEFAULT 'default',
            x           REAL NOT NULL DEFAULT 0.0,
            y           REAL NOT NULL DEFAULT 0.0,
            width       INTEGER NOT NULL DEFAULT 320,
            height      INTEGER NOT NULL DEFAULT 300,
            pinned      INTEGER NOT NULL DEFAULT 0,
            always_on_top INTEGER NOT NULL DEFAULT 0,
            is_visible  INTEGER NOT NULL DEFAULT 1,
            is_archived INTEGER NOT NULL DEFAULT 0,
            created_at  TEXT NOT NULL,
            updated_at  TEXT NOT NULL
        );";

/// Migration v2: Create settings table for persistent preferences.
pub const MIGRATION_V2_SQL: &'static str = "CREATE TABLE IF NOT EXISTS settings (
            key   TEXT PRIMARY KEY,
            value TEXT NOT NULL
        );";

/// Migration v3: Add font_family and font_size columns to notes table.
pub const MIGRATION_V3_SQL: &'static str = "ALTER TABLE notes ADD COLUMN font_family TEXT NOT NULL DEFAULT '';
         ALTER TABLE notes ADD COLUMN font_size INTEGER NOT NULL DEFAULT 26;";

/// The migrations a database at schema version `current` still needs, in
/// the order they run: every version above `current` up to `SCHEMA_VERSION`.
pub open spec fn pending(current: u32) -> Seq<u32> {
    if current >= SCHEMA_VERSION {
        Seq::empty()
    } else {
        Seq::new((SCHEMA_VERSION - current) as nat, |i: int| (current + 1 + i) as u32)
    }
}

/// Lists the migrations to run on a database at schema version `current`.
pub fn pending_migrations(current: u32) -> (r: Vec<u32>)
    ensures
        r@ == pending(current),
{
    let mut r: Vec<u32> = Vec::new();
    let mut v = current;
    while v < SCHEMA_VERSION
        invariant
            current <= v <= SCHEMA_VERSION || (current > SCHEMA_VERSION && v == current),
            current < SCHEMA_VERSION ==> r@ =~= Seq::new(
                (v - current) as nat,
                |i: int| (current + 1 + i) as u32,
            ),
            current >= SCHEMA_VERSION ==> r@.len() == 0,
        decreases SCHEMA_VERSION - v,
    {
        v = v + 1;
        r.push(v);
    }
    assert(r@ =~= pending(current));
    r
}

/// The SQL that migrates a database to schema version `version`.
pub fn migration_sql(version: u32) -> (r: &'static str)
    requires
        1 <= version <= SCHEMA_VERSION,
    ensures
        version == 1 ==> r@ == MIGRATION_V1_SQL@,
        version == 2 ==> r@ == MIGRATION_V2_SQL@,
        version == 3 ==> r@ == MIGRATION_V3_SQL@,
{
    if version == 1 {
        MIGRATION_V1_SQL
    } else if version == 2 {
        MIGRATION_V2_SQL
    } else {
        MIGRATION_V3_SQL
    }
}

/// Each migration runs at most once: once a database has been brought to
/// `SCHEMA_VERSION`, nothing is left to run; and a database below it runs
/// every later migration exactly once, in increasing order.
pub proof fn lemma_migrations_run_once(current: u32)
    ensures
        pending(SCHEMA_VERSION).len() == 0,
        forall|i: int, j: int|
            0 <= i < j < pending(current).len() ==> pending(current)[i] < pending(current)[j],
        forall|v: u32|
            current < v <= SCHEMA_VERSION <==> pending(current).contains(v),
{
    assert forall|v: u32| current < v <= SCHEMA_VERSION implies pending(current).contains(v) by {
        assert(pending(current)[v - current - 1] == v);
    }
}

} // verus!
