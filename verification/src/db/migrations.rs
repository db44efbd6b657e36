use vstd::prelude::*;

verus! {

/// The statement that creates the table recording applied migrations.
pub const MIGRATIONS_TABLE_SQL: &'static str = "CREATE TABLE IF NOT EXISTS _migrations (
            version    INTEGER PRIMARY KEY,
            name       TEXT NOT NULL,
            applied_at TEXT NOT NULL DEFAULT (datetime('now'))
        )";

/// The statement that records an applied migration (`?1` the version, `?2`
/// the name).
pub const RECORD_MIGRATION_SQL: &'static str = "INSERT INTO _migrations (version, name) VALUES (?1, ?2)";

/// The statement that lists the applied versions.
pub const APPLIED_VERSIONS_SQL: &'static str = "SELECT version FROM _migrations";

/// The schema change of migration 1, `create_users`.
pub const CREATE_USERS_SQL: &'static str = "
            CREATE TABLE IF NOT EXISTS users (
                id            TEXT PRIMARY KEY,
                email         TEXT NOT NULL UNIQUE,
                password_hash TEXT NOT NULL,
                created_at    TEXT NOT NULL DEFAULT (datetime('now')),
                updated_at    TEXT NOT NULL DEFAULT (datetime('now'))
            );
        ";

/// The schema change of migration 2, `create_refresh_tokens`.
pub const CREATE_REFRESH_TOKENS_SQL: &'static str = "
            CREATE TABLE IF NOT EXISTS refresh_tokens (
                id         TEXT PRIMARY KEY,
                user_id    TEXT NOT NULL REFERENCES users(id) ON DELETE CASCADE,
                token_hash TEXT NOT NULL,
                expires_at TEXT NOT NULL,
                revoked    INTEGER NOT NULL DEFAULT 0,
                created_at TEXT NOT NULL DEFAULT (datetime('now'))
            );
            CREATE INDEX IF NOT EXISTS idx_refresh_tokens_user_id ON refresh_tokens(user_id);
            CREATE INDEX IF NOT EXISTS idx_refresh_tokens_token_hash ON refresh_tokens(token_hash);
        ";

/// The schema change of migration 3, `create_password_reset_tokens`.
pub const CREATE_PASSWORD_RESET_TOKENS_SQL: &'static str = "
            CREATE TABLE IF NOT EXISTS password_reset_tokens (
                id         TEXT PRIMARY KEY,
                user_id    TEXT NOT NULL REFERENCES users(id) ON DELETE CASCADE,
                token_hash TEXT NOT NULL,
                expires_at TEXT NOT NULL,
                used       INTEGER NOT NULL DEFAULT 0,
                created_at TEXT NOT NULL DEFAULT (datetime('now'))
            );
            CREATE INDEX IF NOT EXISTS idx_password_reset_tokens_token_hash
                ON password_reset_tokens(token_hash);
        ";

/// The schema change of migration 4, `create_user_data`.
pub const CREATE_USER_DATA_SQL: &'static str = "
            CREATE TABLE IF NOT EXISTS user_data (
                id         TEXT PRIMARY KEY,
                user_id    TEXT NOT NULL REFERENCES users(id) ON DELETE CASCADE,
                title      TEXT NOT NULL,
                content    TEXT NOT NULL DEFAULT '',
                created_at TEXT NOT NULL DEFAULT (datetime('now')),
                updated_at TEXT NOT NULL DEFAULT (datetime('now'))
            );
            CREATE INDEX IF NOT EXISTS idx_user_data_user_id ON user_data(user_id);
        ";

/// A change of the database schema, applied once, in version order.
pub struct Migration {
    pub version: u32,
    pub name: &'static str,
    pub sql: &'static str,
}

/// The view of a migration.
pub struct MigrationSpec {
    pub version: u32,
    pub name: Seq<char>,
    pub sql: Seq<char>,
}

impl View for Migration {
    type V = MigrationSpec;

    open spec fn view(&self) -> MigrationSpec {
        MigrationSpec { version: self.version, name: self.name@, sql: self.sql@ }
    }
}

/// The migrations of the schema, in the order they are applied.
pub open spec fn schema_migrations() -> Seq<MigrationSpec> {
    seq![
        MigrationSpec { version: 1, name: "create_users"@, sql: CREATE_USERS_SQL@ },
        MigrationSpec { version: 2, name: "create_refresh_tokens"@, sql: CREATE_REFRESH_TOKENS_SQL@ },
        MigrationSpec {
            version: 3,
            name: "create_password_reset_tokens"@,
            sql: CREATE_PASSWORD_RESET_TOKENS_SQL@,
        },
        MigrationSpec { version: 4, name: "create_user_data"@, sql: CREATE_USER_DATA_SQL@ },
    ]
}

/// The migrations of the schema, in the order they are applied.
pub fn migrations() -> (ms: Vec<Migration>)
    ensures
        ms@.map_values(|m: Migration| m@) == schema_migrations(),
{
    let mut ms = Vec::new();
    ms.push(Migration { version: 1, name: "create_users", sql: CREATE_USERS_SQL });
    ms.push(Migration { version: 2, name: "create_refresh_tokens", sql: CREATE_REFRESH_TOKENS_SQL });
    ms.push(
        Migration {
            version: 3,
            name: "create_password_reset_tokens",
            sql: CREATE_PASSWORD_RESET_TOKENS_SQL,
        },
    );
    ms.push(Migration { version: 4, name: "create_user_data", sql: CREATE_USER_DATA_SQL });
    assert(ms@.map_values(|m: Migration| m@) =~= schema_migrations());
    ms
}

/// The migrations of `ms` whose version is not among `applied`, in order.
pub open spec fn pending_of(ms: Seq<MigrationSpec>, applied: Seq<u32>) -> Seq<MigrationSpec>
    decreases ms.len(),
{
    if ms.len() == 0 {
        Seq::empty()
    } else {
        let rest = pending_of(ms.drop_last(), applied);
        if applied.contains(ms.last().version) {
            rest
        } else {
            rest.push(ms.last())
        }
    }
}

/// The versions of a list of migrations.
pub open spec fn versions_of(ms: Seq<MigrationSpec>) -> Seq<u32> {
    ms.map_values(|m: MigrationSpec| m.version)
}

/// Whether a version is among those recorded as applied.
fn contains_version(applied: &Vec<u32>, version: u32) -> (r: bool)
    ensures
        r == applied@.contains(version),
{
    let mut i: usize = 0;
    while i < applied.len()
        invariant
            i <= applied@.len(),
            forall|j: int| 0 <= j < i ==> applied@[j] != version,
        decreases applied@.len() - i,
    {
        if applied[i] == version {
            return true;
        }
        i = i + 1;
    }
    false
}

/// The migrations still to apply to a database that has applied the
/// versions `applied`: those of the schema whose version is not among them,
/// in order.
pub fn pending_migrations(applied: &Vec<u32>) -> (p: Vec<Migration>)
    ensures
        p@.map_values(|m: Migration| m@) == pending_of(schema_migrations(), applied@),
{
    let all = migrations();
    let ghost spec_all = schema_migrations();
    let mut pending: Vec<Migration> = Vec::new();
    let mut i: usize = 0;
    while i < all.len()
        invariant
            i <= all@.len(),
            all@.map_values(|m: Migration| m@) == spec_all,
            spec_all == schema_migrations(),
            pending@.map_values(|m: Migration| m@) == pending_of(spec_all.take(i as int), applied@),
        decreases all@.len() - i,
    {
        let m = &all[i];
        proof {
            assert(spec_all.take(i as int + 1).drop_last() =~= spec_all.take(i as int));
            assert(spec_all.take(i as int + 1).last() == m@);
        }
        if !contains_version(applied, m.version) {
            pending.push(Migration { version: m.version, name: m.name, sql: m.sql });
            assert(pending@.map_values(|m: Migration| m@) =~= pending_of(
                spec_all.take(i as int + 1),
                applied@,
            ));
        }
        i = i + 1;
    }
    assert(spec_all.take(all@.len() as int) =~= spec_all);
    pending
}

/// A migration of `ms` whose version is not applied is pending.
proof fn lemma_unapplied_is_pending(ms: Seq<MigrationSpec>, applied: Seq<u32>, i: int)
    requires
        0 <= i < ms.len(),
        !applied.contains(ms[i].version),
    ensures
        pending_of(ms, applied).contains(ms[i]),
    decreases ms.len(),
{
    if i == ms.len() - 1 {
        let rest = pending_of(ms.drop_last(), applied);
        assert(rest.push(ms.last())[rest.len() as int] == ms[i]);
    } else {
        lemma_unapplied_is_pending(ms.drop_last(), applied, i);
        let rest = pending_of(ms.drop_last(), applied);
        let k = choose|k: int| 0 <= k < rest.len() && rest[k] == ms[i];
        if !applied.contains(ms.last().version) {
            assert(rest.push(ms.last())[k] == ms[i]);
        }
    }
}

/// Nothing is pending where every version is applied.
proof fn lemma_all_applied_none_pending(ms: Seq<MigrationSpec>, applied: Seq<u32>)
    requires
        forall|i: int| 0 <= i < ms.len() ==> applied.contains(#[trigger] ms[i].version),
    ensures
        pending_of(ms, applied) == Seq::<MigrationSpec>::empty(),
    decreases ms.len(),
{
    if ms.len() > 0 {
        assert forall|i: int| 0 <= i < ms.drop_last().len() implies applied.contains(
            #[trigger] ms.drop_last()[i].version,
        ) by {
            assert(ms.drop_last()[i] == ms[i]);
        }
        lemma_all_applied_none_pending(ms.drop_last(), applied);
        assert(applied.contains(ms[ms.len() - 1].version));
    }
}

/// Running the migrations twice applies nothing the second time: once the
/// pending migrations are recorded as applied, none is pending.
pub proof fn migrations_idempotent(applied: Seq<u32>)
    ensures
        pending_of(
            schema_migrations(),
            applied + versions_of(pending_of(schema_migrations(), applied)),
        ) == Seq::<MigrationSpec>::empty(),
{
    let ms = schema_migrations();
    let pending = pending_of(ms, applied);
    let after = applied + versions_of(pending);
    assert forall|i: int| 0 <= i < ms.len() implies after.contains(#[trigger] ms[i].version) by {
        if applied.contains(ms[i].version) {
            let k = choose|k: int| 0 <= k < applied.len() && applied[k] == ms[i].version;
            assert(after[k] == ms[i].version);
        } else {
            lemma_unapplied_is_pending(ms, applied, i);
            let k = choose|k: int| 0 <= k < pending.len() && pending[k] == ms[i];
            assert(after[applied.len() + k] == ms[i].version);
        }
    }
    lemma_all_applied_none_pending(ms, after);
}

} // verus!
