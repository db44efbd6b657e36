use fullstack_app::db::migrations::{
    migrations, pending_migrations, APPLIED_VERSIONS_SQL, MIGRATIONS_TABLE_SQL, RECORD_MIGRATION_SQL,
};

fn versions(v: &[fullstack_app::db::migrations::Migration]) -> Vec<u32> {
    v.iter().map(|m| m.version).collect()
}

#[test]
fn schema_has_four_migrations_in_order() {
    let ms = migrations();
    assert_eq!(versions(&ms), vec![1, 2, 3, 4]);
    let names: Vec<&str> = ms.iter().map(|m| m.name).collect();
    assert_eq!(
        names,
        vec!["create_users", "create_refresh_tokens", "create_password_reset_tokens", "create_user_data"]
    );
}

#[test]
fn fresh_database_applies_everything() {
    assert_eq!(versions(&pending_migrations(&vec![])), vec![1, 2, 3, 4]);
}

#[test]
fn applied_versions_are_skipped() {
    assert_eq!(versions(&pending_migrations(&vec![3, 1])), vec![2, 4]);
    assert_eq!(versions(&pending_migrations(&vec![1, 2, 3, 4])), Vec::<u32>::new());
    assert_eq!(versions(&pending_migrations(&vec![9])), vec![1, 2, 3, 4]);
}

#[test]
fn second_plan_is_empty() {
    let applied: Vec<u32> = vec![2];
    let first = pending_migrations(&applied);
    let mut after = applied.clone();
    after.extend(versions(&first));
    assert!(pending_migrations(&after).is_empty());
}

fn run(conn: &rusqlite::Connection) -> Result<(), rusqlite::Error> {
    conn.execute_batch(MIGRATIONS_TABLE_SQL)?;
    let mut stmt = conn.prepare(APPLIED_VERSIONS_SQL)?;
    let applied: Vec<u32> = stmt
        .query_map([], |row| row.get(0))?
        .collect::<Result<_, _>>()?;
    for migration in pending_migrations(&applied) {
        conn.execute_batch(migration.sql)?;
        conn.execute(RECORD_MIGRATION_SQL, (migration.version, migration.name))?;
    }
    Ok(())
}

#[test]
fn migrations_are_idempotent() {
    let conn = rusqlite::Connection::open_in_memory().unwrap();
    conn.execute_batch("PRAGMA foreign_keys = ON;").unwrap();
    run(&conn).unwrap();
    run(&conn).unwrap();
    let n: u32 = conn.query_row("SELECT COUNT(*) FROM _migrations", [], |r| r.get(0)).unwrap();
    assert_eq!(n, 4);
}
