use tada_core::db::{Db, ListRow, SettingRow};
use tada_core::migrate::{
    bundled_migrations, check_migrations, default_ai_json, default_appearance_json,
    default_preferences_json, pending_versions, run_migrations, schema_sql_v1, Migration,
    MigrationKind,
};

#[test]
fn bundled_set_shape() {
    let ms = bundled_migrations();
    assert_eq!(ms.len(), 1);
    assert_eq!(ms[0].version, 1);
    assert_eq!(ms[0].description, "create_initial_tables");
    assert!(matches!(ms[0].kind, MigrationKind::Up));
    assert_eq!(ms[0].sql, schema_sql_v1());
    assert!(check_migrations(&ms));
}

#[test]
fn bundled_sql_matches_schema() {
    let sql = schema_sql_v1();
    assert!(sql.contains("CREATE TABLE IF NOT EXISTS lists"));
    assert!(sql.contains("CREATE TABLE IF NOT EXISTS tasks"));
    assert!(sql.contains("CREATE TABLE IF NOT EXISTS subtasks"));
    assert!(sql.contains("CREATE TABLE IF NOT EXISTS summaries"));
    assert!(sql.contains("CREATE TABLE IF NOT EXISTS settings"));
    assert!(sql.contains("FOREIGN KEY (list_id) REFERENCES lists (id) ON DELETE SET NULL"));
    assert!(sql.contains("FOREIGN KEY (parent_id) REFERENCES tasks (id) ON DELETE CASCADE"));
    assert!(sql.contains("INSERT OR IGNORE INTO lists"));
    assert!(sql.contains("INSERT OR IGNORE INTO settings"));
    assert!(sql.contains("CREATE INDEX IF NOT EXISTS idx_tasks_list_id ON tasks(list_id)"));
    assert!(sql.contains("CREATE INDEX IF NOT EXISTS idx_tasks_completed ON tasks(completed)"));
    assert!(sql.contains("CREATE INDEX IF NOT EXISTS idx_tasks_due_date ON tasks(due_date)"));
    assert!(sql.contains("CREATE INDEX IF NOT EXISTS idx_subtasks_parent_id ON subtasks(parent_id)"));
    assert!(sql.contains(
        "CREATE INDEX IF NOT EXISTS idx_summaries_period_list ON summaries(period_key, list_key)"
    ));
}

#[test]
fn malformed_sets_are_rejected() {
    let good = Migration {
        version: 1,
        description: "create_initial_tables",
        sql: "",
        kind: MigrationKind::Up,
    };
    let wrong_start = Migration { version: 2, ..good };
    assert!(!check_migrations(&vec![wrong_start]));
    let down = Migration { kind: MigrationKind::Down, ..good };
    assert!(!check_migrations(&vec![down]));
    let gap = vec![good, Migration { version: 3, ..good }];
    assert!(!check_migrations(&gap));
}

#[test]
fn planner_picks_unapplied_versions() {
    let ms = bundled_migrations();
    assert_eq!(pending_versions(&ms, 0), vec![1]);
    assert_eq!(pending_versions(&ms, 1), Vec::<u64>::new());
    assert_eq!(pending_versions(&ms, 7), Vec::<u64>::new());
}

#[test]
fn fresh_database_reaches_version_one_with_seeds() {
    // start with no database file, run migrations, query the version
    let mut db = Db::fresh();
    assert_eq!(db.schema_version(), 0);
    run_migrations(&mut db, 1_234);
    assert_eq!(db.schema_version(), 1);

    assert!(db.lists_created);
    assert!(db.tasks_created);
    assert!(db.subtasks_created);
    assert!(db.summaries_created);
    assert!(db.settings_created);
    assert!(db.idx_tasks_list_id);
    assert!(db.idx_tasks_completed);
    assert!(db.idx_tasks_due_date);
    assert!(db.idx_subtasks_parent_id);
    assert!(db.idx_summaries_period_list);

    assert!(db.tasks.is_empty());
    assert!(db.subtasks.is_empty());
    assert!(db.summaries.is_empty());

    assert_eq!(db.lists.len(), 1);
    let inbox = &db.lists[0];
    assert_eq!(inbox.id, "inbox-default");
    assert_eq!(inbox.name, "Inbox");
    assert_eq!(inbox.icon.as_deref(), Some("inbox"));
    assert_eq!(inbox.color, None);
    assert_eq!(inbox.order, Some(1));
    assert_eq!(inbox.created_at, 1_234);
    assert_eq!(inbox.updated_at, 1_234);

    assert_eq!(db.settings.len(), 3);
    assert_eq!(db.settings[0].key, "appearance");
    assert_eq!(db.settings[0].value, default_appearance_json());
    assert_eq!(db.settings[0].updated_at, 1_234);
    assert_eq!(db.settings[1].key, "preferences");
    assert_eq!(db.settings[1].value, default_preferences_json());
    assert_eq!(db.settings[2].key, "ai");
    assert_eq!(db.settings[2].value, default_ai_json());
}

#[test]
fn seeded_defaults_hold_documented_values() {
    assert_eq!(
        default_appearance_json(),
        "{\"themeId\":\"default-coral\",\"darkMode\":\"system\",\"interfaceDensity\":\"default\"}"
    );
    assert!(default_preferences_json().contains("\"language\":\"zh-CN\""));
    assert!(default_preferences_json().contains("\"defaultNewTaskList\":\"Inbox\""));
    assert!(default_preferences_json().contains("\"confirmDeletions\":true"));
    assert!(default_ai_json().contains("\"provider\":\"openai\""));
    assert!(default_ai_json().contains("\"availableModels\":[]"));
}

#[test]
fn rerunning_migrations_changes_nothing() {
    let mut once = Db::fresh();
    run_migrations(&mut once, 1_000);

    let mut twice = Db::fresh();
    run_migrations(&mut twice, 1_000);
    // a later re-run sees a different clock; the state must not change
    run_migrations(&mut twice, 2_000);

    assert_eq!(once, twice);
}

#[test]
fn migrations_skip_database_already_at_version() {
    let mut db = Db::fresh();
    db.schema_version = 1;
    let before_settings = db.settings.len();
    run_migrations(&mut db, 5_000);
    // nothing is applied: no tables created, no seeds inserted
    assert_eq!(db.schema_version(), 1);
    assert!(!db.lists_created);
    assert_eq!(db.settings.len(), before_settings);
}

#[test]
fn seed_rows_do_not_overwrite_existing_data() {
    let mut db = Db::fresh();
    run_migrations(&mut db, 1_000);
    // a user renamed the inbox and changed a setting; force a re-apply
    db.lists[0].name = String::from("Renamed");
    db.settings[0].value = String::from("{\"themeId\":\"custom\"}");
    db.schema_version = 0;
    run_migrations(&mut db, 9_000);
    assert_eq!(db.schema_version(), 1);
    // insert-if-absent leaves the existing rows alone
    assert_eq!(db.lists.len(), 1);
    assert_eq!(db.lists[0].name, "Renamed");
    assert_eq!(db.settings.len(), 3);
    assert_eq!(db.settings[0].value, "{\"themeId\":\"custom\"}");
}

#[test]
fn migrating_partial_database_adds_missing_seeds() {
    // a database that has the tables but lost its settings rows
    let mut db = Db::fresh();
    run_migrations(&mut db, 1_000);
    db.settings.clear();
    db.lists.clear();
    db.lists.push(ListRow {
        id: String::from("work"),
        name: String::from("Work"),
        icon: None,
        color: None,
        order: Some(2),
        created_at: 500,
        updated_at: 500,
    });
    db.settings.push(SettingRow {
        key: String::from("appearance"),
        value: String::from("{}"),
        updated_at: 500,
    });
    db.schema_version = 0;
    run_migrations(&mut db, 2_000);
    // the missing seed rows come back; present ones stay untouched
    assert_eq!(db.lists.len(), 2);
    assert_eq!(db.lists[0].id, "work");
    assert_eq!(db.lists[1].id, "inbox-default");
    assert_eq!(db.lists[1].created_at, 2_000);
    assert_eq!(db.settings.len(), 3);
    assert_eq!(db.settings[0].key, "appearance");
    assert_eq!(db.settings[0].value, "{}");
    assert_eq!(db.settings[1].key, "preferences");
    assert_eq!(db.settings[2].key, "ai");
}
