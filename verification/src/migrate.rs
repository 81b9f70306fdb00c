//! Schema migrator: the statically bundled, versioned migration list,
//! the planner that picks the still-unapplied versions, and the effect
//! of the version-1 script on the database model, with the laws that
//! make re-running the set a no-op.

use vstd::prelude::*;
use crate::db::{Db, DbModel, ListRow, ListRowModel, SettingRow, SettingRowModel};
use crate::db::fresh_db_model;
use crate::text::str_eq;

verus! {

/// Direction of a migration script. The bundled set is up-only.
#[derive(PartialEq, Eq, Structural, Clone, Copy, Debug)]
pub enum MigrationKind {
    Up,
    Down,
}

/// One versioned migration: a positive version number, a description,
/// and the SQL script to run inside its own transaction.
#[derive(Clone, Copy)]
pub struct Migration {
    pub version: u64,
    pub description: &'static str,
    pub sql: &'static str,
    pub kind: MigrationKind,
}

/// Versions are contiguous and strictly increasing starting at 1, and
/// every script runs in the up direction.
pub open spec fn migrations_well_formed(ms: Seq<Migration>) -> bool {
    forall|i: int|
        0 <= i < ms.len() ==> ((#[trigger] ms[i]).version as int == i + 1 && ms[i].kind
            is Up)
}

/// Checks the migration-list invariant before the list is handed to a
/// runner.
pub fn check_migrations(ms: &Vec<Migration>) -> (ok: bool)
    ensures
        ok == migrations_well_formed(ms@),
{
    let mut i: usize = 0;
    while i < ms.len()
        invariant
            i <= ms@.len(),
            forall|j: int|
                0 <= j < i ==> ((#[trigger] ms@[j]).version as int == j + 1 && ms@[j].kind
                    is Up),
        decreases ms@.len() - i,
    {
        let ok_version = ms[i].version == (i as u64) + 1;
        let ok_kind = match ms[i].kind {
            MigrationKind::Up => true,
            MigrationKind::Down => false,
        };
        if !(ok_version && ok_kind) {
            proof {
                assert(!(ms@[i as int].version as int == i + 1 && ms@[i as int].kind is Up));
            }
            return false;
        }
        i += 1;
    }
    true
}

/// The versions still to apply, strictly ascending: exactly those
/// greater than the last-applied version.
pub fn pending_versions(ms: &Vec<Migration>, current_version: u64) -> (p: Vec<u64>)
    requires
        migrations_well_formed(ms@),
    ensures
        forall|k: int| 0 <= k < p@.len() ==> (#[trigger] p@[k]) as int == current_version + 1 + k,
        p@.len() as int == if (current_version as int) < ms@.len() {
            ms@.len() - current_version
        } else {
            0int
        },
{
    let mut p: Vec<u64> = Vec::new();
    let mut i: usize = 0;
    while i < ms.len()
        invariant
            migrations_well_formed(ms@),
            i <= ms@.len(),
            forall|k: int|
                0 <= k < p@.len() ==> (#[trigger] p@[k]) as int == current_version + 1 + k,
            p@.len() as int == if (current_version as int) < i {
                i - current_version
            } else {
                0int
            },
        decreases ms@.len() - i,
    {
        let v = ms[i].version;
        proof {
            assert(ms@[i as int].version as int == i + 1);
        }
        if v > current_version {
            p.push(v);
        }
        i += 1;
    }
    p
}

/// Full SQL of the version-1 script: the five tables, the seed rows
/// (inserted only if absent) and the five indexes.
pub open spec fn schema_sql_v1_text() -> Seq<char> {
    r#"
                -- Lists table
                CREATE TABLE IF NOT EXISTS lists (
                    id TEXT PRIMARY KEY,
                    name TEXT NOT NULL,
                    icon TEXT,
                    color TEXT,
                    "order" INTEGER,
                    created_at INTEGER NOT NULL DEFAULT (strftime('%s', 'now') * 1000),
                    updated_at INTEGER NOT NULL DEFAULT (strftime('%s', 'now') * 1000)
                );

                -- Tasks table
                CREATE TABLE IF NOT EXISTS tasks (
                    id TEXT PRIMARY KEY,
                    title TEXT NOT NULL,
                    completed INTEGER NOT NULL DEFAULT 0,
                    completed_at INTEGER,
                    complete_percentage INTEGER,
                    due_date INTEGER,
                    list_id TEXT,
                    list_name TEXT NOT NULL,
                    content TEXT,
                    "order" INTEGER NOT NULL,
                    created_at INTEGER NOT NULL,
                    updated_at INTEGER NOT NULL,
                    tags TEXT, -- JSON array
                    priority INTEGER,
                    group_category TEXT NOT NULL DEFAULT 'nodate',
                    FOREIGN KEY (list_id) REFERENCES lists (id) ON DELETE SET NULL
                );

                -- Subtasks table
                CREATE TABLE IF NOT EXISTS subtasks (
                    id TEXT PRIMARY KEY,
                    parent_id TEXT NOT NULL,
                    title TEXT NOT NULL,
                    completed INTEGER NOT NULL DEFAULT 0,
                    completed_at INTEGER,
                    due_date INTEGER,
                    "order" INTEGER NOT NULL,
                    created_at INTEGER NOT NULL,
                    updated_at INTEGER NOT NULL,
                    FOREIGN KEY (parent_id) REFERENCES tasks (id) ON DELETE CASCADE
                );

                -- Summaries table
                CREATE TABLE IF NOT EXISTS summaries (
                    id TEXT PRIMARY KEY,
                    created_at INTEGER NOT NULL,
                    updated_at INTEGER NOT NULL,
                    period_key TEXT NOT NULL,
                    list_key TEXT NOT NULL,
                    task_ids TEXT NOT NULL, -- JSON array
                    summary_text TEXT NOT NULL
                );

                -- Settings table
                CREATE TABLE IF NOT EXISTS settings (
                    key TEXT PRIMARY KEY,
                    value TEXT NOT NULL,
                    updated_at INTEGER NOT NULL DEFAULT (strftime('%s', 'now') * 1000)
                );

                -- Insert default data
                INSERT OR IGNORE INTO lists (id, name, icon, "order")
                VALUES ('inbox-default', 'Inbox', 'inbox', 1);

                INSERT OR IGNORE INTO settings (key, value) VALUES
                ('appearance', '{"themeId":"default-coral","darkMode":"system","interfaceDensity":"default"}'),
                ('preferences', '{"language":"zh-CN","defaultNewTaskDueDate":null,"defaultNewTaskPriority":null,"defaultNewTaskList":"Inbox","confirmDeletions":true}'),
                ('ai', '{"provider":"openai","apiKey":"","model":"","baseUrl":"","availableModels":[]}');

                -- Create indexes
                CREATE INDEX IF NOT EXISTS idx_tasks_list_id ON tasks(list_id);
                CREATE INDEX IF NOT EXISTS idx_tasks_completed ON tasks(completed);
                CREATE INDEX IF NOT EXISTS idx_tasks_due_date ON tasks(due_date);
                CREATE INDEX IF NOT EXISTS idx_subtasks_parent_id ON subtasks(parent_id);
                CREATE INDEX IF NOT EXISTS idx_summaries_period_list ON summaries(period_key, list_key);
            "#@
}

/// The version-1 SQL script, for handing to an SQL runner.
pub fn schema_sql_v1() -> (s: &'static str)
    ensures
        s@ == schema_sql_v1_text(),
{
    r#"
                -- Lists table
                CREATE TABLE IF NOT EXISTS lists (
                    id TEXT PRIMARY KEY,
                    name TEXT NOT NULL,
                    icon TEXT,
                    color TEXT,
                    "order" INTEGER,
                    created_at INTEGER NOT NULL DEFAULT (strftime('%s', 'now') * 1000),
                    updated_at INTEGER NOT NULL DEFAULT (strftime('%s', 'now') * 1000)
                );

                -- Tasks table
                CREATE TABLE IF NOT EXISTS tasks (
                    id TEXT PRIMARY KEY,
                    title TEXT NOT NULL,
                    completed INTEGER NOT NULL DEFAULT 0,
                    completed_at INTEGER,
                    complete_percentage INTEGER,
                    due_date INTEGER,
                    list_id TEXT,
                    list_name TEXT NOT NULL,
                    content TEXT,
                    "order" INTEGER NOT NULL,
                    created_at INTEGER NOT NULL,
                    updated_at INTEGER NOT NULL,
                    tags TEXT, -- JSON array
                    priority INTEGER,
                    group_category TEXT NOT NULL DEFAULT 'nodate',
                    FOREIGN KEY (list_id) REFERENCES lists (id) ON DELETE SET NULL
                );

                -- Subtasks table
                CREATE TABLE IF NOT EXISTS subtasks (
                    id TEXT PRIMARY KEY,
                    parent_id TEXT NOT NULL,
                    title TEXT NOT NULL,
                    completed INTEGER NOT NULL DEFAULT 0,
                    completed_at INTEGER,
                    due_date INTEGER,
                    "order" INTEGER NOT NULL,
                    created_at INTEGER NOT NULL,
                    updated_at INTEGER NOT NULL,
                    FOREIGN KEY (parent_id) REFERENCES tasks (id) ON DELETE CASCADE
                );

                -- Summaries table
                CREATE TABLE IF NOT EXISTS summaries (
                    id TEXT PRIMARY KEY,
                    created_at INTEGER NOT NULL,
                    updated_at INTEGER NOT NULL,
                    period_key TEXT NOT NULL,
                    list_key TEXT NOT NULL,
                    task_ids TEXT NOT NULL, -- JSON array
                    summary_text TEXT NOT NULL
                );

                -- Settings table
                CREATE TABLE IF NOT EXISTS settings (
                    key TEXT PRIMARY KEY,
                    value TEXT NOT NULL,
                    updated_at INTEGER NOT NULL DEFAULT (strftime('%s', 'now') * 1000)
                );

                -- Insert default data
                INSERT OR IGNORE INTO lists (id, name, icon, "order")
                VALUES ('inbox-default', 'Inbox', 'inbox', 1);

                INSERT OR IGNORE INTO settings (key, value) VALUES
                ('appearance', '{"themeId":"default-coral","darkMode":"system","interfaceDensity":"default"}'),
                ('preferences', '{"language":"zh-CN","defaultNewTaskDueDate":null,"defaultNewTaskPriority":null,"defaultNewTaskList":"Inbox","confirmDeletions":true}'),
                ('ai', '{"provider":"openai","apiKey":"","model":"","baseUrl":"","availableModels":[]}');

                -- Create indexes
                CREATE INDEX IF NOT EXISTS idx_tasks_list_id ON tasks(list_id);
                CREATE INDEX IF NOT EXISTS idx_tasks_completed ON tasks(completed);
                CREATE INDEX IF NOT EXISTS idx_tasks_due_date ON tasks(due_date);
                CREATE INDEX IF NOT EXISTS idx_subtasks_parent_id ON subtasks(parent_id);
                CREATE INDEX IF NOT EXISTS idx_summaries_period_list ON summaries(period_key, list_key);
            "#
}

/// The statically bundled migration set: one up-only script, version 1.
pub fn bundled_migrations() -> (ms: Vec<Migration>)
    ensures
        migrations_well_formed(ms@),
        ms@.len() == 1,
        ms@[0].version == 1,
        ms@[0].kind is Up,
        ms@[0].description@ == "create_initial_tables"@,
        ms@[0].sql@ == schema_sql_v1_text(),
{
    let mut ms: Vec<Migration> = Vec::new();
    ms.push(
        Migration {
            version: 1,
            description: "create_initial_tables",
            sql: schema_sql_v1(),
            kind: MigrationKind::Up,
        },
    );
    ms
}

/// Default appearance settings payload.
pub open spec fn default_appearance_value() -> Seq<char> {
    r#"{"themeId":"default-coral","darkMode":"system","interfaceDensity":"default"}"#@
}

/// Default preferences settings payload.
pub open spec fn default_preferences_value() -> Seq<char> {
    r#"{"language":"zh-CN","defaultNewTaskDueDate":null,"defaultNewTaskPriority":null,"defaultNewTaskList":"Inbox","confirmDeletions":true}"#@
}

/// Default AI-provider settings payload.
pub open spec fn default_ai_value() -> Seq<char> {
    r#"{"provider":"openai","apiKey":"","model":"","baseUrl":"","availableModels":[]}"#@
}

/// The seeded appearance payload, as text.
pub fn default_appearance_json() -> (s: &'static str)
    ensures
        s@ == default_appearance_value(),
{
    r#"{"themeId":"default-coral","darkMode":"system","interfaceDensity":"default"}"#
}

/// The seeded preferences payload, as text.
pub fn default_preferences_json() -> (s: &'static str)
    ensures
        s@ == default_preferences_value(),
{
    r#"{"language":"zh-CN","defaultNewTaskDueDate":null,"defaultNewTaskPriority":null,"defaultNewTaskList":"Inbox","confirmDeletions":true}"#
}

/// The seeded AI-provider payload, as text.
pub fn default_ai_json() -> (s: &'static str)
    ensures
        s@ == default_ai_value(),
{
    r#"{"provider":"openai","apiKey":"","model":"","baseUrl":"","availableModels":[]}"#
}

/// The seeded default List row.
pub open spec fn seed_list_model(now_ms: i64) -> ListRowModel {
    ListRowModel {
        id: "inbox-default"@,
        name: "Inbox"@,
        icon: Some("inbox"@),
        color: None,
        order: Some(1i64),
        created_at: now_ms,
        updated_at: now_ms,
    }
}

/// Whether some Lists row already carries the id.
pub open spec fn has_list_id(rows: Seq<ListRowModel>, id: Seq<char>) -> bool {
    exists|i: int| 0 <= i < rows.len() && rows[i].id == id
}

/// Whether some Settings row already carries the key.
pub open spec fn has_setting(rows: Seq<SettingRowModel>, key: Seq<char>) -> bool {
    exists|i: int| 0 <= i < rows.len() && rows[i].key == key
}

/// Insert-if-not-present of the default List row.
pub open spec fn seed_lists(rows: Seq<ListRowModel>, now_ms: i64) -> Seq<ListRowModel> {
    if has_list_id(rows, "inbox-default"@) {
        rows
    } else {
        rows.push(seed_list_model(now_ms))
    }
}

/// Insert-if-not-present of one Settings row.
pub open spec fn insert_setting_if_absent(
    rows: Seq<SettingRowModel>,
    key: Seq<char>,
    value: Seq<char>,
    now_ms: i64,
) -> Seq<SettingRowModel> {
    if has_setting(rows, key) {
        rows
    } else {
        rows.push(SettingRowModel { key, value, updated_at: now_ms })
    }
}

/// The three seeded Settings rows, inserted in order, each only if its
/// key is absent.
pub open spec fn seed_settings(rows: Seq<SettingRowModel>, now_ms: i64) -> Seq<SettingRowModel> {
    insert_setting_if_absent(
        insert_setting_if_absent(
            insert_setting_if_absent(rows, "appearance"@, default_appearance_value(), now_ms),
            "preferences"@,
            default_preferences_value(),
            now_ms,
        ),
        "ai"@,
        default_ai_value(),
        now_ms,
    )
}

/// Effect of the version-1 script on the database model: the five
/// tables and five indexes exist afterwards, and the seed rows are
/// present, inserted only where absent. `now_ms` stands for the
/// timestamp the storage engine fills into defaulted columns.
pub open spec fn apply_v1_spec(d: DbModel, now_ms: i64) -> DbModel {
    DbModel {
        lists_created: true,
        tasks_created: true,
        subtasks_created: true,
        summaries_created: true,
        settings_created: true,
        lists: seed_lists(d.lists, now_ms),
        settings: seed_settings(d.settings, now_ms),
        idx_tasks_list_id: true,
        idx_tasks_completed: true,
        idx_tasks_due_date: true,
        idx_subtasks_parent_id: true,
        idx_summaries_period_list: true,
        ..d
    }
}

/// Effect of running the whole bundled set: the version-1 script runs
/// exactly when the last-applied version is below 1, and the version
/// counter then records 1.
pub open spec fn migrate_spec(d: DbModel, now_ms: i64) -> DbModel {
    if d.schema_version < 1 {
        DbModel { schema_version: 1u64, ..apply_v1_spec(d, now_ms) }
    } else {
        d
    }
}

/// Whether some Lists row of the table carries the id.
fn lists_have_id(v: &Vec<ListRow>, id: &str) -> (r: bool)
    ensures
        r == has_list_id(v@.map_values(|x: ListRow| x@), id@),
{
    let ghost m = v@.map_values(|x: ListRow| x@);
    let mut i: usize = 0;
    while i < v.len()
        invariant
            i <= v@.len(),
            m == v@.map_values(|x: ListRow| x@),
            forall|j: int| 0 <= j < i ==> m[j].id != id@,
        decreases v@.len() - i,
    {
        proof {
            assert(m[i as int] == v@[i as int]@);
        }
        if str_eq(v[i].id.as_str(), id) {
            proof {
                assert(m[i as int].id == id@);
            }
            return true;
        }
        i += 1;
    }
    false
}

/// Whether some Settings row of the table carries the key.
fn settings_have_key(v: &Vec<SettingRow>, key: &str) -> (r: bool)
    ensures
        r == has_setting(v@.map_values(|x: SettingRow| x@), key@),
{
    let ghost m = v@.map_values(|x: SettingRow| x@);
    let mut i: usize = 0;
    while i < v.len()
        invariant
            i <= v@.len(),
            m == v@.map_values(|x: SettingRow| x@),
            forall|j: int| 0 <= j < i ==> m[j].key != key@,
        decreases v@.len() - i,
    {
        proof {
            assert(m[i as int] == v@[i as int]@);
        }
        if str_eq(v[i].key.as_str(), key) {
            proof {
                assert(m[i as int].key == key@);
            }
            return true;
        }
        i += 1;
    }
    false
}

/// Runs the version-1 script against the database model. Safe to
/// re-run: creation is if-not-exists, seed rows are inserted only if
/// absent.
pub fn apply_v1(db: &mut Db, now_ms: i64)
    requires
        old(db)@.wf(),
    ensures
        final(db)@ == apply_v1_spec(old(db)@, now_ms),
        final(db)@.wf(),
{
    db.lists_created = true;
    db.tasks_created = true;
    db.subtasks_created = true;
    db.summaries_created = true;
    db.settings_created = true;

    if !lists_have_id(&db.lists, "inbox-default") {
        let row = ListRow {
            id: "inbox-default".to_owned(),
            name: "Inbox".to_owned(),
            icon: Some("inbox".to_owned()),
            color: None,
            order: Some(1),
            created_at: now_ms,
            updated_at: now_ms,
        };
        proof {
            assert(row@ =~= seed_list_model(now_ms));
        }
        db.lists.push(row);
    }
    proof {
        assert(db.lists@.map_values(|x: ListRow| x@) =~= seed_lists(old(db)@.lists, now_ms));
    }

    let ghost s0 = db.settings@.map_values(|x: SettingRow| x@);
    if !settings_have_key(&db.settings, "appearance") {
        db.settings.push(
            SettingRow {
                key: "appearance".to_owned(),
                value: default_appearance_json().to_owned(),
                updated_at: now_ms,
            },
        );
    }
    proof {
        assert(db.settings@.map_values(|x: SettingRow| x@) =~= insert_setting_if_absent(
            s0,
            "appearance"@,
            default_appearance_value(),
            now_ms,
        ));
    }
    let ghost s1 = db.settings@.map_values(|x: SettingRow| x@);
    if !settings_have_key(&db.settings, "preferences") {
        db.settings.push(
            SettingRow {
                key: "preferences".to_owned(),
                value: default_preferences_json().to_owned(),
                updated_at: now_ms,
            },
        );
    }
    proof {
        assert(db.settings@.map_values(|x: SettingRow| x@) =~= insert_setting_if_absent(
            s1,
            "preferences"@,
            default_preferences_value(),
            now_ms,
        ));
    }
    let ghost s2 = db.settings@.map_values(|x: SettingRow| x@);
    if !settings_have_key(&db.settings, "ai") {
        db.settings.push(
            SettingRow {
                key: "ai".to_owned(),
                value: default_ai_json().to_owned(),
                updated_at: now_ms,
            },
        );
    }
    proof {
        assert(db.settings@.map_values(|x: SettingRow| x@) =~= insert_setting_if_absent(
            s2,
            "ai"@,
            default_ai_value(),
            now_ms,
        ));
        assert(s0 == old(db)@.settings);
        assert(db.settings@.map_values(|x: SettingRow| x@) == seed_settings(
            old(db)@.settings,
            now_ms,
        ));
    }

    db.idx_tasks_list_id = true;
    db.idx_tasks_completed = true;
    db.idx_tasks_due_date = true;
    db.idx_subtasks_parent_id = true;
    db.idx_summaries_period_list = true;

    proof {
        assert(db@ =~= apply_v1_spec(old(db)@, now_ms));
    }
}

/// Brings the database to the latest bundled schema version: applies
/// every bundled migration whose version exceeds the last-applied one,
/// in ascending order, then records the new version. A database
/// already at the latest version is left untouched.
pub fn run_migrations(db: &mut Db, now_ms: i64)
    requires
        old(db)@.wf(),
    ensures
        final(db)@ == migrate_spec(old(db)@, now_ms),
        final(db)@.wf(),
        final(db)@.schema_version >= 1,
{
    if db.schema_version < 1 {
        apply_v1(db, now_ms);
        db.schema_version = 1;
        proof {
            assert(db@ =~= (DbModel { schema_version: 1u64, ..apply_v1_spec(old(db)@, now_ms) }));
        }
    }
}

/// Inserting one Settings row keeps every key that was present and
/// makes its own key present.
pub proof fn lemma_insert_setting_covers(
    rows: Seq<SettingRowModel>,
    key: Seq<char>,
    value: Seq<char>,
    now_ms: i64,
    other: Seq<char>,
)
    ensures
        has_setting(rows, other) ==> has_setting(
            insert_setting_if_absent(rows, key, value, now_ms),
            other,
        ),
        has_setting(insert_setting_if_absent(rows, key, value, now_ms), key),
{
    let out = insert_setting_if_absent(rows, key, value, now_ms);
    if !has_setting(rows, key) {
        assert(out[rows.len() as int].key == key);
    }
    if has_setting(rows, other) {
        let w = choose|w: int| 0 <= w < rows.len() && rows[w].key == other;
        assert(out[w].key == other);
    }
}

/// After the seed step every seeded Settings key is present.
pub proof fn lemma_seed_settings_has_all(rows: Seq<SettingRowModel>, now_ms: i64)
    ensures
        has_setting(seed_settings(rows, now_ms), "appearance"@),
        has_setting(seed_settings(rows, now_ms), "preferences"@),
        has_setting(seed_settings(rows, now_ms), "ai"@),
{
    let t1 = insert_setting_if_absent(rows, "appearance"@, default_appearance_value(), now_ms);
    let t2 = insert_setting_if_absent(t1, "preferences"@, default_preferences_value(), now_ms);
    lemma_insert_setting_covers(rows, "appearance"@, default_appearance_value(), now_ms, "appearance"@);
    lemma_insert_setting_covers(t1, "preferences"@, default_preferences_value(), now_ms, "appearance"@);
    lemma_insert_setting_covers(t2, "ai"@, default_ai_value(), now_ms, "appearance"@);
    lemma_insert_setting_covers(t1, "preferences"@, default_preferences_value(), now_ms, "preferences"@);
    lemma_insert_setting_covers(t2, "ai"@, default_ai_value(), now_ms, "preferences"@);
    lemma_insert_setting_covers(t2, "ai"@, default_ai_value(), now_ms, "ai"@);
}

/// Law: the version-1 script is idempotent. Re-running it against a
/// database that already went through it changes nothing, whatever
/// timestamps the two runs see.
pub proof fn lemma_apply_v1_idempotent(d: DbModel, now1: i64, now2: i64)
    ensures
        apply_v1_spec(apply_v1_spec(d, now1), now2) == apply_v1_spec(d, now1),
{
    let d1 = apply_v1_spec(d, now1);
    if !has_list_id(d.lists, "inbox-default"@) {
        assert(d1.lists[d.lists.len() as int].id == "inbox-default"@);
    }
    assert(has_list_id(d1.lists, "inbox-default"@));
    assert(seed_lists(d1.lists, now2) == d1.lists);
    lemma_seed_settings_has_all(d.settings, now1);
    let u1 = insert_setting_if_absent(d1.settings, "appearance"@, default_appearance_value(), now2);
    assert(u1 == d1.settings);
    let u2 = insert_setting_if_absent(u1, "preferences"@, default_preferences_value(), now2);
    assert(u2 == d1.settings);
    assert(seed_settings(d1.settings, now2) == d1.settings);
    assert(apply_v1_spec(d1, now2) =~= d1);
}

/// Law: running the full bundled migration set twice produces the same
/// final state as running it once.
pub proof fn lemma_migrations_idempotent(d: DbModel, now1: i64, now2: i64)
    ensures
        migrate_spec(migrate_spec(d, now1), now2) == migrate_spec(d, now1),
{
}

/// Law: on a fresh (nonexistent) database, one run of the bundled set
/// yields schema version 1, all five tables, all five indexes, exactly
/// the one seeded List row and exactly the three seeded Settings rows.
pub proof fn lemma_fresh_migration_schema(now_ms: i64)
    ensures
        ({
            let d = migrate_spec(fresh_db_model(), now_ms);
            &&& d.schema_version == 1
            &&& d.lists_created
            &&& d.tasks_created
            &&& d.subtasks_created
            &&& d.summaries_created
            &&& d.settings_created
            &&& d.idx_tasks_list_id
            &&& d.idx_tasks_completed
            &&& d.idx_tasks_due_date
            &&& d.idx_subtasks_parent_id
            &&& d.idx_summaries_period_list
            &&& d.lists == seq![seed_list_model(now_ms)]
            &&& d.tasks.len() == 0
            &&& d.subtasks.len() == 0
            &&& d.summaries.len() == 0
            &&& d.settings == seq![
                SettingRowModel {
                    key: "appearance"@,
                    value: default_appearance_value(),
                    updated_at: now_ms,
                },
                SettingRowModel {
                    key: "preferences"@,
                    value: default_preferences_value(),
                    updated_at: now_ms,
                },
                SettingRowModel { key: "ai"@, value: default_ai_value(), updated_at: now_ms },
            ]
        }),
{
    reveal_strlit("appearance");
    reveal_strlit("preferences");
    reveal_strlit("ai");
    assert("appearance"@.len() == 10);
    assert("preferences"@.len() == 11);
    assert("ai"@.len() == 2);
    let e = Seq::<SettingRowModel>::empty();
    assert(!has_setting(e, "appearance"@));
    let t1 = insert_setting_if_absent(e, "appearance"@, default_appearance_value(), now_ms);
    assert(t1.len() == 1 && t1[0].key == "appearance"@);
    assert(!has_setting(t1, "preferences"@));
    let t2 = insert_setting_if_absent(t1, "preferences"@, default_preferences_value(), now_ms);
    assert(t2.len() == 2 && t2[0].key == "appearance"@ && t2[1].key == "preferences"@);
    assert(!has_setting(t2, "ai"@));
    let t3 = insert_setting_if_absent(t2, "ai"@, default_ai_value(), now_ms);
    assert(t3 =~= seq![
        SettingRowModel {
            key: "appearance"@,
            value: default_appearance_value(),
            updated_at: now_ms,
        },
        SettingRowModel {
            key: "preferences"@,
            value: default_preferences_value(),
            updated_at: now_ms,
        },
        SettingRowModel { key: "ai"@, value: default_ai_value(), updated_at: now_ms },
    ]);
    assert(!has_list_id(Seq::<ListRowModel>::empty(), "inbox-default"@));
    assert(seed_lists(Seq::<ListRowModel>::empty(), now_ms) =~= seq![seed_list_model(now_ms)]);
}

} // verus!
