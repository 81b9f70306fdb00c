use tada_core::db::{delete_list, delete_task, Db, ListRow, SubtaskRow, TaskRow};
use tada_core::migrate::run_migrations;

fn list(id: &str) -> ListRow {
    ListRow {
        id: String::from(id),
        name: String::from(id),
        icon: None,
        color: None,
        order: None,
        created_at: 10,
        updated_at: 10,
    }
}

fn task(id: &str, list_id: Option<&str>) -> TaskRow {
    TaskRow {
        id: String::from(id),
        title: format!("task {}", id),
        completed: false,
        completed_at: None,
        complete_percentage: Some(50),
        due_date: Some(7_000),
        list_id: list_id.map(String::from),
        list_name: String::from("Inbox"),
        content: Some(String::from("notes")),
        order: 3,
        created_at: 20,
        updated_at: 21,
        tags: Some(String::from("[\"home\"]")),
        priority: Some(2),
        group_category: String::from("nodate"),
    }
}

fn subtask(id: &str, parent_id: &str) -> SubtaskRow {
    SubtaskRow {
        id: String::from(id),
        parent_id: String::from(parent_id),
        title: format!("subtask {}", id),
        completed: false,
        completed_at: None,
        due_date: None,
        order: 1,
        created_at: 30,
        updated_at: 31,
    }
}

fn migrated_db() -> Db {
    let mut db = Db::fresh();
    run_migrations(&mut db, 1_000);
    db
}

#[test]
fn deleting_a_list_detaches_its_tasks() {
    let mut db = migrated_db();
    db.lists.push(list("work"));
    db.tasks.push(task("t1", Some("work")));
    db.tasks.push(task("t2", Some("inbox-default")));
    db.tasks.push(task("t3", None));
    db.tasks.push(task("t4", Some("work")));

    delete_list(&mut db, "work");

    assert_eq!(db.lists.len(), 1);
    assert_eq!(db.lists[0].id, "inbox-default");
    // no task is deleted
    assert_eq!(db.tasks.len(), 4);
    // tasks that referenced the deleted list now reference nothing
    assert_eq!(db.tasks[0].id, "t1");
    assert_eq!(db.tasks[0].list_id, None);
    assert_eq!(db.tasks[3].id, "t4");
    assert_eq!(db.tasks[3].list_id, None);
    // everything else is untouched
    assert_eq!(db.tasks[1], task("t2", Some("inbox-default")));
    assert_eq!(db.tasks[2], task("t3", None));
    assert_eq!(db.tasks[0].title, "task t1");
    assert_eq!(db.tasks[0].priority, Some(2));
}

#[test]
fn deleting_a_task_cascades_to_its_subtasks() {
    let mut db = migrated_db();
    db.tasks.push(task("a", None));
    db.tasks.push(task("b", None));
    db.subtasks.push(subtask("s1", "a"));
    db.subtasks.push(subtask("s2", "b"));
    db.subtasks.push(subtask("s3", "a"));

    delete_task(&mut db, "a");

    assert_eq!(db.tasks.len(), 1);
    assert_eq!(db.tasks[0].id, "b");
    // exactly the subtasks of the deleted task are gone
    assert_eq!(db.subtasks.len(), 1);
    assert_eq!(db.subtasks[0], subtask("s2", "b"));
}

#[test]
fn deleting_a_missing_id_changes_nothing() {
    let mut db = migrated_db();
    db.tasks.push(task("t1", Some("inbox-default")));
    db.subtasks.push(subtask("s1", "t1"));
    let before_lists = db.lists.len();

    delete_list(&mut db, "no-such-list");
    delete_task(&mut db, "no-such-task");

    assert_eq!(db.lists.len(), before_lists);
    assert_eq!(db.tasks.len(), 1);
    assert_eq!(db.tasks[0], task("t1", Some("inbox-default")));
    assert_eq!(db.subtasks.len(), 1);
}

#[test]
fn deleting_a_list_keeps_other_lists_in_order() {
    let mut db = migrated_db();
    db.lists.push(list("alpha"));
    db.lists.push(list("beta"));
    db.lists.push(list("alpha"));

    delete_list(&mut db, "alpha");

    assert_eq!(db.lists.len(), 2);
    assert_eq!(db.lists[0].id, "inbox-default");
    assert_eq!(db.lists[1].id, "beta");
}
