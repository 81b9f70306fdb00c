//! Model of the local embedded database: the five tables the bundled
//! schema creates, their rows as plain values, and the referential
//! rules that deletes obey (a Task's list reference is set to null
//! when its List goes; a Subtask is deleted with its parent Task).

use vstd::prelude::*;
use crate::text::{clone_opt_string, str_eq};

verus! {

/// View of an optional text column.
pub open spec fn opt_text(o: Option<String>) -> Option<Seq<char>> {
    match o {
        Some(s) => Some(s@),
        None => None,
    }
}

/// A row of the Lists table.
#[derive(Debug, PartialEq, Eq)]
pub struct ListRow {
    pub id: String,
    pub name: String,
    pub icon: Option<String>,
    pub color: Option<String>,
    pub order: Option<i64>,
    pub created_at: i64,
    pub updated_at: i64,
}

/// Mathematical view of a Lists row.
#[verifier::ext_equal]
pub struct ListRowModel {
    pub id: Seq<char>,
    pub name: Seq<char>,
    pub icon: Option<Seq<char>>,
    pub color: Option<Seq<char>>,
    pub order: Option<i64>,
    pub created_at: i64,
    pub updated_at: i64,
}

impl View for ListRow {
    type V = ListRowModel;

    open spec fn view(&self) -> ListRowModel {
        ListRowModel {
            id: self.id@,
            name: self.name@,
            icon: opt_text(self.icon),
            color: opt_text(self.color),
            order: self.order,
            created_at: self.created_at,
            updated_at: self.updated_at,
        }
    }
}

/// A row of the Tasks table. `completed` models the 0/1 integer
/// column; `list_id` is the nullable reference to the owning List.
#[derive(Debug, PartialEq, Eq)]
pub struct TaskRow {
    pub id: String,
    pub title: String,
    pub completed: bool,
    pub completed_at: Option<i64>,
    pub complete_percentage: Option<i64>,
    pub due_date: Option<i64>,
    pub list_id: Option<String>,
    pub list_name: String,
    pub content: Option<String>,
    pub order: i64,
    pub created_at: i64,
    pub updated_at: i64,
    pub tags: Option<String>,
    pub priority: Option<i64>,
    pub group_category: String,
}

/// Mathematical view of a Tasks row.
#[verifier::ext_equal]
pub struct TaskRowModel {
    pub id: Seq<char>,
    pub title: Seq<char>,
    pub completed: bool,
    pub completed_at: Option<i64>,
    pub complete_percentage: Option<i64>,
    pub due_date: Option<i64>,
    pub list_id: Option<Seq<char>>,
    pub list_name: Seq<char>,
    pub content: Option<Seq<char>>,
    pub order: i64,
    pub created_at: i64,
    pub updated_at: i64,
    pub tags: Option<Seq<char>>,
    pub priority: Option<i64>,
    pub group_category: Seq<char>,
}

impl View for TaskRow {
    type V = TaskRowModel;

    open spec fn view(&self) -> TaskRowModel {
        TaskRowModel {
            id: self.id@,
            title: self.title@,
            completed: self.completed,
            completed_at: self.completed_at,
            complete_percentage: self.complete_percentage,
            due_date: self.due_date,
            list_id: opt_text(self.list_id),
            list_name: self.list_name@,
            content: opt_text(self.content),
            order: self.order,
            created_at: self.created_at,
            updated_at: self.updated_at,
            tags: opt_text(self.tags),
            priority: self.priority,
            group_category: self.group_category@,
        }
    }
}

/// A row of the Subtasks table. `parent_id` is the mandatory reference
/// to the owning Task.
#[derive(Debug, PartialEq, Eq)]
pub struct SubtaskRow {
    pub id: String,
    pub parent_id: String,
    pub title: String,
    pub completed: bool,
    pub completed_at: Option<i64>,
    pub due_date: Option<i64>,
    pub order: i64,
    pub created_at: i64,
    pub updated_at: i64,
}

/// Mathematical view of a Subtasks row.
#[verifier::ext_equal]
pub struct SubtaskRowModel {
    pub id: Seq<char>,
    pub parent_id: Seq<char>,
    pub title: Seq<char>,
    pub completed: bool,
    pub completed_at: Option<i64>,
    pub due_date: Option<i64>,
    pub order: i64,
    pub created_at: i64,
    pub updated_at: i64,
}

impl View for SubtaskRow {
    type V = SubtaskRowModel;

    open spec fn view(&self) -> SubtaskRowModel {
        SubtaskRowModel {
            id: self.id@,
            parent_id: self.parent_id@,
            title: self.title@,
            completed: self.completed,
            completed_at: self.completed_at,
            due_date: self.due_date,
            order: self.order,
            created_at: self.created_at,
            updated_at: self.updated_at,
        }
    }
}

/// A row of the Summaries table.
#[derive(Debug, PartialEq, Eq)]
pub struct SummaryRow {
    pub id: String,
    pub created_at: i64,
    pub updated_at: i64,
    pub period_key: String,
    pub list_key: String,
    pub task_ids: String,
    pub summary_text: String,
}

/// Mathematical view of a Summaries row.
#[verifier::ext_equal]
pub struct SummaryRowModel {
    pub id: Seq<char>,
    pub created_at: i64,
    pub updated_at: i64,
    pub period_key: Seq<char>,
    pub list_key: Seq<char>,
    pub task_ids: Seq<char>,
    pub summary_text: Seq<char>,
}

impl View for SummaryRow {
    type V = SummaryRowModel;

    open spec fn view(&self) -> SummaryRowModel {
        SummaryRowModel {
            id: self.id@,
            created_at: self.created_at,
            updated_at: self.updated_at,
            period_key: self.period_key@,
            list_key: self.list_key@,
            task_ids: self.task_ids@,
            summary_text: self.summary_text@,
        }
    }
}

/// A row of the Settings key/value table.
#[derive(Debug, PartialEq, Eq)]
pub struct SettingRow {
    pub key: String,
    pub value: String,
    pub updated_at: i64,
}

/// Mathematical view of a Settings row.
#[verifier::ext_equal]
pub struct SettingRowModel {
    pub key: Seq<char>,
    pub value: Seq<char>,
    pub updated_at: i64,
}

impl View for SettingRow {
    type V = SettingRowModel;

    open spec fn view(&self) -> SettingRowModel {
        SettingRowModel { key: self.key@, value: self.value@, updated_at: self.updated_at }
    }
}

/// The database: a schema version counter, and for each table whether
/// it has been created plus its rows (a table that does not exist has
/// no rows). The five index flags model the named indexes the bundled
/// schema creates.
#[derive(Debug, PartialEq, Eq)]
pub struct Db {
    pub schema_version: u64,
    pub lists_created: bool,
    pub lists: Vec<ListRow>,
    pub tasks_created: bool,
    pub tasks: Vec<TaskRow>,
    pub subtasks_created: bool,
    pub subtasks: Vec<SubtaskRow>,
    pub summaries_created: bool,
    pub summaries: Vec<SummaryRow>,
    pub settings_created: bool,
    pub settings: Vec<SettingRow>,
    pub idx_tasks_list_id: bool,
    pub idx_tasks_completed: bool,
    pub idx_tasks_due_date: bool,
    pub idx_subtasks_parent_id: bool,
    pub idx_summaries_period_list: bool,
}

/// Mathematical view of the whole database.
#[verifier::ext_equal]
pub struct DbModel {
    pub schema_version: u64,
    pub lists_created: bool,
    pub lists: Seq<ListRowModel>,
    pub tasks_created: bool,
    pub tasks: Seq<TaskRowModel>,
    pub subtasks_created: bool,
    pub subtasks: Seq<SubtaskRowModel>,
    pub summaries_created: bool,
    pub summaries: Seq<SummaryRowModel>,
    pub settings_created: bool,
    pub settings: Seq<SettingRowModel>,
    pub idx_tasks_list_id: bool,
    pub idx_tasks_completed: bool,
    pub idx_tasks_due_date: bool,
    pub idx_subtasks_parent_id: bool,
    pub idx_summaries_period_list: bool,
}

impl View for Db {
    type V = DbModel;

    open spec fn view(&self) -> DbModel {
        DbModel {
            schema_version: self.schema_version,
            lists_created: self.lists_created,
            lists: self.lists@.map_values(|r: ListRow| r@),
            tasks_created: self.tasks_created,
            tasks: self.tasks@.map_values(|r: TaskRow| r@),
            subtasks_created: self.subtasks_created,
            subtasks: self.subtasks@.map_values(|r: SubtaskRow| r@),
            summaries_created: self.summaries_created,
            summaries: self.summaries@.map_values(|r: SummaryRow| r@),
            settings_created: self.settings_created,
            settings: self.settings@.map_values(|r: SettingRow| r@),
            idx_tasks_list_id: self.idx_tasks_list_id,
            idx_tasks_completed: self.idx_tasks_completed,
            idx_tasks_due_date: self.idx_tasks_due_date,
            idx_subtasks_parent_id: self.idx_subtasks_parent_id,
            idx_summaries_period_list: self.idx_summaries_period_list,
        }
    }
}

impl DbModel {
    /// A table that has not been created holds no rows.
    pub open spec fn wf(self) -> bool {
        &&& (!self.lists_created ==> self.lists.len() == 0)
        &&& (!self.tasks_created ==> self.tasks.len() == 0)
        &&& (!self.subtasks_created ==> self.subtasks.len() == 0)
        &&& (!self.summaries_created ==> self.summaries.len() == 0)
        &&& (!self.settings_created ==> self.settings.len() == 0)
    }
}

/// The database before any file exists: version 0, nothing created.
pub open spec fn fresh_db_model() -> DbModel {
    DbModel {
        schema_version: 0u64,
        lists_created: false,
        lists: Seq::empty(),
        tasks_created: false,
        tasks: Seq::empty(),
        subtasks_created: false,
        subtasks: Seq::empty(),
        summaries_created: false,
        summaries: Seq::empty(),
        settings_created: false,
        settings: Seq::empty(),
        idx_tasks_list_id: false,
        idx_tasks_completed: false,
        idx_tasks_due_date: false,
        idx_subtasks_parent_id: false,
        idx_summaries_period_list: false,
    }
}

impl Db {
    /// The state standing in for a nonexistent database file.
    pub fn fresh() -> (db: Db)
        ensures
            db@ == fresh_db_model(),
            db@.wf(),
    {
        let db = Db {
            schema_version: 0,
            lists_created: false,
            lists: Vec::new(),
            tasks_created: false,
            tasks: Vec::new(),
            subtasks_created: false,
            subtasks: Vec::new(),
            summaries_created: false,
            summaries: Vec::new(),
            settings_created: false,
            settings: Vec::new(),
            idx_tasks_list_id: false,
            idx_tasks_completed: false,
            idx_tasks_due_date: false,
            idx_subtasks_parent_id: false,
            idx_summaries_period_list: false,
        };
        proof {
            assert(db@ =~= fresh_db_model());
        }
        db
    }

    /// Last-applied schema version, 0 when no migration has run.
    pub fn schema_version(&self) -> (v: u64)
        ensures
            v == self@.schema_version,
    {
        self.schema_version
    }
}

impl Clone for ListRow {
    fn clone(&self) -> (r: Self)
        ensures
            r == *self,
    {
        ListRow {
            id: self.id.clone(),
            name: self.name.clone(),
            icon: clone_opt_string(&self.icon),
            color: clone_opt_string(&self.color),
            order: self.order,
            created_at: self.created_at,
            updated_at: self.updated_at,
        }
    }
}

impl Clone for TaskRow {
    fn clone(&self) -> (r: Self)
        ensures
            r == *self,
    {
        TaskRow {
            id: self.id.clone(),
            title: self.title.clone(),
            completed: self.completed,
            completed_at: self.completed_at,
            complete_percentage: self.complete_percentage,
            due_date: self.due_date,
            list_id: clone_opt_string(&self.list_id),
            list_name: self.list_name.clone(),
            content: clone_opt_string(&self.content),
            order: self.order,
            created_at: self.created_at,
            updated_at: self.updated_at,
            tags: clone_opt_string(&self.tags),
            priority: self.priority,
            group_category: self.group_category.clone(),
        }
    }
}

impl Clone for SubtaskRow {
    fn clone(&self) -> (r: Self)
        ensures
            r == *self,
    {
        SubtaskRow {
            id: self.id.clone(),
            parent_id: self.parent_id.clone(),
            title: self.title.clone(),
            completed: self.completed,
            completed_at: self.completed_at,
            due_date: self.due_date,
            order: self.order,
            created_at: self.created_at,
            updated_at: self.updated_at,
        }
    }
}

/// The Lists rows that survive deleting the list with the given id,
/// in their original order.
pub open spec fn lists_without(rows: Seq<ListRowModel>, id: Seq<char>) -> Seq<ListRowModel>
    decreases rows.len(),
{
    if rows.len() == 0 {
        Seq::empty()
    } else {
        let rest = lists_without(rows.drop_last(), id);
        if rows.last().id == id {
            rest
        } else {
            rest.push(rows.last())
        }
    }
}

/// The Tasks rows that survive deleting the task with the given id,
/// in their original order.
pub open spec fn tasks_without(rows: Seq<TaskRowModel>, id: Seq<char>) -> Seq<TaskRowModel>
    decreases rows.len(),
{
    if rows.len() == 0 {
        Seq::empty()
    } else {
        let rest = tasks_without(rows.drop_last(), id);
        if rows.last().id == id {
            rest
        } else {
            rest.push(rows.last())
        }
    }
}

/// The Subtasks rows that survive the cascade when the task with the
/// given id is deleted: exactly those whose parent_id is different.
pub open spec fn subtasks_without_parent(rows: Seq<SubtaskRowModel>, id: Seq<char>) -> Seq<
    SubtaskRowModel,
>
    decreases rows.len(),
{
    if rows.len() == 0 {
        Seq::empty()
    } else {
        let rest = subtasks_without_parent(rows.drop_last(), id);
        if rows.last().parent_id == id {
            rest
        } else {
            rest.push(rows.last())
        }
    }
}

/// What deleting a List does to one Task: a reference to the deleted
/// List becomes null; everything else is untouched.
pub open spec fn detach_task(t: TaskRowModel, id: Seq<char>) -> TaskRowModel {
    if t.list_id == Some(id) {
        TaskRowModel { list_id: None, ..t }
    } else {
        t
    }
}

/// What deleting a List does to the whole Tasks table.
pub open spec fn detach_tasks(rows: Seq<TaskRowModel>, id: Seq<char>) -> Seq<TaskRowModel> {
    rows.map_values(|t: TaskRowModel| detach_task(t, id))
}

/// Removes the Lists rows whose id matches.
fn remove_list_rows(v: &mut Vec<ListRow>, id: &str)
    ensures
        final(v)@.map_values(|r: ListRow| r@) == lists_without(
            old(v)@.map_values(|r: ListRow| r@),
            id@,
        ),
{
    let ghost m = v@.map_values(|r: ListRow| r@);
    let mut kept: Vec<ListRow> = Vec::new();
    let mut i: usize = 0;
    while i < v.len()
        invariant
            i <= v@.len(),
            v@ == old(v)@,
            m == v@.map_values(|r: ListRow| r@),
            kept@.map_values(|r: ListRow| r@) == lists_without(m.take(i as int), id@),
        decreases v@.len() - i,
    {
        let keep = !str_eq(v[i].id.as_str(), id);
        proof {
            assert(m.take(i as int + 1).drop_last() =~= m.take(i as int));
            assert(m.take(i as int + 1).last() == m[i as int]);
            assert(m[i as int] == v@[i as int]@);
        }
        if keep {
            kept.push(v[i].clone());
            proof {
                assert(kept@.map_values(|r: ListRow| r@) =~= lists_without(
                    m.take(i as int),
                    id@,
                ).push(m[i as int]));
            }
        }
        i += 1;
    }
    proof {
        assert(m.take(v@.len() as int) =~= m);
    }
    *v = kept;
}

/// Removes the Tasks rows whose id matches.
fn remove_task_rows(v: &mut Vec<TaskRow>, id: &str)
    ensures
        final(v)@.map_values(|r: TaskRow| r@) == tasks_without(
            old(v)@.map_values(|r: TaskRow| r@),
            id@,
        ),
{
    let ghost m = v@.map_values(|r: TaskRow| r@);
    let mut kept: Vec<TaskRow> = Vec::new();
    let mut i: usize = 0;
    while i < v.len()
        invariant
            i <= v@.len(),
            v@ == old(v)@,
            m == v@.map_values(|r: TaskRow| r@),
            kept@.map_values(|r: TaskRow| r@) == tasks_without(m.take(i as int), id@),
        decreases v@.len() - i,
    {
        let keep = !str_eq(v[i].id.as_str(), id);
        proof {
            assert(m.take(i as int + 1).drop_last() =~= m.take(i as int));
            assert(m.take(i as int + 1).last() == m[i as int]);
            assert(m[i as int] == v@[i as int]@);
        }
        if keep {
            kept.push(v[i].clone());
            proof {
                assert(kept@.map_values(|r: TaskRow| r@) =~= tasks_without(
                    m.take(i as int),
                    id@,
                ).push(m[i as int]));
            }
        }
        i += 1;
    }
    proof {
        assert(m.take(v@.len() as int) =~= m);
    }
    *v = kept;
}

/// Removes the Subtasks rows whose parent_id matches (the cascade).
fn remove_subtask_rows(v: &mut Vec<SubtaskRow>, parent_id: &str)
    ensures
        final(v)@.map_values(|r: SubtaskRow| r@) == subtasks_without_parent(
            old(v)@.map_values(|r: SubtaskRow| r@),
            parent_id@,
        ),
{
    let ghost m = v@.map_values(|r: SubtaskRow| r@);
    let mut kept: Vec<SubtaskRow> = Vec::new();
    let mut i: usize = 0;
    while i < v.len()
        invariant
            i <= v@.len(),
            v@ == old(v)@,
            m == v@.map_values(|r: SubtaskRow| r@),
            kept@.map_values(|r: SubtaskRow| r@) == subtasks_without_parent(m.take(i as int), parent_id@),
        decreases v@.len() - i,
    {
        let keep = !str_eq(v[i].parent_id.as_str(), parent_id);
        proof {
            assert(m.take(i as int + 1).drop_last() =~= m.take(i as int));
            assert(m.take(i as int + 1).last() == m[i as int]);
            assert(m[i as int] == v@[i as int]@);
        }
        if keep {
            kept.push(v[i].clone());
            proof {
                assert(kept@.map_values(|r: SubtaskRow| r@) =~= subtasks_without_parent(
                    m.take(i as int),
                    parent_id@,
                ).push(m[i as int]));
            }
        }
        i += 1;
    }
    proof {
        assert(m.take(v@.len() as int) =~= m);
    }
    *v = kept;
}

/// Sets list_id to null on every Task that referenced the given List.
fn detach_tasks_from(v: &mut Vec<TaskRow>, id: &str)
    ensures
        final(v)@.map_values(|r: TaskRow| r@) == detach_tasks(
            old(v)@.map_values(|r: TaskRow| r@),
            id@,
        ),
{
    let ghost m = v@.map_values(|r: TaskRow| r@);
    let mut i: usize = 0;
    while i < v.len()
        invariant
            i <= v@.len(),
            v@.len() == m.len(),
            forall|j: int| 0 <= j < i ==> v@[j]@ == detach_task(m[j], id@),
            forall|j: int| i <= j < m.len() ==> v@[j] == old(v)@[j],
            m == old(v)@.map_values(|r: TaskRow| r@),
        decreases v@.len() - i,
    {
        proof {
            assert(m[i as int] == old(v)@[i as int]@);
        }
        let matches_id = match &v[i].list_id {
            Some(l) => str_eq(l.as_str(), id),
            None => false,
        };
        if matches_id {
            let ghost vpre = v@;
            let mut row = v.remove(i);
            row.list_id = None;
            v.insert(i, row);
            proof {
                assert(v@ =~= vpre.update(i as int, row));
            }
        }
        i += 1;
    }
    proof {
        assert(v@.map_values(|r: TaskRow| r@) =~= detach_tasks(m, id@));
    }
}

/// Deletes a List row. Per the schema's foreign-key rule the delete
/// never cascades to Tasks: each Task that referenced the List keeps
/// all its data and only has its list reference set to null.
pub fn delete_list(db: &mut Db, list_id: &str)
    requires
        old(db)@.wf(),
        old(db)@.lists_created,
        old(db)@.tasks_created,
    ensures
        final(db)@ == (DbModel {
            lists: lists_without(old(db)@.lists, list_id@),
            tasks: detach_tasks(old(db)@.tasks, list_id@),
            ..old(db)@
        }),
        final(db)@.wf(),
{
    remove_list_rows(&mut db.lists, list_id);
    detach_tasks_from(&mut db.tasks, list_id);
    proof {
        assert(db@ =~= (DbModel {
            lists: lists_without(old(db)@.lists, list_id@),
            tasks: detach_tasks(old(db)@.tasks, list_id@),
            ..old(db)@
        }));
    }
}

/// Deletes a Task row. Per the schema's foreign-key rule the delete
/// cascades: every Subtask whose parent_id referenced it is deleted.
pub fn delete_task(db: &mut Db, task_id: &str)
    requires
        old(db)@.wf(),
        old(db)@.tasks_created,
        old(db)@.subtasks_created,
    ensures
        final(db)@ == (DbModel {
            tasks: tasks_without(old(db)@.tasks, task_id@),
            subtasks: subtasks_without_parent(old(db)@.subtasks, task_id@),
            ..old(db)@
        }),
        final(db)@.wf(),
{
    remove_task_rows(&mut db.tasks, task_id);
    remove_subtask_rows(&mut db.subtasks, task_id);
    proof {
        assert(db@ =~= (DbModel {
            tasks: tasks_without(old(db)@.tasks, task_id@),
            subtasks: subtasks_without_parent(old(db)@.subtasks, task_id@),
            ..old(db)@
        }));
    }
}

/// Law: deleting a List deletes no Task. Every Task survives with all
/// its fields unchanged, except that a reference to the deleted List
/// becomes null.
pub proof fn lemma_detach_keeps_tasks(tasks: Seq<TaskRowModel>, id: Seq<char>)
    ensures
        detach_tasks(tasks, id).len() == tasks.len(),
        forall|i: int| 0 <= i < tasks.len() ==> detach_tasks(tasks, id)[i] == (TaskRowModel {
            list_id: if tasks[i].list_id == Some(id) {
                None
            } else {
                tasks[i].list_id
            },
            ..tasks[i]
        }),
{
    assert forall|i: int| 0 <= i < tasks.len() implies detach_tasks(tasks, id)[i] == (TaskRowModel {
        list_id: if tasks[i].list_id == Some(id) {
            None
        } else {
            tasks[i].list_id
        },
        ..tasks[i]
    }) by {
        assert(detach_tasks(tasks, id)[i] == detach_task(tasks[i], id));
    }
}

/// Law: after deleting a List no surviving List row carries its id,
/// and every List row with a different id survives.
pub proof fn lemma_list_delete_exact(rows: Seq<ListRowModel>, id: Seq<char>)
    ensures
        forall|i: int| 0 <= i < lists_without(rows, id).len() ==> lists_without(rows, id)[i].id
            != id,
        forall|i: int|
            0 <= i < rows.len() && rows[i].id != id ==> lists_without(rows, id).contains(rows[i]),
    decreases rows.len(),
{
    if rows.len() > 0 {
        lemma_list_delete_exact(rows.drop_last(), id);
        let rest = lists_without(rows.drop_last(), id);
        assert forall|i: int|
            0 <= i < rows.len() && rows[i].id != id implies lists_without(rows, id).contains(
            rows[i],
        ) by {
            if i < rows.len() - 1 {
                assert(rows.drop_last()[i] == rows[i]);
                assert(rest.contains(rows[i]));
                let w = choose|w: int| 0 <= w < rest.len() && rest[w] == rows[i];
                assert(lists_without(rows, id)[w] == rows[i]);
            } else {
                assert(lists_without(rows, id)[rest.len() as int] == rows[i]);
            }
        }
    }
}

/// Law: after deleting a Task no surviving Task row carries its id,
/// and every Task row with a different id survives.
pub proof fn lemma_task_delete_exact(rows: Seq<TaskRowModel>, id: Seq<char>)
    ensures
        forall|i: int| 0 <= i < tasks_without(rows, id).len() ==> tasks_without(rows, id)[i].id
            != id,
        forall|i: int|
            0 <= i < rows.len() && rows[i].id != id ==> tasks_without(rows, id).contains(rows[i]),
    decreases rows.len(),
{
    if rows.len() > 0 {
        lemma_task_delete_exact(rows.drop_last(), id);
        let rest = tasks_without(rows.drop_last(), id);
        assert forall|i: int|
            0 <= i < rows.len() && rows[i].id != id implies tasks_without(rows, id).contains(
            rows[i],
        ) by {
            if i < rows.len() - 1 {
                assert(rows.drop_last()[i] == rows[i]);
                assert(rest.contains(rows[i]));
                let w = choose|w: int| 0 <= w < rest.len() && rest[w] == rows[i];
                assert(tasks_without(rows, id)[w] == rows[i]);
            } else {
                assert(tasks_without(rows, id)[rest.len() as int] == rows[i]);
            }
        }
    }
}

/// Law: deleting a Task deletes exactly the Subtasks whose parent_id
/// referenced it: no survivor references it, and every Subtask with a
/// different parent survives.
pub proof fn lemma_cascade_exact(rows: Seq<SubtaskRowModel>, id: Seq<char>)
    ensures
        forall|i: int|
            0 <= i < subtasks_without_parent(rows, id).len() ==> subtasks_without_parent(
                rows,
                id,
            )[i].parent_id != id,
        forall|i: int|
            0 <= i < rows.len() && rows[i].parent_id != id ==> subtasks_without_parent(
                rows,
                id,
            ).contains(rows[i]),
    decreases rows.len(),
{
    if rows.len() > 0 {
        lemma_cascade_exact(rows.drop_last(), id);
        let rest = subtasks_without_parent(rows.drop_last(), id);
        assert forall|i: int|
            0 <= i < rows.len() && rows[i].parent_id != id implies subtasks_without_parent(
            rows,
            id,
        ).contains(rows[i]) by {
            if i < rows.len() - 1 {
                assert(rows.drop_last()[i] == rows[i]);
                assert(rest.contains(rows[i]));
                let w = choose|w: int| 0 <= w < rest.len() && rest[w] == rows[i];
                assert(subtasks_without_parent(rows, id)[w] == rows[i]);
            } else {
                assert(subtasks_without_parent(rows, id)[rest.len() as int] == rows[i]);
            }
        }
    }
}

} // verus!
