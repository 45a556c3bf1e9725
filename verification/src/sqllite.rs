//! The SQL-backed store: a single `tasks` table with one row per task,
//! every column stored as text and the row id serving as the task id.
//!
//! The library reaches the database only through the query wrappers below;
//! each one runs a fixed, parameterized statement, and its contract states
//! what the statement does to the table, seen as a map from row id to row.
//! Bound parameters are used exclusively: no value is ever spliced into the
//! statement text, so quotes in a task's fields cannot change the query.

use vstd::prelude::*;

verus! {

use crate::app::{filter_matches, matches_filter, FilterOptions};
use crate::error::Error;
use crate::task::{
    prio_of_str,
    prio_str,
    status_of_str,
    status_str,
    Task,
    TaskPriority,
    TaskStatus,
};

/// rusqlite's connection handle, opaque to verification.
#[verifier::external_type_specification]
#[verifier::external_body]
pub struct ExConnection(rusqlite::Connection);

/// One row of the `tasks` table, exactly as stored: status and priority as
/// their canonical display strings, timestamps as text.
#[derive(Debug)]
pub struct TaskRow {
    pub short: String,
    pub desc: String,
    pub status: String,
    pub created: String,
    pub started: Option<String>,
    pub prio: String,
}

/// What the `tasks` table of the database behind a connection holds, keyed
/// by row id. The library learns about it only through the contracts of
/// the query wrappers below.
pub uninterp spec fn db_tasks(conn: rusqlite::Connection) -> Map<u64, TaskRow>;

/// Relies on `rusqlite::Connection::open`: opens or creates the database
/// file at `path`. Nothing is assumed about the table contents.
#[verifier::external_body]
fn open_connection(path: &str) -> (r: Result<rusqlite::Connection, Error>) {
    rusqlite::Connection::open(path).map_err(|e| Error::IOError(format!("{e}")))
}

/// The table kept the rows it had, or is fresh and empty.
pub open spec fn unchanged_or_empty(m0: Map<u64, TaskRow>, m1: Map<u64, TaskRow>) -> bool {
    m1 == m0 || m1 == Map::<u64, TaskRow>::empty()
}

/// Relies on `rusqlite::Connection::execute` running `CREATE TABLE IF NOT
/// EXISTS`: it prepares the schema and touches no rows, so on success the
/// table either kept the rows it had or was just created empty.
#[verifier::external_body]
fn create_tasks_table(conn: &mut rusqlite::Connection) -> (r: Result<(), Error>)
    ensures
        r is Ok ==> unchanged_or_empty(db_tasks(*old(conn)), db_tasks(*final(conn))),
{
    let sql =
        "CREATE TABLE IF NOT EXISTS tasks(short TEXT, desc TEXT, status TEXT, created TEXT, started TEXT, prio TEXT);";
    match conn.execute(sql, ()) {
        Ok(_) => Ok(()),
        Err(e) => Err(Error::IOError(format!("{e}"))),
    }
}

/// Relies on `rusqlite::Connection::execute` running a parameterized
/// INSERT: on success exactly one row was added, under a row id that was
/// free (SQLite picks it), and every other row is untouched. Statements
/// are atomic, so a failed insert leaves the table as it was.
#[verifier::external_body]
fn insert_task_row(conn: &mut rusqlite::Connection, row: &TaskRow) -> (r: Result<usize, Error>)
    ensures
        r is Ok ==> r->Ok_0 == 1usize && (exists|id: u64|
            !db_tasks(*old(conn)).dom().contains(id) && db_tasks(*final(conn)) == db_tasks(
                *old(conn),
            ).insert(id, *row)),
        r is Err ==> db_tasks(*final(conn)) == db_tasks(*old(conn)),
{
    conn.execute(
        "INSERT INTO tasks (short,desc,status,created,started,prio) VALUES (?1, ?2, ?3, ?4, ?5, ?6);",
        (&row.short, &row.desc, &row.status, &row.created, &row.started, &row.prio),
    ).map_err(|e| Error::IOError(format!("{e}")))
}

/// Relies on `rusqlite::Connection::execute` running a parameterized DELETE
/// by row id: on success the row with that id, if any, is gone, every other
/// row is untouched, and the count says whether a row matched. Statements
/// are atomic, so a failed delete leaves the table as it was.
#[verifier::external_body]
fn delete_task_row(conn: &mut rusqlite::Connection, id: u64) -> (r: Result<usize, Error>)
    ensures
        r is Ok ==> db_tasks(*final(conn)) == db_tasks(*old(conn)).remove(id) && r->Ok_0 == (
        if db_tasks(*old(conn)).dom().contains(id) {
            1usize
        } else {
            0usize
        }),
        r is Err ==> db_tasks(*final(conn)) == db_tasks(*old(conn)),
{
    conn.execute("DELETE from tasks where rowid=?1", [id]).map_err(
        |e| Error::IOError(format!("{e}")),
    )
}

/// Relies on `rusqlite::Connection::execute` running a parameterized UPDATE
/// by row id of every column except the priority: on success the count says
/// whether a row matched; a matched row now holds the new values beside its
/// old priority, and every other row is untouched. Statements are atomic,
/// so a failed update leaves the table as it was.
#[verifier::external_body]
fn update_task_row(
    conn: &mut rusqlite::Connection,
    id: u64,
    short: &String,
    desc: &String,
    status: &String,
    created: &String,
    started: &Option<String>,
) -> (r: Result<usize, Error>)
    ensures
        r is Ok ==> ({
            let m0 = db_tasks(*old(conn));
            let m1 = db_tasks(*final(conn));
            if m0.dom().contains(id) {
                r->Ok_0 == 1usize && m1 == m0.insert(
                    id,
                    (TaskRow {
                        short: *short,
                        desc: *desc,
                        status: *status,
                        created: *created,
                        started: *started,
                        prio: m0[id].prio,
                    }),
                )
            } else {
                r->Ok_0 == 0usize && m1 == m0
            }
        }),
        r is Err ==> db_tasks(*final(conn)) == db_tasks(*old(conn)),
{
    conn.execute(
        "UPDATE tasks SET short=?1,desc=?2,status=?3,created=?4,started=?5 where rowid=?6;",
        (short, desc, status, created, started, id),
    ).map_err(|e| Error::IOError(format!("{e}")))
}

/// Relies on `rusqlite::Connection::query_row` running a parameterized
/// SELECT by row id: an Ok answer is exactly the stored row; the no-rows
/// answer, mapped to `TaskNotFound`, only comes when no row has the id; and
/// a missing id never yields Ok.
#[verifier::external_body]
fn select_task_row(conn: &rusqlite::Connection, id: u64) -> (r: Result<TaskRow, Error>)
    ensures
        r is Ok ==> db_tasks(*conn).dom().contains(id) && r->Ok_0 == db_tasks(*conn)[id],
        db_tasks(*conn).dom().contains(id) ==> !(r matches Err(Error::TaskNotFound)),
        !db_tasks(*conn).dom().contains(id) ==> r is Err,
{
    conn.query_row("SELECT short,desc,status,created,started,prio from tasks where rowid=?1", [id], |row| {
        Ok(TaskRow { short: row.get(0)?, desc: row.get(1)?, status: row.get(2)?, created: row.get(3)?, started: row.get(4)?, prio: row.get(5)? })
    }).map_err(|e| match e {
        rusqlite::Error::QueryReturnedNoRows => Error::TaskNotFound,
        _ => Error::IOError(format!("{e}")),
    })
}

/// The sequence `v` is a faithful listing of the table `m`: every entry
/// is a stored row under its id, no id twice, and every stored row is
/// listed.
pub open spec fn rows_of_model(m: Map<u64, TaskRow>, v: Seq<(u64, TaskRow)>) -> bool {
    &&& forall|i: int|
        0 <= i < v.len() ==> m.dom().contains(#[trigger] v[i].0) && v[i].1 == m[v[i].0]
    &&& forall|i: int, j: int| 0 <= i < j < v.len() ==> v[i].0 != v[j].0
    &&& forall|id: u64| #[trigger]
        m.dom().contains(id) ==> exists|i: int| 0 <= i < v.len() && v[i].0 == id
}

/// Every listed row parses back into a task.
pub open spec fn all_rows_parse(v: Seq<(u64, TaskRow)>) -> bool {
    forall|j: int| 0 <= j < v.len() ==> task_of_row_spec((#[trigger] v[j]).0, v[j].1) is Some
}

/// The tasks a listing of rows denotes, keeping those that pass the
/// filter, in listing order.
pub open spec fn tasks_of_rows(v: Seq<(u64, TaskRow)>, f: Option<(FilterOptions, String)>) -> Seq<
    Task,
>
    decreases v.len(),
{
    if v.len() == 0 {
        Seq::empty()
    } else {
        let rest = tasks_of_rows(v.drop_last(), f);
        let t = task_of_row_spec(v.last().0, v.last().1)->0;
        if filter_matches(t, f) {
            rest.push(t)
        } else {
            rest
        }
    }
}

/// Relies on `rusqlite::Connection::prepare` and `Statement::query_map`
/// running a SELECT over the whole table: an Ok answer lists every stored
/// row beside its id, each id exactly once.
#[verifier::external_body]
fn select_all_rows(conn: &rusqlite::Connection) -> (r: Result<Vec<(u64, TaskRow)>, Error>)
    ensures
        r is Ok ==> rows_of_model(db_tasks(*conn), r->Ok_0@),
{
    let f = |row: &rusqlite::Row| -> rusqlite::Result<(u64, TaskRow)> {
        Ok((row.get(0)?, TaskRow { short: row.get(1)?, desc: row.get(2)?, status: row.get(3)?, created: row.get(4)?, started: row.get(5)?, prio: row.get(6)? }))
    };
    match conn.prepare("SELECT rowid,short,desc,status,created,started,prio from tasks") {
        Err(e) => Err(Error::IOError(format!("{e}"))),
        Ok(mut stmt) => stmt.query_map([], f).and_then(|it| it.collect()).map_err(
            |e| Error::IOError(format!("{e}")),
        ),
    }
}

/// The row that persists a task: the task's fields with the status and
/// priority as their canonical display strings.
pub open spec fn row_stores_task(row: TaskRow, t: Task) -> bool {
    &&& row.short == t.short
    &&& row.desc == t.desc
    &&& row.status@ == status_str(t.status)
    &&& row.created == t.created
    &&& row.started == t.started
    &&& row.prio@ == prio_str(t.prio)
}

/// The task a stored row denotes under row id `id`, if its status and
/// priority strings parse.
pub open spec fn task_of_row_spec(id: u64, row: TaskRow) -> Option<Task> {
    match (status_of_str(row.status@), prio_of_str(row.prio@)) {
        (Some(st), Some(p)) => Some(
            (Task {
                id: Some(id),
                short: row.short,
                desc: row.desc,
                created: row.created,
                started: row.started,
                status: st,
                prio: p,
            }),
        ),
        _ => None,
    }
}

/// Maps a stored row back to a task. Succeeds if and only if the stored
/// status and priority strings each name a variant; the failure is a
/// storage error, never `TaskNotFound`.
pub fn task_of_row(id: u64, row: &TaskRow) -> (r: Result<Task, Error>)
    ensures
        match task_of_row_spec(id, *row) {
            Some(t) => r == Ok::<Task, Error>(t),
            None => r is Err && r != Err::<Task, Error>(Error::TaskNotFound),
        },
{
    let status = match TaskStatus::from_str(row.status.as_str()) {
        Ok(st) => st,
        Err(_) => {
            return Err(Error::IOError(String::from_str("stored status names no variant")));
        },
    };
    let prio = match TaskPriority::from_str(row.prio.as_str()) {
        Ok(p) => p,
        Err(_) => {
            return Err(Error::IOError(String::from_str("stored priority names no variant")));
        },
    };
    let started = match &row.started {
        Some(s) => Some(s.clone()),
        None => None,
    };
    Ok(Task {
        id: Some(id),
        short: row.short.clone(),
        desc: row.desc.clone(),
        created: row.created.clone(),
        started,
        status,
        prio,
    })
}

/// Builds the row that persists a task. The task's own `id` is not part of
/// a row: the row id carries it.
pub fn row_of_task(task: Task) -> (r: TaskRow)
    ensures
        row_stores_task(r, task),
{
    let status = task.status.to_string();
    let prio = task.prio.to_string();
    TaskRow {
        short: task.short,
        desc: task.desc,
        status,
        created: task.created,
        started: task.started,
        prio,
    }
}

/// Law: round trip through the stored form. A row that persists a task
/// parses back, under any row id, into exactly that task with the id
/// set — the canonical status and priority strings lose nothing.
pub proof fn lemma_row_round_trip(id: u64, row: TaskRow, t: Task)
    requires
        row_stores_task(row, t),
    ensures
        task_of_row_spec(id, row) == Some(crate::memory::stored_task(t, id)),
{
    crate::task::lemma_status_str_roundtrip(t.status);
    crate::task::lemma_prio_str_roundtrip(t.prio);
}

/// Settings for the SQL-backed store: where the database file lives.
pub struct SqlLiteSettings {
    path: String,
}

/// A task store backed by a SQLite database file.
pub struct SqlLiteDataSource {
    settings: SqlLiteSettings,
    conn: rusqlite::Connection,
}

impl SqlLiteDataSource {
    /// The rows of the `tasks` table behind this store.
    pub closed spec fn model(&self) -> Map<u64, TaskRow> {
        db_tasks(self.conn)
    }

    /// The path this store was opened at.
    pub closed spec fn path(&self) -> Seq<char> {
        self.settings.path@
    }

    /// Opens or creates the database file and makes sure the `tasks` table
    /// exists; schema creation is idempotent. Fails with a storage error
    /// when the file cannot be opened or the schema cannot be created.
    /// One store per file is assumed: the contracts treat this connection
    /// as the only handle on the database, as the single-session ownership
    /// model prescribes.
    pub fn new(path: &String) -> (r: Result<SqlLiteDataSource, Error>)
        ensures
            r is Ok ==> r->Ok_0.path() == path@,
    {
        let settings = SqlLiteSettings { path: path.clone() };
        let mut conn = match open_connection(path.as_str()) {
            Ok(c) => c,
            Err(e) => {
                return Err(e);
            },
        };
        match create_tasks_table(&mut conn) {
            Ok(u) => u,
            Err(e) => {
                return Err(e);
            },
        };
        Ok(SqlLiteDataSource { settings, conn })
    }

    /// The store is ready once it has been constructed.
    pub fn start(&self) -> (r: Result<(), Error>)
        ensures
            r is Ok,
    {
        Ok(())
    }

    /// Nothing to flush: SQLite commits each statement, and the connection
    /// closes when the store is dropped.
    pub fn stop(&self) -> (r: Result<bool, Error>)
        ensures
            r == Ok::<bool, Error>(true),
    {
        Ok(true)
    }

    /// Inserts the task as a new row under a fresh row id; the task's own
    /// `id` field is ignored on input. On success the count is 1 and
    /// exactly that row was added.
    pub fn write_task(&mut self, task: Task) -> (r: Result<usize, Error>)
        ensures
            r is Ok ==> r->Ok_0 == 1usize && (exists|id: u64, row: TaskRow|
                !old(self).model().dom().contains(id) && row_stores_task(row, task)
                    && final(self).model() == old(self).model().insert(id, row)),
            r is Err ==> final(self).model() == old(self).model(),
    {
        let row = row_of_task(task);
        let r = insert_task_row(&mut self.conn, &row);
        proof {
            if r is Ok {
                let id = choose|id: u64|
                    !db_tasks(old(self).conn).dom().contains(id) && db_tasks(self.conn)
                        == db_tasks(old(self).conn).insert(id, row);
                assert(!old(self).model().dom().contains(id) && row_stores_task(row, task)
                    && self.model() == old(self).model().insert(id, row));
            }
        }
        r
    }

    /// Hard-deletes the row with the given id. On success a missing id is
    /// a zero row count, not an error, and the table is unchanged; so a
    /// second remove of the same id answers zero again.
    pub fn remove(&mut self, id: u64) -> (r: Result<usize, Error>)
        ensures
            r is Ok ==> final(self).model() == old(self).model().remove(id) && r->Ok_0 == (
            if old(self).model().dom().contains(id) {
                1usize
            } else {
                0usize
            }),
            r is Err ==> final(self).model() == old(self).model(),
    {
        delete_task_row(&mut self.conn, id)
    }

    /// Looks up the row with the given id and maps it back to a task. An
    /// Ok answer is exactly the stored record; `TaskNotFound` only comes
    /// when no row has the id, and a missing id never succeeds.
    pub fn get(&self, id: u64) -> (r: Result<Task, Error>)
        ensures
            r is Ok ==> self.model().dom().contains(id) && task_of_row_spec(
                id,
                self.model()[id],
            ) == Some(r->Ok_0),
            r == Err::<Task, Error>(Error::TaskNotFound) ==> !self.model().dom().contains(id),
            !self.model().dom().contains(id) ==> r is Err,
    {
        let row = match select_task_row(&self.conn, id) {
            Ok(x) => x,
            Err(e) => {
                return Err(e);
            },
        };
        task_of_row(id, &row)
    }

    /// Full-record overwrite of the row at `id`, keeping the row id and
    /// the priority. On success a missing id is a zero row count and the
    /// table is unchanged.
    pub fn update_task(&mut self, id: u64, task: Task) -> (r: Result<usize, Error>)
        ensures
            r is Ok ==> ({
                let m0 = old(self).model();
                let m1 = final(self).model();
                if m0.dom().contains(id) {
                    r->Ok_0 == 1usize && (exists|row: TaskRow|
                        m1 == m0.insert(id, row) && row.short == task.short && row.desc
                            == task.desc && row.status@ == status_str(task.status) && row.created
                            == task.created && row.started == task.started && row.prio
                            == m0[id].prio)
                } else {
                    r->Ok_0 == 0usize && m1 == m0
                }
            }),
            r is Err ==> final(self).model() == old(self).model(),
    {
        let status = task.status.to_string();
        update_task_row(
            &mut self.conn,
            id,
            &task.short,
            &task.desc,
            &status,
            &task.created,
            &task.started,
        )
    }

    /// Appends every stored record passing the filter to `tasks`. On
    /// success some faithful listing of the table parsed back into tasks,
    /// and exactly those passing the filter were appended, one per row id,
    /// in the listing's order (which is not specified). An empty result is
    /// not an error. Whatever comes back, what `tasks` already held stays
    /// in place; tasks are only ever appended.
    pub fn list(&self, tasks: &mut Vec<Task>, filter: &Option<(FilterOptions, String)>) -> (r:
        Result<(), Error>)
        ensures
            final(tasks)@.len() >= old(tasks)@.len(),
            final(tasks)@.subrange(0, old(tasks)@.len() as int) == old(tasks)@,
            r is Ok ==> (exists|v: Seq<(u64, TaskRow)>|
                rows_of_model(self.model(), v) && all_rows_parse(v) && final(tasks)@ == old(
                    tasks,
                )@ + tasks_of_rows(v, *filter)),
    {
        let rows = match select_all_rows(&self.conn) {
            Ok(v) => v,
            Err(e) => {
                return Err(e);
            },
        };
        let n = rows.len();
        let mut i: usize = 0;
        while i < n
            invariant
                i <= n,
                n == rows@.len(),
                all_rows_parse(rows@.take(i as int)),
                tasks@ == old(tasks)@ + tasks_of_rows(rows@.take(i as int), *filter),
            decreases n - i,
        {
            let id = rows[i].0;
            let parsed = match task_of_row(id, &rows[i].1) {
                Ok(t) => t,
                Err(e) => {
                    return Err(e);
                },
            };
            let keep = matches_filter(&parsed, filter);
            proof {
                let pre = rows@.take(i as int);
                let cur = rows@.take(i as int + 1);
                assert(cur.drop_last() =~= pre);
                assert(cur.last() == rows@[i as int]);
                assert(all_rows_parse(cur)) by {
                    assert forall|j: int|
                        0 <= j < cur.len() implies task_of_row_spec(
                        (#[trigger] cur[j]).0,
                        cur[j].1,
                    ) is Some by {
                        if j < i as int {
                            assert(cur[j] == pre[j]);
                        }
                    }
                }
                assert(tasks_of_rows(cur, *filter) == if filter_matches(parsed, *filter) {
                    tasks_of_rows(pre, *filter).push(parsed)
                } else {
                    tasks_of_rows(pre, *filter)
                });
            }
            if keep {
                tasks.push(parsed);
                proof {
                    assert(tasks@ =~= old(tasks)@ + tasks_of_rows(
                        rows@.take(i as int + 1),
                        *filter,
                    ));
                }
            }
            i += 1;
        }
        proof {
            assert(rows@.take(n as int) =~= rows@);
        }
        Ok(())
    }
}

} // verus!
