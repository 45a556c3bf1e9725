//! The task manager: owns one storage backend and adds the sorting and
//! filtering policy on top of it.
//!
//! Listings are sorted by ascending priority rank with a stable bucket
//! pass: for each rank in turn, the tasks of that rank are appended in
//! fetch order, so `sort_spec` is by construction a stable sort.

use vstd::prelude::*;

verus! {

use crate::app::{filter_pred, Datasources, FilterOptions};
use crate::error::Error;
use crate::memory::{stored_task, updated_task, MemoryDataSource};
use crate::seq_ext::{lemma_filter_all, lemma_filter_none, lemma_filter_subrange_step};
use crate::sqllite::{
    all_rows_parse,
    row_stores_task,
    rows_of_model,
    tasks_of_rows,
    SqlLiteDataSource,
    TaskRow,
};
use crate::task::{prio_rank, prio_str, status_str, Task};
use crate::text::{
    first_line,
    first_line_spec,
    pad_trunc,
    pad_trunc_spec,
    repeat_char,
    repeat_str,
    u64_str,
    u64_to_string,
};

/// A storage backend the manager can own, chosen at construction.
pub enum Datasource {
    Sql(SqlLiteDataSource),
    Memory(MemoryDataSource),
}

impl Datasource {
    /// The well-formedness of whichever backend is held.
    pub open spec fn inv(&self) -> bool {
        match self {
            Datasource::Sql(_) => true,
            Datasource::Memory(m) => m.inv(),
        }
    }
}

/// Holds of tasks whose priority has the given rank.
pub open spec fn rank_is(k: u8) -> spec_fn(Task) -> bool {
    |t: Task| prio_rank(t.prio) == k
}

/// The tasks of ranks 1 through `k`, grouped by rank in ascending order,
/// each group in the order of `s`.
pub open spec fn sort_prefix(s: Seq<Task>, k: int) -> Seq<Task>
    decreases k,
{
    if k <= 0 {
        Seq::empty()
    } else {
        sort_prefix(s, k - 1) + s.filter(rank_is(k as u8))
    }
}

/// The listing order: ascending by priority rank, stable within a rank.
pub open spec fn sort_spec(s: Seq<Task>) -> Seq<Task> {
    sort_prefix(s, 7)
}

/// Every task in `sort_prefix(s, k)` has a rank between 1 and `k`.
proof fn lemma_sort_prefix_ranks(s: Seq<Task>, k: int)
    requires
        0 <= k <= 7,
    ensures
        forall|i: int|
            0 <= i < sort_prefix(s, k).len() ==> 1 <= prio_rank(
                (#[trigger] sort_prefix(s, k)[i]).prio,
            ) <= k,
    decreases k,
{
    if k > 0 {
        lemma_sort_prefix_ranks(s, k - 1);
        let pre = sort_prefix(s, k - 1);
        let cur = s.filter(rank_is(k as u8));
        assert forall|i: int|
            0 <= i < sort_prefix(s, k).len() implies 1 <= prio_rank(
            (#[trigger] sort_prefix(s, k)[i]).prio,
        ) <= k by {
            if i < pre.len() {
                assert(sort_prefix(s, k)[i] == pre[i]);
            } else {
                assert(sort_prefix(s, k)[i] == cur[i - pre.len()]);
                s.lemma_filter_pred(rank_is(k as u8), i - pre.len());
            }
        }
    }
}

/// Law: in a listing the priorities come in ascending rank order; a task
/// of lower rank never stands after one of higher rank.
pub proof fn lemma_sort_spec_sorted(s: Seq<Task>, i: int, j: int)
    requires
        0 <= i <= j < sort_spec(s).len(),
    ensures
        prio_rank(sort_spec(s)[i].prio) <= prio_rank(sort_spec(s)[j].prio),
{
    lemma_sort_prefix_sorted(s, 7, i, j);
}

/// Sortedness of each prefix of the bucket concatenation.
proof fn lemma_sort_prefix_sorted(s: Seq<Task>, k: int, i: int, j: int)
    requires
        0 <= k <= 7,
        0 <= i <= j < sort_prefix(s, k).len(),
    ensures
        prio_rank(sort_prefix(s, k)[i].prio) <= prio_rank(sort_prefix(s, k)[j].prio),
    decreases k,
{
    if k > 0 {
        let pre = sort_prefix(s, k - 1);
        let cur = s.filter(rank_is(k as u8));
        if j < pre.len() {
            lemma_sort_prefix_sorted(s, k - 1, i, j);
            assert(sort_prefix(s, k)[i] == pre[i]);
            assert(sort_prefix(s, k)[j] == pre[j]);
        } else {
            assert(sort_prefix(s, k)[j] == cur[j - pre.len()]);
            s.lemma_filter_pred(rank_is(k as u8), j - pre.len());
            if i < pre.len() {
                lemma_sort_prefix_ranks(s, k - 1);
                assert(sort_prefix(s, k)[i] == pre[i]);
            } else {
                assert(sort_prefix(s, k)[i] == cur[i - pre.len()]);
                s.lemma_filter_pred(rank_is(k as u8), i - pre.len());
            }
        }
    }
}

/// The tasks of rank `k` in each prefix of the bucket concatenation: all
/// of `s`'s once the prefix has passed rank `k`, none before.
proof fn lemma_sort_prefix_stable(s: Seq<Task>, j: int, k: u8)
    requires
        0 <= j <= 7,
        1 <= k,
    ensures
        sort_prefix(s, j).filter(rank_is(k)) == if k <= j {
            s.filter(rank_is(k))
        } else {
            Seq::<Task>::empty()
        },
    decreases j,
{
    if j == 0 {
        lemma_filter_none(Seq::<Task>::empty(), rank_is(k));
    } else {
        lemma_sort_prefix_stable(s, j - 1, k);
        let pre = sort_prefix(s, j - 1);
        let cur = s.filter(rank_is(j as u8));
        Seq::<Task>::filter_distributes_over_add(pre, cur, rank_is(k));
        if j == k {
            assert forall|i: int| 0 <= i < cur.len() implies rank_is(k)(#[trigger] cur[i]) by {
                s.lemma_filter_pred(rank_is(j as u8), i);
            }
            lemma_filter_all(cur, rank_is(k));
            Seq::<Task>::add_empty_left(pre.filter(rank_is(k)), cur);
        } else {
            assert forall|i: int| 0 <= i < cur.len() implies !rank_is(k)(#[trigger] cur[i]) by {
                s.lemma_filter_pred(rank_is(j as u8), i);
            }
            lemma_filter_none(cur, rank_is(k));
            Seq::<Task>::add_empty_right(pre.filter(rank_is(k)), cur.filter(rank_is(k)));
        }
    }
}

/// Law: sorting is stable. For every rank, the tasks of that rank appear
/// in the listing exactly as they appeared in the fetched sequence: same
/// tasks, same relative order.
pub proof fn lemma_sort_spec_stable(s: Seq<Task>, k: u8)
    requires
        1 <= k <= 7,
    ensures
        sort_spec(s).filter(rank_is(k)) == s.filter(rank_is(k)),
{
    lemma_sort_prefix_stable(s, 7, k);
}


/// The one-line table entry for a task: id, short name, priority, status
/// and the first line of the description, each cut or padded to its fixed
/// display width.
pub open spec fn task_line(t: Task) -> Seq<char> {
    "| "@ + u64_str((t.id->0) as int) + " | "@ + pad_trunc_spec(t.short@, 30) + " | "@
        + pad_trunc_spec(prio_str(t.prio), 25) + " | "@ + pad_trunc_spec(status_str(t.status), 20)
        + " | "@ + pad_trunc_spec(first_line_spec(t.desc@), 40)
}

/// The table's column header, padded to the same widths as the entries.
pub open spec fn header_line() -> Seq<char> {
    "| id | "@ + pad_trunc_spec("task"@, 30) + " | "@ + pad_trunc_spec("priority"@, 25) + " | "@
        + pad_trunc_spec("status"@, 20) + " | description"@
}

/// The lines of the detail view of one task.
pub open spec fn detail_lines(lines: Seq<String>, t: Task) -> bool {
    &&& lines.len() == 8
    &&& lines[0]@ == repeat_char('=', 80)
    &&& lines[1]@ == " Show info for task: "@ + u64_str((t.id->0) as int)
    &&& lines[2]@ == repeat_char('-', 80)
    &&& lines[3]@ == " ID: "@ + u64_str((t.id->0) as int)
    &&& lines[4]@ == " Task: "@ + t.short@
    &&& lines[5]@ == " Description: "@ + t.desc@
    &&& lines[6]@ == " Priority: "@ + prio_str(t.prio)
    &&& lines[7]@ == " Status: "@ + status_str(t.status)
}

/// Renders one fetched task as its table line.
fn render_task_line(t: &Task) -> (r: String)
    requires
        t.id is Some,
    ensures
        r@ == task_line(*t),
{
    let id = match t.id {
        Some(i) => i,
        None => 0,
    };
    let prio = t.prio.to_string();
    let status = t.status.to_string();
    let fl = first_line(t.desc.as_str());
    let mut line = String::from_str("| ");
    line.append(u64_to_string(id).as_str());
    line.append(" | ");
    line.append(pad_trunc(t.short.as_str(), 30).as_str());
    line.append(" | ");
    line.append(pad_trunc(prio.as_str(), 25).as_str());
    line.append(" | ");
    line.append(pad_trunc(status.as_str(), 20).as_str());
    line.append(" | ");
    line.append(pad_trunc(fl.as_str(), 40).as_str());
    line
}

/// The task manager: one storage backend plus sorting and filtering
/// policy. It holds no cache: every listing and lookup re-reads the
/// backend.
pub struct TaskManager {
    pub source: Datasource,
}

impl TaskManager {
    /// The well-formedness of the owned backend.
    pub open spec fn inv(&self) -> bool {
        self.source.inv()
    }

    /// Builds the configured backend and checks its readiness. There is
    /// no recovery path without storage, so the caller treats an error as
    /// fatal.
    pub fn new(datasource: Datasources, path: &String) -> (r: Result<TaskManager, Error>)
        ensures
            r is Ok ==> r->Ok_0.inv(),
            r is Ok && datasource == Datasources::SqlLite ==> r->Ok_0.source is Sql && (
            r->Ok_0.source)->Sql_0.path() == path@,
    {
        match datasource {
            Datasources::SqlLite => {
                let ds = match SqlLiteDataSource::new(path) {
                    Ok(d) => d,
                    Err(e) => {
                        return Err(e);
                    },
                };
                match ds.start() {
                    Ok(u) => u,
                    Err(e) => {
                        return Err(e);
                    },
                };
                Ok(TaskManager { source: Datasource::Sql(ds) })
            },
        }
    }

    /// Stores a new task; the backend assigns the id.
    pub fn add(&mut self, task: Task) -> (r: Result<usize, Error>)
        requires
            old(self).inv(),
        ensures
            final(self).inv(),
            match (old(self).source, final(self).source) {
                (Datasource::Sql(s0), Datasource::Sql(s1)) => {
                    &&& r is Ok ==> r->Ok_0 == 1usize && (exists|id: u64, row: TaskRow|
                        !s0.model().dom().contains(id) && row_stores_task(row, task) && s1.model()
                            == s0.model().insert(id, row))
                    &&& r is Err ==> s1.model() == s0.model()
                },
                (Datasource::Memory(m0), Datasource::Memory(m1)) => {
                    &&& m0.next_id < u64::MAX ==> r == Ok::<usize, Error>(1usize) && m1.tasks@
                        == m0.tasks@.push(stored_task(task, m0.next_id)) && m1.next_id
                        == m0.next_id + 1
                    &&& m0.next_id == u64::MAX ==> r is Err && m1 == m0
                },
                _ => false,
            },
    {
        match &mut self.source {
            Datasource::Sql(ds) => ds.write_task(task),
            Datasource::Memory(ds) => ds.write_task(task),
        }
    }

    /// Hard-deletes a task by id; a missing id is a zero row count. The
    /// caller, not this layer, asks for confirmation.
    pub fn remove(&mut self, id: u64) -> (r: Result<usize, Error>)
        requires
            old(self).inv(),
        ensures
            final(self).inv(),
            match (old(self).source, final(self).source) {
                (Datasource::Sql(s0), Datasource::Sql(s1)) => {
                    &&& r is Ok ==> s1.model() == s0.model().remove(id) && r->Ok_0 == (
                    if s0.model().dom().contains(id) {
                        1usize
                    } else {
                        0usize
                    })
                    &&& r is Err ==> s1.model() == s0.model()
                },
                (Datasource::Memory(m0), Datasource::Memory(m1)) => {
                    &&& m1.next_id == m0.next_id
                    &&& !m0.has_id(id) ==> r == Ok::<usize, Error>(0usize) && m1.tasks@
                        == m0.tasks@
                    &&& m0.has_id(id) ==> r == Ok::<usize, Error>(1usize) && (exists|ix: int|
                        0 <= ix < m0.tasks@.len() && m0.tasks@[ix].id == Some(id) && m1.tasks@
                            == m0.tasks@.remove(ix))
                },
                _ => false,
            },
    {
        match &mut self.source {
            Datasource::Sql(ds) => ds.remove(id),
            Datasource::Memory(ds) => ds.remove(id),
        }
    }

    /// Full-record rewrite of the task at `id`; the status carried by
    /// `task` is what persists. No legality check is made on the
    /// transition: any status may replace any other.
    pub fn set_status(&mut self, id: u64, task: Task) -> (r: Result<usize, Error>)
        requires
            old(self).inv(),
        ensures
            final(self).inv(),
            match (old(self).source, final(self).source) {
                (Datasource::Sql(s0), Datasource::Sql(s1)) => {
                    &&& r is Ok ==> ({
                        let m0 = s0.model();
                        let m1 = s1.model();
                        if m0.dom().contains(id) {
                            r->Ok_0 == 1usize && (exists|row: TaskRow|
                                m1 == m0.insert(id, row) && row.short == task.short && row.desc
                                    == task.desc && row.status@ == crate::task::status_str(
                                    task.status,
                                ) && row.created == task.created && row.started == task.started
                                    && row.prio == m0[id].prio)
                        } else {
                            r->Ok_0 == 0usize && m1 == m0
                        }
                    })
                    &&& r is Err ==> s1.model() == s0.model()
                },
                (Datasource::Memory(m0), Datasource::Memory(m1)) => {
                    &&& m1.next_id == m0.next_id
                    &&& !m0.has_id(id) ==> r == Ok::<usize, Error>(0usize) && m1.tasks@
                        == m0.tasks@
                    &&& m0.has_id(id) ==> r == Ok::<usize, Error>(1usize) && (exists|ix: int|
                        0 <= ix < m0.tasks@.len() && m0.tasks@[ix].id == Some(id) && m1.tasks@
                            == m0.tasks@.update(ix, updated_task(m0.tasks@[ix], task)))
                },
                _ => false,
            },
    {
        match &mut self.source {
            Datasource::Sql(ds) => ds.update_task(id, task),
            Datasource::Memory(ds) => ds.update_task(id, task),
        }
    }

    /// Looks up one task by id; a missing id is `TaskNotFound`.
    pub fn get_task(&mut self, id: u64) -> (r: Result<Task, Error>)
        requires
            old(self).inv(),
        ensures
            *final(self) == *old(self),
            match old(self).source {
                Datasource::Sql(s) => {
                    &&& r is Ok ==> s.model().dom().contains(id) && crate::sqllite::task_of_row_spec(
                        id,
                        s.model()[id],
                    ) == Some(r->Ok_0)
                    &&& r == Err::<Task, Error>(Error::TaskNotFound) ==> !s.model().dom().contains(
                        id,
                    )
                    &&& !s.model().dom().contains(id) ==> r is Err
                },
                Datasource::Memory(m) => {
                    &&& (r is Ok) == m.has_id(id)
                    &&& forall|i: int|
                        0 <= i < m.tasks@.len() && m.tasks@[i].id == Some(id) ==> r == Ok::<
                            Task,
                            Error,
                        >(m.tasks@[i])
                    &&& (r is Err) ==> r == Err::<Task, Error>(Error::TaskNotFound)
                },
            },
    {
        match &self.source {
            Datasource::Sql(ds) => ds.get(id),
            Datasource::Memory(ds) => ds.get(id),
        }
    }

    /// Sorts a fetched listing by ascending priority rank, stably: one
    /// pass per rank, appending that rank's tasks in fetch order.
    fn sort(&self, list: &mut Vec<Task>)
        ensures
            final(list)@ == sort_spec(old(list)@),
    {
        let n = list.len();
        let mut out: Vec<Task> = Vec::new();
        let mut k: u8 = 1;
        while k <= 7
            invariant
                1 <= k <= 8,
                n == list@.len(),
                *list == *old(list),
                out@ == sort_prefix(list@, k - 1),
            decreases 8 - k,
        {
            let mut i: usize = 0;
            while i < n
                invariant
                    i <= n,
                    1 <= k <= 7,
                    n == list@.len(),
                    *list == *old(list),
                    out@ == sort_prefix(list@, k - 1) + list@.subrange(0, i as int).filter(
                        rank_is(k),
                    ),
                decreases n - i,
            {
                proof {
                    lemma_filter_subrange_step(list@, rank_is(k), i as int);
                }
                if list[i].prio.get_ordering_value() == k {
                    out.push(list[i].clone());
                }
                i += 1;
            }
            proof {
                assert(list@.subrange(0, n as int) =~= list@);
            }
            k += 1;
        }
        *list = out;
    }

    /// Fetches every task passing the filter and answers them sorted by
    /// ascending priority rank, stably. Rendering is the caller's side.
    pub fn list(&mut self, filter: &Option<(FilterOptions, String)>) -> (r: Result<Vec<Task>, Error>)
        requires
            old(self).inv(),
        ensures
            *final(self) == *old(self),
            match old(self).source {
                Datasource::Sql(s) => r is Ok ==> (exists|v: Seq<(u64, TaskRow)>|
                    rows_of_model(s.model(), v) && all_rows_parse(v) && r->Ok_0@ == sort_spec(
                        tasks_of_rows(v, *filter),
                    )),
                Datasource::Memory(m) => r is Ok && r->Ok_0@ == sort_spec(
                    m.tasks@.filter(filter_pred(*filter)),
                ),
            },
    {
        let mut tasks: Vec<Task> = Vec::new();
        let fetched = match &self.source {
            Datasource::Sql(ds) => ds.list(&mut tasks, filter),
            Datasource::Memory(ds) => ds.list(&mut tasks, filter),
        };
        match fetched {
            Ok(u) => u,
            Err(e) => {
                return Err(e);
            },
        };
        proof {
            match &self.source {
                Datasource::Sql(s) => {
                    let v = choose|v: Seq<(u64, TaskRow)>|
                        rows_of_model(s.model(), v) && all_rows_parse(v) && tasks@ == Seq::<
                            Task,
                        >::empty() + tasks_of_rows(v, *filter);
                    assert(Seq::<Task>::empty() + tasks_of_rows(v, *filter) =~= tasks_of_rows(
                        v,
                        *filter,
                    ));
                },
                Datasource::Memory(m) => {
                    assert(Seq::<Task>::empty() + m.tasks@.filter(filter_pred(*filter))
                        =~= m.tasks@.filter(filter_pred(*filter)));
                },
            }
        }
        self.sort(&mut tasks);
        Ok(tasks)
    }

    /// Renders a fetched listing as display lines: a framed caption, the
    /// column header, and one fixed-width line per task, in the listing's
    /// order. Every fetched task carries an id.
    pub fn print_task_list(&self, tasks: &Vec<Task>) -> (r: Vec<String>)
        requires
            forall|i: int| 0 <= i < tasks@.len() ==> (#[trigger] tasks@[i]).id is Some,
        ensures
            r@.len() == 5 + tasks@.len(),
            r@[0]@ == repeat_char('=', 80),
            r@[1]@ == "Current task list"@,
            r@[2]@ == repeat_char('-', 80),
            r@[3]@ == header_line(),
            r@[4]@ == repeat_char('-', 80),
            forall|i: int| 0 <= i < tasks@.len() ==> r@[5 + i]@ == task_line(#[trigger] tasks@[i]),
    {
        proof {
            reveal_strlit("=");
            reveal_strlit("-");
        }
        let mut lines: Vec<String> = Vec::new();
        lines.push(repeat_str("=", 80));
        lines.push(String::from_str("Current task list"));
        lines.push(repeat_str("-", 80));
        let mut header = String::from_str("| id | ");
        header.append(pad_trunc("task", 30).as_str());
        header.append(" | ");
        header.append(pad_trunc("priority", 25).as_str());
        header.append(" | ");
        header.append(pad_trunc("status", 20).as_str());
        header.append(" | description");
        lines.push(header);
        lines.push(repeat_str("-", 80));
        let n = tasks.len();
        let mut i: usize = 0;
        while i < n
            invariant
                i <= n,
                n == tasks@.len(),
                forall|j: int| 0 <= j < tasks@.len() ==> (#[trigger] tasks@[j]).id is Some,
                lines@.len() == 5 + i,
                lines@[0]@ == repeat_char('=', 80),
                lines@[1]@ == "Current task list"@,
                lines@[2]@ == repeat_char('-', 80),
                lines@[3]@ == header_line(),
                lines@[4]@ == repeat_char('-', 80),
                forall|j: int| 0 <= j < i ==> lines@[5 + j]@ == task_line(#[trigger] tasks@[j]),
            decreases n - i,
        {
            lines.push(render_task_line(&tasks[i]));
            i += 1;
        }
        lines
    }

    /// Fetches one task and renders its detail view; a missing id is
    /// `TaskNotFound`.
    pub fn show(&self, id: u64) -> (r: Result<Vec<String>, Error>)
        requires
            self.inv(),
        ensures
            match self.source {
                Datasource::Sql(s) => {
                    &&& r is Ok ==> s.model().dom().contains(id) && crate::sqllite::task_of_row_spec(
                        id,
                        s.model()[id],
                    ) is Some && detail_lines(
                        r->Ok_0@,
                        crate::sqllite::task_of_row_spec(id, s.model()[id])->0,
                    )
                    &&& !s.model().dom().contains(id) ==> r is Err
                },
                Datasource::Memory(m) => {
                    &&& r is Ok ==> (exists|i: int|
                        0 <= i < m.tasks@.len() && (#[trigger] m.tasks@[i]).id == Some(id)
                            && detail_lines(r->Ok_0@, m.tasks@[i]))
                    &&& (r is Ok) == m.has_id(id)
                },
            },
    {
        let task = {
            let fetched = match &self.source {
                Datasource::Sql(ds) => ds.get(id),
                Datasource::Memory(ds) => ds.get(id),
            };
            match fetched {
                Ok(t) => t,
                Err(e) => {
                    return Err(e);
                },
            }
        };
        let tid = match task.id {
            Some(i) => i,
            None => 0,
        };
        proof {
            reveal_strlit("=");
            reveal_strlit("-");
        }
        let mut lines: Vec<String> = Vec::new();
        lines.push(repeat_str("=", 80));
        let mut cap = String::from_str(" Show info for task: ");
        cap.append(u64_to_string(tid).as_str());
        lines.push(cap);
        lines.push(repeat_str("-", 80));
        let mut l_id = String::from_str(" ID: ");
        l_id.append(u64_to_string(tid).as_str());
        lines.push(l_id);
        let mut l_short = String::from_str(" Task: ");
        l_short.append(task.short.as_str());
        lines.push(l_short);
        let mut l_desc = String::from_str(" Description: ");
        l_desc.append(task.desc.as_str());
        lines.push(l_desc);
        let mut l_prio = String::from_str(" Priority: ");
        l_prio.append(task.prio.to_string().as_str());
        lines.push(l_prio);
        let mut l_status = String::from_str(" Status: ");
        l_status.append(task.status.to_string().as_str());
        lines.push(l_status);
        proof {
            match &self.source {
                Datasource::Sql(s) => {
                    assert(s.model().dom().contains(id) && crate::sqllite::task_of_row_spec(
                        id,
                        s.model()[id],
                    ) == Some(task) && detail_lines(lines@, task));
                },
                Datasource::Memory(m) => {
                    let i = choose|i: int|
                        0 <= i < m.tasks@.len() && m.tasks@[i].id == Some(id);
                    assert(m.tasks@[i].id == Some(id));
                    assert(task == m.tasks@[i]);
                    assert(detail_lines(lines@, m.tasks@[i]));
                },
            }
        }
        Ok(lines)
    }
}

} // verus!
