//! The in-memory store: a sequence of tasks with synthetic ids, handled
//! exactly like a single-table store keyed by id.
//!
//! Ids are assigned from a counter that never goes back, so an id is never
//! reused within a session even after a removal.

use vstd::prelude::*;

verus! {

use crate::app::{filter_pred, matches_filter, FilterOptions};
use crate::error::Error;
use crate::seq_ext::lemma_filter_subrange_step;
use crate::task::Task;

/// Settings for the in-memory store; it needs none yet.
pub struct MemorySettings {}

/// The record a store holds after assigning `id` to a newly written task.
pub open spec fn stored_task(t: Task, id: u64) -> Task {
    Task { id: Some(id), ..t }
}

/// The record left at an id after a full-record update: everything is taken
/// from the new task except the id and the priority, which the update path
/// does not touch.
pub open spec fn updated_task(orig: Task, t: Task) -> Task {
    Task { id: orig.id, prio: orig.prio, ..t }
}

/// A task-store backend held entirely in process memory.
pub struct MemoryDataSource {
    pub tasks: Vec<Task>,
    pub next_id: u64,
}

impl MemoryDataSource {
    /// There is a record with the given id.
    pub open spec fn has_id(&self, id: u64) -> bool {
        exists|i: int| 0 <= i < self.tasks@.len() && self.tasks@[i].id == Some(id)
    }

    /// Every record carries an id, the ids are strictly increasing in
    /// insertion order, and all of them lie below `next_id`.
    pub open spec fn inv(&self) -> bool {
        &&& self.next_id >= 1
        &&& forall|i: int|
            #![trigger self.tasks@[i]]
            0 <= i < self.tasks@.len() ==> self.tasks@[i].id is Some && (self.tasks@[i].id)->0
                < self.next_id
        &&& forall|i: int, j: int|
            #![trigger self.tasks@[i], self.tasks@[j]]
            0 <= i < j < self.tasks@.len() ==> (self.tasks@[i].id)->0 < (self.tasks@[j].id)->0
    }

    /// A fresh, empty store whose first assigned id will be 1.
    pub fn new() -> (r: Result<MemoryDataSource, Error>)
        ensures
            r is Ok,
            r->Ok_0.inv(),
            r->Ok_0.tasks@ == Seq::<Task>::empty(),
            r->Ok_0.next_id == 1,
    {
        let v: Vec<Task> = Vec::new();
        proof {
            assert(v@ =~= Seq::<Task>::empty());
        }
        Ok(MemoryDataSource { tasks: v, next_id: 1 })
    }

    /// Nothing to prepare: the store is ready as soon as it exists.
    pub fn start(&self) -> (r: Result<(), Error>)
        ensures
            r is Ok,
    {
        Ok(())
    }

    /// Nothing to flush: the store lives and dies with the process.
    pub fn stop(&self) -> (r: Result<bool, Error>)
        ensures
            r == Ok::<bool, Error>(true),
    {
        Ok(true)
    }

    /// Appends a record under a fresh id; the task's own `id` field is
    /// ignored on input. Fails only when the id space is exhausted.
    pub fn write_task(&mut self, task: Task) -> (r: Result<usize, Error>)
        requires
            old(self).inv(),
        ensures
            final(self).inv(),
            old(self).next_id < u64::MAX ==> {
                &&& r == Ok::<usize, Error>(1usize)
                &&& final(self).tasks@ == old(self).tasks@.push(
                    stored_task(task, old(self).next_id),
                )
                &&& final(self).next_id == old(self).next_id + 1
            },
            old(self).next_id == u64::MAX ==> r is Err && *final(self) == *old(self),
    {
        if self.next_id == u64::MAX {
            return Err(Error::IOError(String::from_str("task id space exhausted")));
        }
        let id = self.next_id;
        let mut t = task;
        t.id = Some(id);
        self.tasks.push(t);
        self.next_id = id + 1;
        Ok(1)
    }

    /// Hard-deletes the record with the given id. A missing id is a zero
    /// row count, not an error, and leaves the store untouched; calling
    /// again for the same id therefore answers zero again.
    pub fn remove(&mut self, id: u64) -> (r: Result<usize, Error>)
        requires
            old(self).inv(),
        ensures
            final(self).inv(),
            final(self).next_id == old(self).next_id,
            !old(self).has_id(id) ==> r == Ok::<usize, Error>(0usize) && final(self).tasks@
                == old(self).tasks@,
            old(self).has_id(id) ==> r == Ok::<usize, Error>(1usize) && (exists|ix: int|
                0 <= ix < old(self).tasks@.len() && old(self).tasks@[ix].id == Some(id) && final(self).tasks@ == old(self).tasks@.remove(ix)),
    {
        let n = self.tasks.len();
        let mut i: usize = 0;
        while i < n
            invariant
                i <= n,
                n == self.tasks@.len(),
                *self == *old(self),
                self.inv(),
                forall|j: int| 0 <= j < i ==> self.tasks@[j].id != Some(id),
            decreases n - i,
        {
            let matches_id = match self.tasks[i].id {
                Some(x) => x == id,
                None => false,
            };
            if matches_id {
                self.tasks.remove(i);
                proof {
                    let s0 = old(self).tasks@;
                    let s1 = self.tasks@;
                    let ii = i as int;
                    assert(s1 == s0.subrange(0, ii) + s0.subrange(ii + 1, s0.len() as int));
                    assert forall|a: int| 0 <= a < s1.len() implies (#[trigger] s1[a]).id is Some
                        && (s1[a].id)->0 < self.next_id by {
                        let a0: int = if a < ii {
                            a
                        } else {
                            a + 1
                        };
                        assert(s1[a] == s0[a0]);
                    }
                    assert forall|a: int, b: int|
                        0 <= a < b < s1.len() implies ((#[trigger] s1[a]).id)->0 < ((
                    #[trigger] s1[b]).id)->0 by {
                        let a0: int = if a < ii {
                            a
                        } else {
                            a + 1
                        };
                        let b0: int = if b < ii {
                            b
                        } else {
                            b + 1
                        };
                        assert(s1[a] == s0[a0]);
                        assert(s1[b] == s0[b0]);
                    }
                }
                return Ok(1);
            }
            i += 1;
        }
        Ok(0)
    }

    /// Looks up the record with the given id; a missing id is `TaskNotFound`.
    pub fn get(&self, id: u64) -> (r: Result<Task, Error>)
        requires
            self.inv(),
        ensures
            (r is Ok) == self.has_id(id),
            forall|i: int|
                0 <= i < self.tasks@.len() && self.tasks@[i].id == Some(id) ==> r == Ok::<
                    Task,
                    Error,
                >(self.tasks@[i]),
            (r is Err) ==> r == Err::<Task, Error>(Error::TaskNotFound),
    {
        let n = self.tasks.len();
        let mut i: usize = 0;
        while i < n
            invariant
                i <= n,
                n == self.tasks@.len(),
                self.inv(),
                forall|j: int| 0 <= j < i ==> self.tasks@[j].id != Some(id),
            decreases n - i,
        {
            let matches_id = match self.tasks[i].id {
                Some(x) => x == id,
                None => false,
            };
            if matches_id {
                proof {
                    let s = self.tasks@;
                    assert forall|j: int|
                        0 <= j < s.len() && s[j].id == Some(id) implies s[j] == s[i as int] by {
                        if j < i as int {
                            assert((s[j].id)->0 < (s[i as int].id)->0);
                        } else if j > i as int {
                            assert((s[i as int].id)->0 < (s[j].id)->0);
                        }
                    }
                }
                return Ok(self.tasks[i].clone());
            }
            i += 1;
        }
        Err(Error::TaskNotFound)
    }

    /// Full-record overwrite of the record at `id`, keeping the id and the
    /// priority. A missing id is a zero row count, not an error.
    pub fn update_task(&mut self, id: u64, task: Task) -> (r: Result<usize, Error>)
        requires
            old(self).inv(),
        ensures
            final(self).inv(),
            final(self).next_id == old(self).next_id,
            !old(self).has_id(id) ==> r == Ok::<usize, Error>(0usize) && final(self).tasks@
                == old(self).tasks@,
            old(self).has_id(id) ==> r == Ok::<usize, Error>(1usize) && (exists|ix: int|
                0 <= ix < old(self).tasks@.len() && old(self).tasks@[ix].id == Some(id) && final(self).tasks@ == old(self).tasks@.update(ix, updated_task(old(self).tasks@[ix], task))),
    {
        let n = self.tasks.len();
        let mut i: usize = 0;
        while i < n
            invariant
                i <= n,
                n == self.tasks@.len(),
                *self == *old(self),
                self.inv(),
                forall|j: int| 0 <= j < i ==> self.tasks@[j].id != Some(id),
            decreases n - i,
        {
            let matches_id = match self.tasks[i].id {
                Some(x) => x == id,
                None => false,
            };
            if matches_id {
                let orig_id = self.tasks[i].id;
                let orig_prio = self.tasks[i].prio;
                let new_t = Task {
                    id: orig_id,
                    short: task.short,
                    desc: task.desc,
                    created: task.created,
                    started: task.started,
                    status: task.status,
                    prio: orig_prio,
                };
                *vstd::std_specs::vec::vec_index_mut(&mut self.tasks, i) = new_t;
                proof {
                    let s0 = old(self).tasks@;
                    let s1 = self.tasks@;
                    assert forall|j: int|
                        0 <= j < s1.len() implies (#[trigger] s1[j].id) == s0[j].id by {}
                }
                return Ok(1);
            }
            i += 1;
        }
        Ok(0)
    }

    /// Appends every record passing the filter to `tasks`, in insertion
    /// order. An empty result is not an error.
    pub fn list(&self, tasks: &mut Vec<Task>, filter: &Option<(FilterOptions, String)>) -> (r:
        Result<(), Error>)
        ensures
            r is Ok,
            final(tasks)@ == old(tasks)@ + self.tasks@.filter(filter_pred(*filter)),
    {
        let n = self.tasks.len();
        let mut i: usize = 0;
        while i < n
            invariant
                i <= n,
                n == self.tasks@.len(),
                tasks@ == old(tasks)@ + self.tasks@.subrange(0, i as int).filter(
                    filter_pred(*filter),
                ),
            decreases n - i,
        {
            proof {
                lemma_filter_subrange_step(self.tasks@, filter_pred(*filter), i as int);
            }
            if matches_filter(&self.tasks[i], filter) {
                tasks.push(self.tasks[i].clone());
            }
            i += 1;
        }
        proof {
            assert(self.tasks@.subrange(0, n as int) =~= self.tasks@);
        }
        Ok(())
    }
}

/// Law: round trip. After a write that assigned the fresh id, looking
/// that id up finds exactly the stored record, which equals the written
/// task in every field except `id`, now populated (`created` is carried
/// as given). Together with `write_task`'s and `get`'s contracts this
/// pins down what an add followed by a get of the fresh id returns.
pub proof fn lemma_write_then_get_round_trip(m: MemoryDataSource, m2: MemoryDataSource, t: Task)
    requires
        m.inv(),
        m.next_id < u64::MAX,
        m2.tasks@ == m.tasks@.push(stored_task(t, m.next_id)),
        m2.next_id == m.next_id + 1,
    ensures
        m2.has_id(m.next_id),
        forall|i: int|
            0 <= i < m2.tasks@.len() && (#[trigger] m2.tasks@[i]).id == Some(m.next_id)
                ==> m2.tasks@[i] == stored_task(t, m.next_id),
        stored_task(t, m.next_id).id == Some(m.next_id),
        stored_task(t, m.next_id).short == t.short,
        stored_task(t, m.next_id).desc == t.desc,
        stored_task(t, m.next_id).created == t.created,
        stored_task(t, m.next_id).started == t.started,
        stored_task(t, m.next_id).status == t.status,
        stored_task(t, m.next_id).prio == t.prio,
{
    let n = m2.tasks@.len();
    assert(m2.tasks@[n - 1] == stored_task(t, m.next_id));
    assert forall|i: int|
        0 <= i < n && (#[trigger] m2.tasks@[i]).id == Some(m.next_id) implies m2.tasks@[i]
        == stored_task(t, m.next_id) by {
        if i < n - 1 {
            assert(m2.tasks@[i] == m.tasks@[i]);
            assert((m.tasks@[i].id)->0 < m.next_id);
        }
    }
}

/// Law: a status change through the full-record rewrite persists the new
/// status: the record then found at the id carries the updated task's
/// status, while its priority is untouched by the rewrite. When the
/// caller hands the record's own name and description back — as the
/// status-change flow does — those are unchanged too. (A call that passes
/// a different name or description stores those instead, so the law asks
/// for them to be passed back unchanged.)
pub proof fn lemma_set_status_then_get(
    m: MemoryDataSource,
    m2: MemoryDataSource,
    id: u64,
    ix: int,
    t: Task,
)
    requires
        m.inv(),
        0 <= ix < m.tasks@.len(),
        m.tasks@[ix].id == Some(id),
        t.short == m.tasks@[ix].short,
        t.desc == m.tasks@[ix].desc,
        m2.tasks@ == m.tasks@.update(ix, updated_task(m.tasks@[ix], t)),
        m2.next_id == m.next_id,
    ensures
        m2.inv(),
        m2.has_id(id),
        forall|i: int|
            0 <= i < m2.tasks@.len() && (#[trigger] m2.tasks@[i]).id == Some(id) ==> m2.tasks@[i]
                == updated_task(m.tasks@[ix], t),
        updated_task(m.tasks@[ix], t).status == t.status,
        updated_task(m.tasks@[ix], t).prio == m.tasks@[ix].prio,
        updated_task(m.tasks@[ix], t).short == m.tasks@[ix].short,
        updated_task(m.tasks@[ix], t).desc == m.tasks@[ix].desc,
        updated_task(m.tasks@[ix], t).id == Some(id),
{
    let n = m2.tasks@.len();
    assert forall|i: int| 0 <= i < n implies (#[trigger] m2.tasks@[i]).id == m.tasks@[i].id by {
        if i != ix {
            assert(m2.tasks@[i] == m.tasks@[i]);
        }
    }
    assert(m2.tasks@[ix].id == Some(id));
    assert forall|i: int|
        0 <= i < n && (#[trigger] m2.tasks@[i]).id == Some(id) implies m2.tasks@[i]
        == updated_task(m.tasks@[ix], t) by {
        if i != ix {
            assert(m2.tasks@[i] == m.tasks@[i]);
            if i < ix {
                assert((m.tasks@[i].id)->0 < (m.tasks@[ix].id)->0);
            } else {
                assert((m.tasks@[ix].id)->0 < (m.tasks@[i].id)->0);
            }
        }
    }
    assert forall|i: int, j: int|
        0 <= i < j < n implies ((#[trigger] m2.tasks@[i]).id)->0 < ((#[trigger] m2.tasks@[j]).id)->0
         by {
        assert(m.tasks@[i].id == m2.tasks@[i].id && m.tasks@[j].id == m2.tasks@[j].id);
    }
}

} // verus!
