//! The task entity: lifecycle status, priority class, and the record itself.
//!
//! Status and priority are persisted by their canonical display strings, so
//! the mapping between variant and string is part of the storage format and
//! is pinned down here by `status_str` / `prio_str` and proved invertible.

use vstd::prelude::*;

verus! {

/// Returned when a string names no task status or priority.
#[derive(Debug)]
pub struct NoSuchStatusError {}

/// Lifecycle state of a task. Any status may be set to any other through the
/// update path: transition legality is a UI concern, not a storage invariant.
#[derive(Debug, Clone, Copy, PartialEq, Eq, Structural)]
pub enum TaskStatus {
    Created,
    Started,
    Completed,
    WontDo,
    Archived,
    Deleted,
}

/// Priority class, totally ordered by `prio_rank` (1 sorts first).
#[derive(Debug, Clone, Copy, PartialEq, Eq, Structural)]
pub enum TaskPriority {
    UrgentAndImportant,
    UrgentNotImportant,
    ImportantNotUrgent,
    ToDo,
    Watch,
    NiceToDo,
    SomeDay,
}

/// Timestamps are carried as their textual form, exactly as the stores
/// persist them.
pub type Timestamp = String;

/// The canonical display string of a status, as persisted.
pub open spec fn status_str(st: TaskStatus) -> Seq<char> {
    match st {
        TaskStatus::Created => "Created"@,
        TaskStatus::Started => "Started"@,
        TaskStatus::Completed => "Completed"@,
        TaskStatus::WontDo => "WontDo"@,
        TaskStatus::Archived => "Archived"@,
        TaskStatus::Deleted => "Deleted"@,
    }
}

/// The status a string names, if any.
pub open spec fn status_of_str(s: Seq<char>) -> Option<TaskStatus> {
    if s == "Created"@ {
        Some(TaskStatus::Created)
    } else if s == "Started"@ {
        Some(TaskStatus::Started)
    } else if s == "Completed"@ {
        Some(TaskStatus::Completed)
    } else if s == "WontDo"@ {
        Some(TaskStatus::WontDo)
    } else if s == "Archived"@ {
        Some(TaskStatus::Archived)
    } else if s == "Deleted"@ {
        Some(TaskStatus::Deleted)
    } else {
        None
    }
}

/// The rank a priority sorts by: 1 is the highest priority.
pub open spec fn prio_rank(p: TaskPriority) -> u8 {
    match p {
        TaskPriority::UrgentAndImportant => 1,
        TaskPriority::UrgentNotImportant => 2,
        TaskPriority::ImportantNotUrgent => 3,
        TaskPriority::ToDo => 4,
        TaskPriority::Watch => 5,
        TaskPriority::NiceToDo => 6,
        TaskPriority::SomeDay => 7,
    }
}

/// The canonical display string of a priority, as persisted.
pub open spec fn prio_str(p: TaskPriority) -> Seq<char> {
    match p {
        TaskPriority::UrgentAndImportant => "Urgent AND Important"@,
        TaskPriority::UrgentNotImportant => "Urgent NOT Important"@,
        TaskPriority::ImportantNotUrgent => "Important Not Urgent"@,
        TaskPriority::ToDo => "To Do"@,
        TaskPriority::Watch => "Watch"@,
        TaskPriority::NiceToDo => "Nice To Do"@,
        TaskPriority::SomeDay => "Some Day"@,
    }
}

/// The priority a string names, if any.
pub open spec fn prio_of_str(s: Seq<char>) -> Option<TaskPriority> {
    if s == "Urgent AND Important"@ {
        Some(TaskPriority::UrgentAndImportant)
    } else if s == "Urgent NOT Important"@ {
        Some(TaskPriority::UrgentNotImportant)
    } else if s == "Important Not Urgent"@ {
        Some(TaskPriority::ImportantNotUrgent)
    } else if s == "To Do"@ {
        Some(TaskPriority::ToDo)
    } else if s == "Watch"@ {
        Some(TaskPriority::Watch)
    } else if s == "Nice To Do"@ {
        Some(TaskPriority::NiceToDo)
    } else if s == "Some Day"@ {
        Some(TaskPriority::SomeDay)
    } else {
        None
    }
}

/// String equality over the character views.
pub(crate) fn str_eq(a: &str, b: &str) -> (r: bool)
    ensures
        r == (a@ == b@),
{
    let x = a.to_owned();
    let y = b.to_owned();
    x == y
}

impl TaskStatus {
    /// The canonical display string; also the form stored in a backend.
    pub fn to_string(&self) -> (r: String)
        ensures
            r@ == status_str(*self),
    {
        match self {
            TaskStatus::Created => String::from_str("Created"),
            TaskStatus::Started => String::from_str("Started"),
            TaskStatus::Completed => String::from_str("Completed"),
            TaskStatus::WontDo => String::from_str("WontDo"),
            TaskStatus::Archived => String::from_str("Archived"),
            TaskStatus::Deleted => String::from_str("Deleted"),
        }
    }

    /// Parses a canonical display string back into a status.
    pub fn from_str(s: &str) -> (r: Result<TaskStatus, NoSuchStatusError>)
        ensures
            match status_of_str(s@) {
                Some(st) => r == Ok::<TaskStatus, NoSuchStatusError>(st),
                None => r is Err,
            },
    {
        if str_eq(s, "Created") {
            Ok(TaskStatus::Created)
        } else if str_eq(s, "Started") {
            Ok(TaskStatus::Started)
        } else if str_eq(s, "Completed") {
            Ok(TaskStatus::Completed)
        } else if str_eq(s, "WontDo") {
            Ok(TaskStatus::WontDo)
        } else if str_eq(s, "Archived") {
            Ok(TaskStatus::Archived)
        } else if str_eq(s, "Deleted") {
            Ok(TaskStatus::Deleted)
        } else {
            Err(NoSuchStatusError {})
        }
    }

    /// Every status, in declaration order.
    pub fn all() -> (r: Vec<TaskStatus>)
        ensures
            r@ == seq![
                TaskStatus::Created,
                TaskStatus::Started,
                TaskStatus::Completed,
                TaskStatus::WontDo,
                TaskStatus::Archived,
                TaskStatus::Deleted,
            ],
    {
        let mut v: Vec<TaskStatus> = Vec::new();
        v.push(TaskStatus::Created);
        v.push(TaskStatus::Started);
        v.push(TaskStatus::Completed);
        v.push(TaskStatus::WontDo);
        v.push(TaskStatus::Archived);
        v.push(TaskStatus::Deleted);
        proof {
            assert(v@ =~= seq![
                TaskStatus::Created,
                TaskStatus::Started,
                TaskStatus::Completed,
                TaskStatus::WontDo,
                TaskStatus::Archived,
                TaskStatus::Deleted,
            ]);
        }
        v
    }
}

impl TaskPriority {
    /// The rank this priority sorts by: 1 is the highest priority.
    pub fn get_ordering_value(&self) -> (r: u8)
        ensures
            r == prio_rank(*self),
    {
        match self {
            TaskPriority::UrgentAndImportant => 1,
            TaskPriority::UrgentNotImportant => 2,
            TaskPriority::ImportantNotUrgent => 3,
            TaskPriority::ToDo => 4,
            TaskPriority::Watch => 5,
            TaskPriority::NiceToDo => 6,
            TaskPriority::SomeDay => 7,
        }
    }

    /// The canonical display string; also the form stored in a backend.
    pub fn to_string(&self) -> (r: String)
        ensures
            r@ == prio_str(*self),
    {
        match self {
            TaskPriority::UrgentAndImportant => String::from_str("Urgent AND Important"),
            TaskPriority::UrgentNotImportant => String::from_str("Urgent NOT Important"),
            TaskPriority::ImportantNotUrgent => String::from_str("Important Not Urgent"),
            TaskPriority::ToDo => String::from_str("To Do"),
            TaskPriority::Watch => String::from_str("Watch"),
            TaskPriority::NiceToDo => String::from_str("Nice To Do"),
            TaskPriority::SomeDay => String::from_str("Some Day"),
        }
    }

    /// Parses a canonical display string back into a priority.
    pub fn from_str(s: &str) -> (r: Result<TaskPriority, NoSuchStatusError>)
        ensures
            match prio_of_str(s@) {
                Some(p) => r == Ok::<TaskPriority, NoSuchStatusError>(p),
                None => r is Err,
            },
    {
        if str_eq(s, "Urgent AND Important") {
            Ok(TaskPriority::UrgentAndImportant)
        } else if str_eq(s, "Urgent NOT Important") {
            Ok(TaskPriority::UrgentNotImportant)
        } else if str_eq(s, "Important Not Urgent") {
            Ok(TaskPriority::ImportantNotUrgent)
        } else if str_eq(s, "To Do") {
            Ok(TaskPriority::ToDo)
        } else if str_eq(s, "Watch") {
            Ok(TaskPriority::Watch)
        } else if str_eq(s, "Nice To Do") {
            Ok(TaskPriority::NiceToDo)
        } else if str_eq(s, "Some Day") {
            Ok(TaskPriority::SomeDay)
        } else {
            Err(NoSuchStatusError {})
        }
    }

    /// Every priority, in declaration order (which is also rank order).
    pub fn all() -> (r: Vec<TaskPriority>)
        ensures
            r@ == seq![
                TaskPriority::UrgentAndImportant,
                TaskPriority::UrgentNotImportant,
                TaskPriority::ImportantNotUrgent,
                TaskPriority::ToDo,
                TaskPriority::Watch,
                TaskPriority::NiceToDo,
                TaskPriority::SomeDay,
            ],
    {
        let mut v: Vec<TaskPriority> = Vec::new();
        v.push(TaskPriority::UrgentAndImportant);
        v.push(TaskPriority::UrgentNotImportant);
        v.push(TaskPriority::ImportantNotUrgent);
        v.push(TaskPriority::ToDo);
        v.push(TaskPriority::Watch);
        v.push(TaskPriority::NiceToDo);
        v.push(TaskPriority::SomeDay);
        proof {
            assert(v@ =~= seq![
                TaskPriority::UrgentAndImportant,
                TaskPriority::UrgentNotImportant,
                TaskPriority::ImportantNotUrgent,
                TaskPriority::ToDo,
                TaskPriority::Watch,
                TaskPriority::NiceToDo,
                TaskPriority::SomeDay,
            ]);
        }
        v
    }
}

/// Writing a status string and parsing it back yields the same status.
pub proof fn lemma_status_str_roundtrip(st: TaskStatus)
    ensures
        status_of_str(status_str(st)) == Some(st),
{
    reveal_strlit("Created");
    reveal_strlit("Started");
    reveal_strlit("Completed");
    reveal_strlit("WontDo");
    reveal_strlit("Archived");
    reveal_strlit("Deleted");
    // Each equality test on the way to a variant's own literal must fail;
    // where two literals share a length, point at a differing character.
    assert(!("Started"@ =~= "Created"@)) by { assert("Started"@[0] != "Created"@[0]); }
    assert(!("Completed"@ =~= "Created"@));
    assert(!("Completed"@ =~= "Started"@));
    assert(!("WontDo"@ =~= "Created"@));
    assert(!("WontDo"@ =~= "Started"@));
    assert(!("WontDo"@ =~= "Completed"@));
    assert(!("Archived"@ =~= "Created"@));
    assert(!("Archived"@ =~= "Started"@));
    assert(!("Archived"@ =~= "Completed"@));
    assert(!("Archived"@ =~= "WontDo"@));
    assert(!("Deleted"@ =~= "Created"@)) by { assert("Deleted"@[0] != "Created"@[0]); }
    assert(!("Deleted"@ =~= "Started"@)) by { assert("Deleted"@[0] != "Started"@[0]); }
    assert(!("Deleted"@ =~= "Completed"@));
    assert(!("Deleted"@ =~= "WontDo"@));
    assert(!("Deleted"@ =~= "Archived"@));
    match st {
        TaskStatus::Created => assert(status_of_str(status_str(st)) == Some(st)),
        TaskStatus::Started => assert(status_of_str(status_str(st)) == Some(st)),
        TaskStatus::Completed => assert(status_of_str(status_str(st)) == Some(st)),
        TaskStatus::WontDo => assert(status_of_str(status_str(st)) == Some(st)),
        TaskStatus::Archived => assert(status_of_str(status_str(st)) == Some(st)),
        TaskStatus::Deleted => assert(status_of_str(status_str(st)) == Some(st)),
    }
}

/// Writing a priority string and parsing it back yields the same priority.
pub proof fn lemma_prio_str_roundtrip(p: TaskPriority)
    ensures
        prio_of_str(prio_str(p)) == Some(p),
{
    reveal_strlit("Urgent AND Important");
    reveal_strlit("Urgent NOT Important");
    reveal_strlit("Important Not Urgent");
    reveal_strlit("To Do");
    reveal_strlit("Watch");
    reveal_strlit("Nice To Do");
    reveal_strlit("Some Day");
    // Each equality test on the way to a variant's own literal must fail;
    // where two literals share a length, point at a differing character.
    assert(!("Urgent NOT Important"@ =~= "Urgent AND Important"@)) by {
        assert("Urgent NOT Important"@[7] != "Urgent AND Important"@[7]);
    }
    assert(!("Important Not Urgent"@ =~= "Urgent AND Important"@)) by {
        assert("Important Not Urgent"@[0] != "Urgent AND Important"@[0]);
    }
    assert(!("Important Not Urgent"@ =~= "Urgent NOT Important"@)) by {
        assert("Important Not Urgent"@[0] != "Urgent NOT Important"@[0]);
    }
    assert(!("To Do"@ =~= "Urgent AND Important"@));
    assert(!("To Do"@ =~= "Urgent NOT Important"@));
    assert(!("To Do"@ =~= "Important Not Urgent"@));
    assert(!("Watch"@ =~= "Urgent AND Important"@));
    assert(!("Watch"@ =~= "Urgent NOT Important"@));
    assert(!("Watch"@ =~= "Important Not Urgent"@));
    assert(!("Watch"@ =~= "To Do"@)) by { assert("Watch"@[0] != "To Do"@[0]); }
    assert(!("Nice To Do"@ =~= "Urgent AND Important"@));
    assert(!("Nice To Do"@ =~= "Urgent NOT Important"@));
    assert(!("Nice To Do"@ =~= "Important Not Urgent"@));
    assert(!("Nice To Do"@ =~= "To Do"@));
    assert(!("Nice To Do"@ =~= "Watch"@));
    assert(!("Some Day"@ =~= "Urgent AND Important"@));
    assert(!("Some Day"@ =~= "Urgent NOT Important"@));
    assert(!("Some Day"@ =~= "Important Not Urgent"@));
    assert(!("Some Day"@ =~= "To Do"@));
    assert(!("Some Day"@ =~= "Watch"@));
    assert(!("Some Day"@ =~= "Nice To Do"@));
    match p {
        TaskPriority::UrgentAndImportant => assert(prio_of_str(prio_str(p)) == Some(p)),
        TaskPriority::UrgentNotImportant => assert(prio_of_str(prio_str(p)) == Some(p)),
        TaskPriority::ImportantNotUrgent => assert(prio_of_str(prio_str(p)) == Some(p)),
        TaskPriority::ToDo => assert(prio_of_str(prio_str(p)) == Some(p)),
        TaskPriority::Watch => assert(prio_of_str(prio_str(p)) == Some(p)),
        TaskPriority::NiceToDo => assert(prio_of_str(prio_str(p)) == Some(p)),
        TaskPriority::SomeDay => assert(prio_of_str(prio_str(p)) == Some(p)),
    }
}

/// The record being managed. `id` is absent until the record has been
/// written to a store; records read back from a store always carry one.
#[derive(Debug)]
pub struct Task {
    pub id: Option<u64>,
    pub short: String,
    pub desc: String,
    pub created: Timestamp,
    pub started: Option<Timestamp>,
    pub status: TaskStatus,
    pub prio: TaskPriority,
}

impl Clone for Task {
    fn clone(&self) -> (r: Self)
        ensures
            r == *self,
    {
        Task {
            id: self.id,
            short: self.short.clone(),
            desc: self.desc.clone(),
            created: self.created.clone(),
            started: match &self.started {
                Some(t) => Some(t.clone()),
                None => None,
            },
            status: self.status,
            prio: self.prio,
        }
    }
}

/// Relies on `chrono::Utc::now` and `DateTime::to_rfc3339` for the creation
/// timestamp; nothing is assumed about the value.
#[verifier::external_body]
fn now_timestamp() -> (r: String) {
    chrono::Utc::now().to_rfc3339()
}

impl Task {
    /// A fresh record: no id yet, status `Created`, creation time set now.
    pub fn new(short: String, desc: String, prio: TaskPriority) -> (r: Task)
        ensures
            r.id is None,
            r.short == short,
            r.desc == desc,
            r.started is None,
            r.status == TaskStatus::Created,
            r.prio == prio,
    {
        Task {
            short,
            desc,
            created: now_timestamp(),
            id: None,
            started: None,
            status: TaskStatus::Created,
            prio,
        }
    }
}

} // verus!
