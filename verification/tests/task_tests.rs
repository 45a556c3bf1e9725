use myprio::task::{Task, TaskPriority, TaskStatus};

#[test]
fn status_display_strings() {
    assert_eq!(TaskStatus::Created.to_string(), "Created");
    assert_eq!(TaskStatus::Started.to_string(), "Started");
    assert_eq!(TaskStatus::Completed.to_string(), "Completed");
    assert_eq!(TaskStatus::WontDo.to_string(), "WontDo");
    assert_eq!(TaskStatus::Archived.to_string(), "Archived");
    assert_eq!(TaskStatus::Deleted.to_string(), "Deleted");
}

#[test]
fn status_parse() {
    assert_eq!(TaskStatus::from_str("Created").unwrap(), TaskStatus::Created);
    assert_eq!(TaskStatus::from_str("WontDo").unwrap(), TaskStatus::WontDo);
    assert!(TaskStatus::from_str("wontdo").is_err());
    assert!(TaskStatus::from_str("").is_err());
    assert!(TaskStatus::from_str("NoSuchStatus").is_err());
}

#[test]
fn status_round_trip() {
    for st in TaskStatus::all() {
        let s = st.to_string();
        assert_eq!(TaskStatus::from_str(&s).unwrap(), st);
    }
}

#[test]
fn priority_display_strings() {
    assert_eq!(
        TaskPriority::UrgentAndImportant.to_string(),
        "Urgent AND Important"
    );
    assert_eq!(
        TaskPriority::UrgentNotImportant.to_string(),
        "Urgent NOT Important"
    );
    assert_eq!(
        TaskPriority::ImportantNotUrgent.to_string(),
        "Important Not Urgent"
    );
    assert_eq!(TaskPriority::ToDo.to_string(), "To Do");
    assert_eq!(TaskPriority::Watch.to_string(), "Watch");
    assert_eq!(TaskPriority::NiceToDo.to_string(), "Nice To Do");
    assert_eq!(TaskPriority::SomeDay.to_string(), "Some Day");
}

#[test]
fn priority_parse() {
    assert_eq!(
        TaskPriority::from_str("Urgent AND Important").unwrap(),
        TaskPriority::UrgentAndImportant
    );
    assert_eq!(
        TaskPriority::from_str("Some Day").unwrap(),
        TaskPriority::SomeDay
    );
    assert!(TaskPriority::from_str("Urgent and Important").is_err());
    assert!(TaskPriority::from_str("").is_err());
}

#[test]
fn priority_round_trip() {
    for p in TaskPriority::all() {
        let s = p.to_string();
        assert_eq!(TaskPriority::from_str(&s).unwrap(), p);
    }
}

#[test]
fn priority_ordering_values() {
    assert_eq!(TaskPriority::UrgentAndImportant.get_ordering_value(), 1);
    assert_eq!(TaskPriority::UrgentNotImportant.get_ordering_value(), 2);
    assert_eq!(TaskPriority::ImportantNotUrgent.get_ordering_value(), 3);
    assert_eq!(TaskPriority::ToDo.get_ordering_value(), 4);
    assert_eq!(TaskPriority::Watch.get_ordering_value(), 5);
    assert_eq!(TaskPriority::NiceToDo.get_ordering_value(), 6);
    assert_eq!(TaskPriority::SomeDay.get_ordering_value(), 7);
}

#[test]
fn new_task_fields() {
    let t = Task::new(
        "name".to_string(),
        "something to do".to_string(),
        TaskPriority::Watch,
    );
    assert_eq!(t.id, None);
    assert_eq!(t.short, "name");
    assert_eq!(t.desc, "something to do");
    assert_eq!(t.started, None);
    assert!(matches!(t.status, TaskStatus::Created));
    assert_eq!(t.prio, TaskPriority::Watch);
}
