use myprio::app::FilterOptions;
use myprio::error::Error;
use myprio::memory::MemoryDataSource;
use myprio::task::{Task, TaskPriority, TaskStatus};

fn sample(short: &str, prio: TaskPriority) -> Task {
    Task::new(short.to_string(), format!("desc of {short}"), prio)
}

#[test]
fn write_assigns_increasing_ids() {
    let mut ds = MemoryDataSource::new().unwrap();
    assert!(ds.start().is_ok());
    assert_eq!(ds.write_task(sample("a", TaskPriority::ToDo)).unwrap(), 1);
    assert_eq!(ds.write_task(sample("b", TaskPriority::Watch)).unwrap(), 1);
    assert_eq!(ds.get(1).unwrap().short, "a");
    assert_eq!(ds.get(2).unwrap().short, "b");
    assert_eq!(ds.get(1).unwrap().id, Some(1));
    assert_eq!(ds.get(2).unwrap().id, Some(2));
    assert!(ds.stop().unwrap());
}

#[test]
fn round_trip_keeps_fields() {
    let mut ds = MemoryDataSource::new().unwrap();
    let t = sample("roundtrip", TaskPriority::UrgentNotImportant);
    let created = t.created.clone();
    ds.write_task(t).unwrap();
    let back = ds.get(1).unwrap();
    assert_eq!(back.id, Some(1));
    assert_eq!(back.short, "roundtrip");
    assert_eq!(back.desc, "desc of roundtrip");
    assert_eq!(back.created, created);
    assert_eq!(back.started, None);
    assert!(matches!(back.status, TaskStatus::Created));
    assert_eq!(back.prio, TaskPriority::UrgentNotImportant);
}

#[test]
fn remove_missing_id_is_zero_rows() {
    let mut ds = MemoryDataSource::new().unwrap();
    assert_eq!(ds.remove(42).unwrap(), 0);
    // a second remove of the same absent id behaves identically
    assert_eq!(ds.remove(42).unwrap(), 0);
    ds.write_task(sample("a", TaskPriority::ToDo)).unwrap();
    assert_eq!(ds.remove(1).unwrap(), 1);
    assert_eq!(ds.remove(1).unwrap(), 0);
}

#[test]
fn ids_not_reused_after_removal() {
    let mut ds = MemoryDataSource::new().unwrap();
    ds.write_task(sample("a", TaskPriority::ToDo)).unwrap();
    ds.write_task(sample("b", TaskPriority::ToDo)).unwrap();
    assert_eq!(ds.remove(2).unwrap(), 1);
    ds.write_task(sample("c", TaskPriority::ToDo)).unwrap();
    assert_eq!(ds.get(3).unwrap().short, "c");
    assert!(matches!(ds.get(2), Err(Error::TaskNotFound)));
}

#[test]
fn get_missing_id_is_not_found() {
    let ds = MemoryDataSource::new().unwrap();
    assert!(matches!(ds.get(1), Err(Error::TaskNotFound)));
}

#[test]
fn update_persists_status_and_keeps_prio() {
    let mut ds = MemoryDataSource::new().unwrap();
    ds.write_task(sample("a", TaskPriority::Watch)).unwrap();
    let mut chg = ds.get(1).unwrap();
    chg.status = TaskStatus::WontDo;
    chg.prio = TaskPriority::SomeDay; // the update path does not touch prio
    assert_eq!(ds.update_task(1, chg).unwrap(), 1);
    let back = ds.get(1).unwrap();
    assert!(matches!(back.status, TaskStatus::WontDo));
    assert_eq!(back.prio, TaskPriority::Watch);
    assert_eq!(back.short, "a");
    assert_eq!(back.desc, "desc of a");
}

#[test]
fn update_missing_id_is_zero_rows() {
    let mut ds = MemoryDataSource::new().unwrap();
    assert_eq!(
        ds.update_task(7, sample("x", TaskPriority::ToDo)).unwrap(),
        0
    );
}

#[test]
fn list_applies_filters() {
    let mut ds = MemoryDataSource::new().unwrap();
    ds.write_task(sample("pay rent", TaskPriority::UrgentAndImportant))
        .unwrap();
    ds.write_task(sample("water plants", TaskPriority::Watch))
        .unwrap();
    let mut done = ds.get(2).unwrap();
    done.status = TaskStatus::Completed;
    ds.update_task(2, done).unwrap();

    let mut all: Vec<Task> = Vec::new();
    ds.list(&mut all, &None).unwrap();
    assert_eq!(all.len(), 2);

    let mut by_name: Vec<Task> = Vec::new();
    ds.list(
        &mut by_name,
        &Some((FilterOptions::ByName, "plant".to_string())),
    )
    .unwrap();
    assert_eq!(by_name.len(), 1);
    assert_eq!(by_name[0].short, "water plants");

    let mut by_status: Vec<Task> = Vec::new();
    ds.list(
        &mut by_status,
        &Some((FilterOptions::ByStatus, "Completed".to_string())),
    )
    .unwrap();
    assert_eq!(by_status.len(), 1);
    assert_eq!(by_status[0].short, "water plants");

    let mut by_prio: Vec<Task> = Vec::new();
    ds.list(
        &mut by_prio,
        &Some((FilterOptions::ByPriority, "Urgent AND Important".to_string())),
    )
    .unwrap();
    assert_eq!(by_prio.len(), 1);
    assert_eq!(by_prio[0].short, "pay rent");

    let mut none: Vec<Task> = Vec::new();
    ds.list(
        &mut none,
        &Some((FilterOptions::ByName, "no such task".to_string())),
    )
    .unwrap();
    assert!(none.is_empty());
}
