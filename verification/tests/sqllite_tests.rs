use myprio::app::FilterOptions;
use myprio::error::Error;
use myprio::sqllite::SqlLiteDataSource;
use myprio::task::{Task, TaskPriority, TaskStatus};

fn temp_db() -> (tempfile::NamedTempFile, String) {
    let f = tempfile::NamedTempFile::new().unwrap();
    let path = f.path().to_string_lossy().to_string();
    (f, path)
}

fn sample(short: &str, prio: TaskPriority) -> Task {
    Task::new(short.to_string(), format!("desc of {short}"), prio)
}

#[test]
fn sql_round_trip_keeps_fields() {
    let (_f, path) = temp_db();
    let mut ds = SqlLiteDataSource::new(&path).unwrap();
    assert!(ds.start().is_ok());
    let t = sample("roundtrip", TaskPriority::ImportantNotUrgent);
    let created = t.created.clone();
    assert_eq!(ds.write_task(t).unwrap(), 1);
    let back = ds.get(1).unwrap();
    assert_eq!(back.id, Some(1));
    assert_eq!(back.short, "roundtrip");
    assert_eq!(back.desc, "desc of roundtrip");
    assert_eq!(back.created, created);
    assert_eq!(back.started, None);
    assert!(matches!(back.status, TaskStatus::Created));
    assert_eq!(back.prio, TaskPriority::ImportantNotUrgent);
    assert!(ds.stop().unwrap());
}

#[test]
fn sql_get_missing_id_is_not_found() {
    let (_f, path) = temp_db();
    let ds = SqlLiteDataSource::new(&path).unwrap();
    assert!(matches!(ds.get(99), Err(Error::TaskNotFound)));
}

#[test]
fn sql_remove_missing_id_is_zero_rows() {
    let (_f, path) = temp_db();
    let mut ds = SqlLiteDataSource::new(&path).unwrap();
    assert_eq!(ds.remove(5).unwrap(), 0);
    // a second remove of the same absent id behaves identically
    assert_eq!(ds.remove(5).unwrap(), 0);
    ds.write_task(sample("a", TaskPriority::ToDo)).unwrap();
    assert_eq!(ds.remove(1).unwrap(), 1);
    assert_eq!(ds.remove(1).unwrap(), 0);
    assert!(matches!(ds.get(1), Err(Error::TaskNotFound)));
}

#[test]
fn sql_update_persists_status_and_keeps_prio() {
    let (_f, path) = temp_db();
    let mut ds = SqlLiteDataSource::new(&path).unwrap();
    ds.write_task(sample("a", TaskPriority::Watch)).unwrap();
    let mut chg = ds.get(1).unwrap();
    chg.status = TaskStatus::Archived;
    chg.prio = TaskPriority::SomeDay; // the update statement does not touch prio
    assert_eq!(ds.update_task(1, chg).unwrap(), 1);
    let back = ds.get(1).unwrap();
    assert!(matches!(back.status, TaskStatus::Archived));
    assert_eq!(back.prio, TaskPriority::Watch);
    assert_eq!(back.short, "a");
    assert_eq!(ds.update_task(9, sample("x", TaskPriority::ToDo)).unwrap(), 0);
}

#[test]
fn quotes_in_fields_are_stored_verbatim() {
    let (_f, path) = temp_db();
    let mut ds = SqlLiteDataSource::new(&path).unwrap();
    let hostile = "a'; DROP TABLE tasks; --";
    let mut t = sample("other", TaskPriority::ToDo);
    t.short = hostile.to_string();
    ds.write_task(t).unwrap();
    ds.write_task(sample("innocent", TaskPriority::Watch)).unwrap();
    // the schema and the other row survived, and the text came back verbatim
    let back = ds.get(1).unwrap();
    assert_eq!(back.short, hostile);
    assert_eq!(ds.get(2).unwrap().short, "innocent");
    let mut all: Vec<Task> = Vec::new();
    ds.list(&mut all, &None).unwrap();
    assert_eq!(all.len(), 2);
}

#[test]
fn reopening_the_store_keeps_rows() {
    let (_f, path) = temp_db();
    {
        let mut ds = SqlLiteDataSource::new(&path).unwrap();
        ds.write_task(sample("persisted", TaskPriority::NiceToDo)).unwrap();
    }
    let ds = SqlLiteDataSource::new(&path).unwrap();
    assert_eq!(ds.get(1).unwrap().short, "persisted");
}

#[test]
fn sql_list_applies_filters() {
    let (_f, path) = temp_db();
    let mut ds = SqlLiteDataSource::new(&path).unwrap();
    ds.write_task(sample("pay rent", TaskPriority::UrgentAndImportant)).unwrap();
    ds.write_task(sample("water plants", TaskPriority::Watch)).unwrap();

    let mut by_name: Vec<Task> = Vec::new();
    ds.list(&mut by_name, &Some((FilterOptions::ByName, "rent".to_string()))).unwrap();
    assert_eq!(by_name.len(), 1);
    assert_eq!(by_name[0].short, "pay rent");

    let mut by_prio: Vec<Task> = Vec::new();
    ds.list(&mut by_prio, &Some((FilterOptions::ByPriority, "Watch".to_string()))).unwrap();
    assert_eq!(by_prio.len(), 1);
    assert_eq!(by_prio[0].short, "water plants");

    let mut by_status: Vec<Task> = Vec::new();
    ds.list(&mut by_status, &Some((FilterOptions::ByStatus, "Created".to_string()))).unwrap();
    assert_eq!(by_status.len(), 2);
}

#[test]
fn bad_path_is_an_io_error() {
    // a directory cannot be opened as a database file
    let r = SqlLiteDataSource::new(&"/".to_string());
    assert!(matches!(r, Err(Error::IOError(_))));
}
