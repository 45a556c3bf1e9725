use myprio::app::{default_sqllite_settings, Datasources, FilterOptions};
use myprio::manager::{Datasource, TaskManager};
use myprio::memory::MemoryDataSource;
use myprio::task::{Task, TaskPriority, TaskStatus};

fn temp_db() -> (tempfile::NamedTempFile, String) {
    let f = tempfile::NamedTempFile::new().unwrap();
    let path = f.path().to_string_lossy().to_string();
    (f, path)
}

fn memory_manager() -> TaskManager {
    TaskManager {
        source: Datasource::Memory(MemoryDataSource::new().unwrap()),
    }
}

#[test]
fn default_settings() {
    let home = home::home_dir().unwrap().to_string_lossy().to_string();
    let settings = default_sqllite_settings(&home);
    assert_eq!(settings.datasource, Datasources::SqlLite);
    let db = home::home_dir().unwrap().join("mytasks.sql");
    assert_eq!(settings.path, db.to_string_lossy());
}

#[test]
fn ops() {
    let ds = Datasources::SqlLite;
    let (_f, tmpfile) = temp_db();
    let mut mgr = TaskManager::new(ds, &tmpfile).unwrap();
    // listing an empty store should just work
    assert!(mgr.list(&None).is_ok());

    let t = Task::new(
        "test42".to_string(),
        "test4242".to_string(),
        TaskPriority::UrgentAndImportant,
    );
    // add a new task
    assert_eq!(mgr.add(t).ok(), Some(1));
    assert!(mgr.get_task(99).is_err());
    // get it and compare
    let mut ctrl = mgr.get_task(1);
    assert!(ctrl.is_ok());
    let mut ctrl_task = ctrl.unwrap();
    assert_eq!(ctrl_task.id, Some(1));
    assert_eq!(ctrl_task.short, "test42");
    assert_eq!(ctrl_task.desc, "test4242");
    assert_eq!(ctrl_task.prio, TaskPriority::UrgentAndImportant);
    assert!(matches!(ctrl_task.status, TaskStatus::Created));

    // update status
    let mut update = ctrl_task.clone();
    update.status = TaskStatus::WontDo;
    assert_eq!(mgr.set_status(1, update).ok(), Some(1));
    ctrl = mgr.get_task(1);
    assert!(ctrl.is_ok());
    ctrl_task = ctrl.unwrap();
    assert_eq!(ctrl_task.id, Some(1));
    assert_eq!(ctrl_task.short, "test42");
    assert_eq!(ctrl_task.desc, "test4242");
    assert_eq!(ctrl_task.prio, TaskPriority::UrgentAndImportant);
    assert!(matches!(ctrl_task.status, TaskStatus::WontDo));

    assert_eq!(mgr.remove(1).ok(), Some(1));
    ctrl = mgr.get_task(1);
    assert!(ctrl.is_err());
}

#[test]
fn new_with_unusable_path_fails() {
    // a directory cannot be opened as a database file
    let r = TaskManager::new(Datasources::SqlLite, &"/".to_string());
    assert!(r.is_err());
}

#[test]
fn list_sorts_by_priority_rank() {
    let mut mgr = memory_manager();
    mgr.add(Task::new("d".into(), "d".into(), TaskPriority::SomeDay)).unwrap();
    mgr.add(Task::new("a1".into(), "a1".into(), TaskPriority::UrgentAndImportant)).unwrap();
    mgr.add(Task::new("c".into(), "c".into(), TaskPriority::Watch)).unwrap();
    mgr.add(Task::new("a2".into(), "a2".into(), TaskPriority::UrgentAndImportant)).unwrap();
    let listed = mgr.list(&None).unwrap();
    let shorts: Vec<&str> = listed.iter().map(|t| t.short.as_str()).collect();
    // ascending rank, and the two equal-rank tasks keep their fetch order
    assert_eq!(shorts, vec!["a1", "a2", "c", "d"]);
    let ranks: Vec<u8> = listed.iter().map(|t| t.prio.get_ordering_value()).collect();
    assert_eq!(ranks, vec![1, 1, 5, 7]);
}

#[test]
fn list_sorts_on_sql_backend_too() {
    let (_f, tmpfile) = temp_db();
    let mut mgr = TaskManager::new(Datasources::SqlLite, &tmpfile).unwrap();
    mgr.add(Task::new("later".into(), "x".into(), TaskPriority::NiceToDo)).unwrap();
    mgr.add(Task::new("first".into(), "x".into(), TaskPriority::UrgentNotImportant)).unwrap();
    let listed = mgr.list(&None).unwrap();
    assert_eq!(listed.len(), 2);
    assert_eq!(listed[0].short, "first");
    assert_eq!(listed[1].short, "later");
}

#[test]
fn list_filters_by_name_through_manager() {
    let mut mgr = memory_manager();
    mgr.add(Task::new("pay rent".into(), "x".into(), TaskPriority::ToDo)).unwrap();
    mgr.add(Task::new("water plants".into(), "x".into(), TaskPriority::ToDo)).unwrap();
    let listed = mgr
        .list(&Some((FilterOptions::ByName, "water".to_string())))
        .unwrap();
    assert_eq!(listed.len(), 1);
    assert_eq!(listed[0].short, "water plants");
}

#[test]
fn print_task_list_renders_fixed_width_lines() {
    let mut mgr = memory_manager();
    mgr.add(Task::new(
        "alpha".into(),
        "first line\nsecond line".into(),
        TaskPriority::Watch,
    ))
    .unwrap();
    let listed = mgr.list(&None).unwrap();
    let lines = mgr.print_task_list(&listed);
    assert_eq!(lines.len(), 6);
    assert_eq!(lines[0], "=".repeat(80));
    assert_eq!(lines[1], "Current task list");
    assert_eq!(lines[2], "-".repeat(80));
    assert_eq!(
        lines[3],
        format!(
            "| id | {:<30} | {:<25} | {:<20} | description",
            "task", "priority", "status"
        )
    );
    assert_eq!(lines[4], "-".repeat(80));
    assert_eq!(
        lines[5],
        format!(
            "| 1 | {:<30} | {:<25} | {:<20} | {:<40}",
            "alpha", "Watch", "Created", "first line"
        )
    );
}

#[test]
fn print_task_list_truncates_long_fields() {
    let mut mgr = memory_manager();
    let long_name = "a very long task name that runs past the column width";
    mgr.add(Task::new(long_name.into(), "d".into(), TaskPriority::ToDo)).unwrap();
    let listed = mgr.list(&None).unwrap();
    let lines = mgr.print_task_list(&listed);
    let expected_name: String = long_name.chars().take(30).collect();
    assert_eq!(
        lines[5],
        format!(
            "| 1 | {} | {:<25} | {:<20} | {:<40}",
            expected_name, "To Do", "Created", "d"
        )
    );
}

#[test]
fn show_renders_detail_lines() {
    let mut mgr = memory_manager();
    mgr.add(Task::new(
        "alpha".into(),
        "all the details".into(),
        TaskPriority::NiceToDo,
    ))
    .unwrap();
    let lines = mgr.show(1).unwrap();
    assert_eq!(lines.len(), 8);
    assert_eq!(lines[0], "=".repeat(80));
    assert_eq!(lines[1], " Show info for task: 1");
    assert_eq!(lines[2], "-".repeat(80));
    assert_eq!(lines[3], " ID: 1");
    assert_eq!(lines[4], " Task: alpha");
    assert_eq!(lines[5], " Description: all the details");
    assert_eq!(lines[6], " Priority: Nice To Do");
    assert_eq!(lines[7], " Status: Created");
    assert!(mgr.show(2).is_err());
}
