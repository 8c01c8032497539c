use todo_cli::error::TodoError;
use todo_cli::store::TaskStore;
use todo_cli::task::{Task, TaskStatus};

fn descs(s: &TaskStore) -> Vec<String> {
    s.tasks().iter().map(|t| t.desc().to_string()).collect()
}

fn abc() -> TaskStore {
    let mut s = TaskStore::new();
    s.create("A".to_string(), 1);
    s.create("B".to_string(), 2);
    s.create("C".to_string(), 3);
    s
}

#[test]
fn creates_count_and_start_pending() {
    let mut s = TaskStore::new();
    assert!(s.is_empty());
    for n in 0..5 {
        s.create(format!("task {}", n), n);
        assert_eq!(s.len(), (n + 1) as usize);
    }
    for (i, t) in s.tasks().iter().enumerate() {
        assert_eq!(t.progress(), TaskStatus::Pending);
        assert_eq!(t.prio(), i as i32);
        assert_eq!(t.desc(), format!("task {}", i));
    }
}

#[test]
fn create_keeps_empty_description() {
    let mut s = TaskStore::new();
    s.create(String::new(), -4);
    assert_eq!(s.len(), 1);
    assert_eq!(s.get(0).unwrap().desc(), "");
    assert_eq!(s.get(0).unwrap().prio(), -4);
}

#[test]
fn delete_at_length_is_not_found() {
    let mut s = abc();
    assert_eq!(s.delete(3), Err(TodoError::NotFound));
    assert_eq!(descs(&s), vec!["A", "B", "C"]);
}

#[test]
fn delete_past_length_is_not_found() {
    let mut s = abc();
    assert_eq!(s.delete(7), Err(TodoError::NotFound));
    assert_eq!(descs(&s), vec!["A", "B", "C"]);
}

#[test]
fn update_at_or_past_length_is_not_found() {
    let mut s = abc();
    assert_eq!(s.update(3, Some(TaskStatus::Done), Some(9)), Err(TodoError::NotFound));
    assert_eq!(s.update(4, Some(TaskStatus::Done), None), Err(TodoError::NotFound));
    assert_eq!(descs(&s), vec!["A", "B", "C"]);
    for t in s.tasks() {
        assert_eq!(t.progress(), TaskStatus::Pending);
    }
    assert_eq!(s.get(2).unwrap().prio(), 3);
}

#[test]
fn delete_shifts_later_tasks_down() {
    let mut s = abc();
    assert_eq!(s.delete(1), Ok(()));
    assert_eq!(descs(&s), vec!["A", "C"]);
    assert_eq!(s.delete(1), Ok(()));
    assert_eq!(descs(&s), vec!["A"]);
}

#[test]
fn update_sets_only_given_fields() {
    let mut s = abc();
    assert_eq!(s.update(1, None, Some(42)), Ok(()));
    let t = s.get(1).unwrap();
    assert_eq!(t.desc(), "B");
    assert_eq!(t.progress(), TaskStatus::Pending);
    assert_eq!(t.prio(), 42);
    assert_eq!(s.update(1, Some(TaskStatus::InProgress), None), Ok(()));
    let t = s.get(1).unwrap();
    assert_eq!(t.progress(), TaskStatus::InProgress);
    assert_eq!(t.prio(), 42);
}

#[test]
fn list_twice_gives_same_entries() {
    let s = abc();
    let first: Vec<(usize, String, TaskStatus, i32)> =
        s.list().iter().map(|(i, t)| (*i, t.desc().to_string(), t.progress(), t.prio())).collect();
    let second: Vec<(usize, String, TaskStatus, i32)> =
        s.list().iter().map(|(i, t)| (*i, t.desc().to_string(), t.progress(), t.prio())).collect();
    assert_eq!(first, second);
    assert_eq!(
        first,
        vec![
            (0, "A".to_string(), TaskStatus::Pending, 1),
            (1, "B".to_string(), TaskStatus::Pending, 2),
            (2, "C".to_string(), TaskStatus::Pending, 3),
        ]
    );
}

#[test]
fn list_of_empty_store_is_empty() {
    assert!(TaskStore::new().list().is_empty());
}

#[test]
fn get_past_end_is_none() {
    let s = abc();
    assert!(s.get(3).is_none());
    assert_eq!(s.get(0).unwrap().desc(), "A");
}

#[test]
fn from_tasks_keeps_order() {
    let s = TaskStore::from_tasks(vec![
        Task::new("x".to_string(), TaskStatus::Done, 5),
        Task::new("y".to_string(), TaskStatus::InProgress, -1),
    ]);
    assert_eq!(descs(&s), vec!["x", "y"]);
    let back = s.into_tasks();
    assert_eq!(back[0].progress(), TaskStatus::Done);
    assert_eq!(back[1].prio(), -1);
}

#[test]
fn task_duplicate_and_set() {
    let mut t = Task::new("walk".to_string(), TaskStatus::Pending, 2);
    let d = t.duplicate();
    t.set(Some(TaskStatus::Done), Some(8));
    assert_eq!(t.progress(), TaskStatus::Done);
    assert_eq!(t.prio(), 8);
    assert_eq!(d.progress(), TaskStatus::Pending);
    assert_eq!(d.prio(), 2);
    assert_eq!(d.desc(), "walk");
}
