use todo_cli::codec::{decode, encode, restore, same_text, TaskRecord};
use todo_cli::error::TodoError;
use todo_cli::store::TaskStore;
use todo_cli::task::{Task, TaskStatus};

fn record(desc: &str, tag: &str, prio: i32) -> TaskRecord {
    TaskRecord { desc: desc.to_string(), progress: tag.to_string(), prio }
}

#[test]
fn status_tags() {
    assert_eq!(TaskStatus::Done.tag(), "Done");
    assert_eq!(TaskStatus::InProgress.tag(), "InProgress");
    assert_eq!(TaskStatus::Pending.tag(), "Pending");
}

#[test]
fn tags_read_back() {
    for s in [TaskStatus::Done, TaskStatus::InProgress, TaskStatus::Pending] {
        assert_eq!(TaskStatus::from_tag(&s.tag()), Some(s));
    }
    assert_eq!(TaskStatus::from_tag("done"), None);
    assert_eq!(TaskStatus::from_tag(""), None);
    assert_eq!(TaskStatus::from_tag("Pending "), None);
}

#[test]
fn same_text_compares_characters() {
    assert!(same_text("héllo", "héllo"));
    assert!(!same_text("hello", "hellO"));
    assert!(!same_text("hell", "hello"));
    assert!(same_text("", ""));
}

#[test]
fn record_of_task() {
    let r = Task::new("Buy milk".to_string(), TaskStatus::InProgress, 3).to_record();
    assert_eq!(r.desc, "Buy milk");
    assert_eq!(r.progress, "InProgress");
    assert_eq!(r.prio, 3);
}

#[test]
fn record_with_unknown_tag_is_serialization_error() {
    let r = record("x", "Finished", 1);
    assert!(matches!(r.to_task(), Err(TodoError::Serialization(_))));
    let recs = vec![record("a", "Done", 1), record("b", "Later", 2)];
    assert!(matches!(decode(&recs), Err(TodoError::Serialization(_))));
}

#[test]
fn encode_then_decode_round_trips() {
    let tasks = vec![
        Task::new("one".to_string(), TaskStatus::Done, -3),
        Task::new("".to_string(), TaskStatus::InProgress, i32::MAX),
        Task::new("three".to_string(), TaskStatus::Pending, i32::MIN),
    ];
    let recs = encode(&tasks);
    assert_eq!(recs.len(), 3);
    assert_eq!(recs[0].progress, "Done");
    let back = decode(&recs).unwrap();
    assert_eq!(back.len(), 3);
    for (a, b) in tasks.iter().zip(back.iter()) {
        assert_eq!(a.desc(), b.desc());
        assert_eq!(a.progress(), b.progress());
        assert_eq!(a.prio(), b.prio());
    }
}

#[test]
fn restore_falls_back_to_empty() {
    let s = restore(Err(TodoError::Io("missing".to_string())));
    assert!(s.is_empty());
    let s = restore(Ok(vec![record("a", "Nope", 1)]));
    assert!(s.is_empty());
    let s = restore(Ok(vec![record("a", "Done", 1), record("b", "Pending", 2)]));
    assert_eq!(s.len(), 2);
    assert_eq!(s.get(0).unwrap().progress(), TaskStatus::Done);
}

#[test]
fn buy_milk_scenario() {
    let mut s = TaskStore::new();
    s.create("Buy milk".to_string(), 3);
    let t = s.get(0).unwrap();
    assert_eq!((t.desc(), t.progress(), t.prio()), ("Buy milk", TaskStatus::Pending, 3));
    assert_eq!(s.update(0, Some(TaskStatus::Done), None), Ok(()));
    let t = s.get(0).unwrap();
    assert_eq!((t.desc(), t.progress(), t.prio()), ("Buy milk", TaskStatus::Done, 3));
    let saved = encode(s.tasks());
    let loaded = restore(Ok(saved));
    assert_eq!(loaded.len(), 1);
    let t = loaded.get(0).unwrap();
    assert_eq!((t.desc(), t.progress(), t.prio()), ("Buy milk", TaskStatus::Done, 3));
}
