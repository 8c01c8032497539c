use vstd::prelude::*;
use crate::error::TodoError;
use crate::store::{TaskStore, views};
use crate::task::{Task, TaskStatus, TaskView};

verus! {

/// A task in the form it is stored in: the status is written as its tag.
#[derive(Debug)]
pub struct TaskRecord {
    pub desc: String,
    pub progress: String,
    pub prio: i32,
}

/// The mathematical value of a stored record.
pub struct RecordView {
    pub desc: Seq<char>,
    pub progress: Seq<char>,
    pub prio: i32,
}

impl View for TaskRecord {
    type V = RecordView;

    open spec fn view(&self) -> RecordView {
        RecordView { desc: self.desc@, progress: self.progress@, prio: self.prio }
    }
}

/// The tag that names a status in a stored document.
pub open spec fn tag_of(s: TaskStatus) -> Seq<char> {
    match s {
        TaskStatus::Done => seq!['D', 'o', 'n', 'e'],
        TaskStatus::InProgress => seq!['I', 'n', 'P', 'r', 'o', 'g', 'r', 'e', 's', 's'],
        TaskStatus::Pending => seq!['P', 'e', 'n', 'd', 'i', 'n', 'g'],
    }
}

/// The status that a tag names, if it names one.
pub open spec fn status_of_tag(t: Seq<char>) -> Option<TaskStatus> {
    if t == tag_of(TaskStatus::Done) {
        Some(TaskStatus::Done)
    } else if t == tag_of(TaskStatus::InProgress) {
        Some(TaskStatus::InProgress)
    } else if t == tag_of(TaskStatus::Pending) {
        Some(TaskStatus::Pending)
    } else {
        None
    }
}

/// The stored form of a task.
pub open spec fn record_of(t: TaskView) -> RecordView {
    RecordView { desc: t.desc, progress: tag_of(t.status), prio: t.prio }
}

/// The task that a stored record describes, if its tag is known.
pub open spec fn task_of(r: RecordView) -> Option<TaskView> {
    match status_of_tag(r.progress) {
        Some(s) => Some(TaskView { desc: r.desc, status: s, prio: r.prio }),
        None => None,
    }
}

/// The views of a vector of records, in order.
pub open spec fn record_views(v: Seq<TaskRecord>) -> Seq<RecordView> {
    v.map_values(|r: TaskRecord| r@)
}

/// The stored form of a sequence of tasks.
pub open spec fn encoded(s: Seq<TaskView>) -> Seq<RecordView> {
    s.map_values(|t: TaskView| record_of(t))
}

/// The tasks that a sequence of records describes, when every tag is known.
pub open spec fn decoded(rs: Seq<RecordView>) -> Option<Seq<TaskView>> {
    if forall|i: int| 0 <= i < rs.len() ==> (#[trigger] task_of(rs[i])).is_some() {
        Some(rs.map_values(|r: RecordView| task_of(r).unwrap()))
    } else {
        None
    }
}

/// Whether two strings hold the same characters.
pub fn same_text(a: &str, b: &str) -> (r: bool)
    ensures
        r == (a@ == b@),
{
    let n = a.unicode_len();
    if n != b.unicode_len() {
        return false;
    }
    let mut i: usize = 0;
    while i < n
        invariant
            n == a@.len(),
            n == b@.len(),
            i <= n,
            forall|j: int| 0 <= j < i ==> a@[j] == b@[j],
        decreases n - i,
    {
        if a.get_char(i) != b.get_char(i) {
            return false;
        }
        i = i + 1;
    }
    assert(a@ =~= b@);
    true
}

impl TaskStatus {
    /// The tag that names this status in a stored document.
    pub fn tag(&self) -> (r: String)
        ensures
            r@ == tag_of(*self),
    {
        match self {
            TaskStatus::Done => {
                proof {
                    reveal_strlit("Done");
                }
                String::from_str("Done")
            },
            TaskStatus::InProgress => {
                proof {
                    reveal_strlit("InProgress");
                }
                String::from_str("InProgress")
            },
            TaskStatus::Pending => {
                proof {
                    reveal_strlit("Pending");
                }
                String::from_str("Pending")
            },
        }
    }

    /// The status that `tag` names; `None` for any other text.
    pub fn from_tag(tag: &str) -> (r: Option<TaskStatus>)
        ensures
            r == status_of_tag(tag@),
    {
        proof {
            reveal_strlit("Done");
            reveal_strlit("InProgress");
            reveal_strlit("Pending");
        }
        if same_text(tag, "Done") {
            assert("Done"@ =~= tag_of(TaskStatus::Done));
            Some(TaskStatus::Done)
        } else if same_text(tag, "InProgress") {
            assert("InProgress"@ =~= tag_of(TaskStatus::InProgress));
            Some(TaskStatus::InProgress)
        } else if same_text(tag, "Pending") {
            assert("Pending"@ =~= tag_of(TaskStatus::Pending));
            Some(TaskStatus::Pending)
        } else {
            assert("Done"@ =~= tag_of(TaskStatus::Done));
            assert("InProgress"@ =~= tag_of(TaskStatus::InProgress));
            assert("Pending"@ =~= tag_of(TaskStatus::Pending));
            None
        }
    }
}

impl Task {
    /// The record that holds the fields of `self`, as written to storage.
    pub fn to_record(&self) -> (r: TaskRecord)
        ensures
            r@ == record_of(self@),
    {
        TaskRecord {
            desc: String::from_str(self.desc()),
            progress: self.progress().tag(),
            prio: self.prio(),
        }
    }
}

impl TaskRecord {
    /// The task this record describes. A tag that names no status is a
    /// serialization error.
    pub fn to_task(&self) -> (r: Result<Task, TodoError>)
        ensures
            task_of(self@) is Some ==> r is Ok && r->Ok_0@ == task_of(self@).unwrap(),
            task_of(self@) is None ==> r is Err && r->Err_0 is Serialization,
    {
        match TaskStatus::from_tag(self.progress.as_str()) {
            Some(s) => Ok(Task::new(self.desc.clone(), s, self.prio)),
            None => {
                proof {
                    reveal_strlit("unknown status tag");
                }
                Err(TodoError::Serialization(String::from_str("unknown status tag")))
            },
        }
    }
}

/// The stored form of every task, in order.
pub fn encode(tasks: &Vec<Task>) -> (r: Vec<TaskRecord>)
    ensures
        record_views(r@) == encoded(views(tasks@)),
{
    let mut r: Vec<TaskRecord> = Vec::new();
    let mut i: usize = 0;
    while i < tasks.len()
        invariant
            i <= tasks@.len(),
            record_views(r@) =~= encoded(views(tasks@)).take(i as int),
        decreases tasks@.len() - i,
    {
        let rec = tasks[i].to_record();
        let ghost before = r@;
        r.push(rec);
        assert(record_views(r@) =~= record_views(before).push(rec@));
        i = i + 1;
        assert(record_views(r@) =~= encoded(views(tasks@)).take(i as int));
    }
    assert(encoded(views(tasks@)).take(i as int) =~= encoded(views(tasks@)));
    r
}

/// The tasks that the records describe, in order; a serialization error if
/// any record carries an unknown tag.
pub fn decode(records: &Vec<TaskRecord>) -> (r: Result<Vec<Task>, TodoError>)
    ensures
        decoded(record_views(records@)) is Some ==> r is Ok && views(r->Ok_0@) == decoded(
            record_views(records@),
        ).unwrap(),
        decoded(record_views(records@)) is None ==> r is Err && r->Err_0 is Serialization,
{
    let ghost rs = record_views(records@);
    let mut out: Vec<Task> = Vec::new();
    let mut i: usize = 0;
    while i < records.len()
        invariant
            rs == record_views(records@),
            i <= records@.len(),
            out@.len() == i,
            forall|j: int| 0 <= j < i ==> (#[trigger] task_of(rs[j])) is Some && out@[j]@
                == task_of(rs[j]).unwrap(),
        decreases records@.len() - i,
    {
        match records[i].to_task() {
            Ok(t) => {
                out.push(t);
                i = i + 1;
            },
            Err(e) => {
                assert(task_of(rs[i as int]) is None);
                return Err(e);
            },
        }
    }
    assert(views(out@) =~= rs.map_values(|r: RecordView| task_of(r).unwrap()));
    Ok(out)
}

/// The store that startup begins with: the tasks that were read, or an empty
/// store when reading or decoding failed, since an empty list is a valid
/// starting state.
pub fn restore(loaded: Result<Vec<TaskRecord>, TodoError>) -> (r: TaskStore)
    ensures
        loaded is Ok && decoded(record_views(loaded->Ok_0@)) is Some ==> r@ == decoded(
            record_views(loaded->Ok_0@),
        ).unwrap(),
        loaded is Ok && decoded(record_views(loaded->Ok_0@)) is None ==> r@ == Seq::<
            TaskView,
        >::empty(),
        loaded is Err ==> r@ == Seq::<TaskView>::empty(),
{
    match loaded {
        Ok(records) => match decode(&records) {
            Ok(tasks) => TaskStore::from_tasks(tasks),
            Err(_) => TaskStore::new(),
        },
        Err(_) => TaskStore::new(),
    }
}

/// Reading back the tag of a status gives that status.
pub proof fn lemma_tag_round_trip(s: TaskStatus)
    ensures
        status_of_tag(tag_of(s)) == Some(s),
{
    assert(tag_of(TaskStatus::Done).len() == 4);
    assert(tag_of(TaskStatus::InProgress).len() == 10);
    assert(tag_of(TaskStatus::Pending).len() == 7);
}

/// Reading back the stored form of a task gives the same description,
/// status and priority.
pub proof fn lemma_record_round_trip(t: TaskView)
    ensures
        task_of(record_of(t)) == Some(t),
{
    lemma_tag_round_trip(t.status);
}

/// Saving a sequence of tasks and loading it back gives the same tasks in
/// the same order.
pub proof fn lemma_round_trip(s: Seq<TaskView>)
    ensures
        decoded(encoded(s)) == Some(s),
{
    let rs = encoded(s);
    assert forall|i: int| 0 <= i < rs.len() implies (#[trigger] task_of(rs[i])).is_some() by {
        lemma_record_round_trip(s[i]);
    }
    assert forall|i: int| 0 <= i < s.len() implies task_of(rs[i]).unwrap() == s[i] by {
        lemma_record_round_trip(s[i]);
    }
    assert(rs.map_values(|r: RecordView| task_of(r).unwrap()) =~= s);
}

} // verus!
