use vstd::prelude::*;

verus! {

/// How far a task has come.
#[derive(Debug, Clone, Copy, PartialEq, Eq, Structural)]
pub enum TaskStatus {
    Done,
    InProgress,
    Pending,
}

/// The mathematical value of a task record.
pub struct TaskView {
    pub desc: Seq<char>,
    pub status: TaskStatus,
    pub prio: i32,
}

/// One to-do item. It has no identity beyond its position in a store.
#[derive(Debug)]
pub struct Task {
    desc: String,
    progress: TaskStatus,
    prio: i32,
}

impl View for Task {
    type V = TaskView;

    closed spec fn view(&self) -> TaskView {
        TaskView { desc: self.desc@, status: self.progress, prio: self.prio }
    }
}

impl Task {
    pub fn new(desc: String, progress: TaskStatus, prio: i32) -> (r: Task)
        ensures
            r@ == (TaskView { desc: desc@, status: progress, prio }),
    {
        Task { desc, progress, prio }
    }

    pub fn desc(&self) -> (r: &str)
        ensures
            r@ == self@.desc,
    {
        self.desc.as_str()
    }

    pub fn progress(&self) -> (r: TaskStatus)
        ensures
            r == self@.status,
    {
        self.progress
    }

    pub fn prio(&self) -> (r: i32)
        ensures
            r == self@.prio,
    {
        self.prio
    }

    /// Sets the status and the priority where a new value is given; the
    /// description never changes.
    pub fn set(&mut self, status: Option<TaskStatus>, prio: Option<i32>)
        ensures
            final(self)@ == updated(old(self)@, status, prio),
    {
        if let Some(s) = status {
            self.progress = s;
        }
        if let Some(p) = prio {
            self.prio = p;
        }
    }

    /// A copy with the same view.
    pub fn duplicate(&self) -> (r: Task)
        ensures
            r@ == self@,
    {
        Task { desc: self.desc.clone(), progress: self.progress, prio: self.prio }
    }
}

/// The record `t` after an update that sets the fields that are given.
pub open spec fn updated(t: TaskView, status: Option<TaskStatus>, prio: Option<i32>) -> TaskView {
    TaskView {
        desc: t.desc,
        status: match status {
            Some(s) => s,
            None => t.status,
        },
        prio: match prio {
            Some(p) => p,
            None => t.prio,
        },
    }
}

} // verus!
