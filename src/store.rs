use vstd::prelude::*;
use crate::error::TodoError;
use crate::task::{Task, TaskStatus, TaskView, updated};

verus! {

/// The ordered collection of tasks. Insertion order is the only order, and a
/// task is addressed by its zero-based position.
pub struct TaskStore {
    tasks: Vec<Task>,
}

/// The views of a vector of tasks, in order.
pub open spec fn views(v: Seq<Task>) -> Seq<TaskView> {
    v.map_values(|t: Task| t@)
}

/// The record that `create` appends.
pub open spec fn fresh(desc: Seq<char>, prio: i32) -> TaskView {
    TaskView { desc, status: TaskStatus::Pending, prio }
}

/// What `list` hands out: each record with its position.
pub open spec fn listing(s: Seq<TaskView>) -> Seq<(usize, TaskView)> {
    Seq::new(s.len(), |i: int| (i as usize, s[i]))
}

/// The views of listed entries.
pub open spec fn entry_views(v: Seq<(usize, Task)>) -> Seq<(usize, TaskView)> {
    v.map_values(|e: (usize, Task)| (e.0, e.1@))
}

impl View for TaskStore {
    type V = Seq<TaskView>;

    closed spec fn view(&self) -> Seq<TaskView> {
        views(self.tasks@)
    }
}

impl TaskStore {
    /// An empty store.
    pub fn new() -> (r: TaskStore)
        ensures
            r@ == Seq::<TaskView>::empty(),
    {
        let r = TaskStore { tasks: Vec::new() };
        assert(r@ =~= Seq::<TaskView>::empty());
        r
    }

    /// A store holding `tasks` in their order.
    pub fn from_tasks(tasks: Vec<Task>) -> (r: TaskStore)
        ensures
            r@ == views(tasks@),
    {
        TaskStore { tasks }
    }

    /// The tasks, in order.
    pub fn tasks(&self) -> (r: &Vec<Task>)
        ensures
            views(r@) == self@,
    {
        &self.tasks
    }

    /// Hands the tasks over, in order.
    pub fn into_tasks(self) -> (r: Vec<Task>)
        ensures
            views(r@) == self@,
    {
        self.tasks
    }

    pub fn len(&self) -> (r: usize)
        ensures
            r == self@.len(),
    {
        self.tasks.len()
    }

    pub fn is_empty(&self) -> (r: bool)
        ensures
            r == (self@.len() == 0),
    {
        self.tasks.len() == 0
    }

    /// The task at `index`, if there is one.
    pub fn get(&self, index: usize) -> (r: Option<&Task>)
        ensures
            index < self@.len() ==> r.is_some() && r.unwrap()@ == self@[index as int],
            index >= self@.len() ==> r.is_none(),
    {
        if index < self.tasks.len() {
            Some(&self.tasks[index])
        } else {
            None
        }
    }

    /// Appends a new pending task; whatever status a caller has in mind, a
    /// new task starts out pending.
    pub fn create(&mut self, desc: String, prio: i32)
        ensures
            final(self)@ == old(self)@.push(fresh(desc@, prio)),
    {
        let t = Task::new(desc, TaskStatus::Pending, prio);
        self.tasks.push(t);
        assert(self@ =~= old(self)@.push(fresh(desc@, prio)));
    }

    /// Removes the task at `index`; later tasks move down by one. An index
    /// at or past the end is not found and changes nothing.
    pub fn delete(&mut self, index: usize) -> (r: Result<(), TodoError>)
        ensures
            index < old(self)@.len() ==> r == Ok::<(), TodoError>(()) && final(self)@ == old(
                self,
            )@.remove(index as int),
            index >= old(self)@.len() ==> r == Err::<(), TodoError>(TodoError::NotFound)
                && final(self)@ == old(self)@,
    {
        if index < self.tasks.len() {
            self.tasks.remove(index);
            assert(self@ =~= old(self)@.remove(index as int));
            Ok(())
        } else {
            Err(TodoError::NotFound)
        }
    }

    /// Sets the status and/or the priority of the task at `index`. An index
    /// at or past the end is not found and changes nothing.
    pub fn update(&mut self, index: usize, status: Option<TaskStatus>, prio: Option<i32>) -> (r:
        Result<(), TodoError>)
        ensures
            index < old(self)@.len() ==> r == Ok::<(), TodoError>(()) && final(self)@ == old(
                self,
            )@.update(index as int, updated(old(self)@[index as int], status, prio)),
            index >= old(self)@.len() ==> r == Err::<(), TodoError>(TodoError::NotFound)
                && final(self)@ == old(self)@,
    {
        if index < self.tasks.len() {
            let mut t = self.tasks.remove(index);
            t.set(status, prio);
            self.tasks.insert(index, t);
            assert(self@ =~= old(self)@.update(
                index as int,
                updated(old(self)@[index as int], status, prio),
            ));
            Ok(())
        } else {
            Err(TodoError::NotFound)
        }
    }

    /// Each task with its position, in the current order.
    pub fn list(&self) -> (r: Vec<(usize, Task)>)
        ensures
            entry_views(r@) == listing(self@),
    {
        let mut r: Vec<(usize, Task)> = Vec::new();
        let mut i: usize = 0;
        while i < self.tasks.len()
            invariant
                i <= self.tasks@.len(),
                entry_views(r@) =~= listing(self@).take(i as int),
            decreases self.tasks@.len() - i,
        {
            let t = self.tasks[i].duplicate();
            let ghost before = r@;
            r.push((i, t));
            assert(r@ == before.push((i, t)));
            assert(entry_views(r@) =~= entry_views(before).push((i, t@)));
            assert(t@ == self@[i as int]);
            i = i + 1;
            assert(entry_views(r@) =~= listing(self@).take(i as int));
        }
        assert(listing(self@).take(i as int) =~= listing(self@));
        r
    }
}

/// The store that `create` makes from `start` when called once for each
/// (description, priority) pair of `items`, in order.
pub open spec fn after_creates(start: Seq<TaskView>, items: Seq<(Seq<char>, i32)>) -> Seq<
    TaskView,
>
    decreases items.len(),
{
    if items.len() == 0 {
        start
    } else {
        after_creates(start, items.drop_last()).push(
            fresh(items.last().0, items.last().1),
        )
    }
}

/// After N creates on an empty store it holds N tasks, each pending and
/// holding the description and priority it was created with, in the order
/// of the calls.
pub proof fn lemma_creates(items: Seq<(Seq<char>, i32)>)
    ensures
        after_creates(Seq::empty(), items).len() == items.len(),
        forall|i: int|
            0 <= i < items.len() ==> #[trigger] after_creates(Seq::empty(), items)[i] == fresh(
                items[i].0,
                items[i].1,
            ),
        forall|i: int|
            0 <= i < items.len() ==> (#[trigger] after_creates(Seq::empty(), items)[i]).status
                == TaskStatus::Pending,
    decreases items.len(),
{
    if items.len() > 0 {
        lemma_creates(items.drop_last());
    }
}

/// Listing a store twice, with no change between, gives the same entries.
pub proof fn lemma_list_stable(s: TaskStore, a: Seq<(usize, Task)>, b: Seq<(usize, Task)>)
    requires
        entry_views(a) == listing(s@),
        entry_views(b) == listing(s@),
    ensures
        entry_views(a) == entry_views(b),
        entry_views(a).len() == s@.len(),
        forall|i: int| 0 <= i < s@.len() ==> #[trigger] entry_views(a)[i] == (i as usize, s@[i]),
{
}

/// Deleting position `i` keeps the tasks before it where they were and moves
/// each later task down by one position.
pub proof fn lemma_delete_shifts(s: Seq<TaskView>, i: int)
    requires
        0 <= i < s.len(),
    ensures
        s.remove(i).len() == s.len() - 1,
        forall|j: int| 0 <= j < i ==> #[trigger] s.remove(i)[j] == s[j],
        forall|j: int| i <= j < s.len() - 1 ==> #[trigger] s.remove(i)[j] == s[j + 1],
{
}

} // verus!
