use vstd::prelude::*;
use crate::number::{i32_of, parse_i32, parse_usize, usize_of};
use crate::store::{TaskStore, fresh};
use crate::task::{TaskStatus, TaskView, updated};

verus! {

/// What the session waits for next; each stage has its own prompt.
#[derive(Debug, Clone, Copy, PartialEq, Eq, Structural)]
pub enum Stage {
    /// A one-letter command.
    Menu,
    /// The description of a new task.
    Description,
    /// The priority of the new task.
    Priority,
    /// The position of the task to delete; an empty line cancels.
    DeleteIndex,
    /// The position of the task to update; an empty line cancels.
    UpdateIndex,
    /// The new status of the task at this position.
    Status(usize),
}

/// What the session reports to the user after a line.
#[derive(Debug, Clone, Copy, PartialEq, Eq, Structural)]
pub enum Notice {
    /// Show every task with its position.
    List,
    ListEmpty,
    UnknownCommand,
    /// The line should have held a number and does not.
    BadNumber,
    TaskAdded,
    TaskRemoved,
    TaskUpdated,
    NotFound,
    Cancelled,
    Exiting,
}

/// The commands of the menu.
#[derive(Debug, Clone, Copy, PartialEq, Eq, Structural)]
pub enum Command {
    Show,
    Create,
    Delete,
    Update,
    Exit,
    Unknown,
}

/// Whether `line` is the single letter `lower`, in either case.
pub open spec fn is_letter(line: Seq<char>, lower: char, upper: char) -> bool {
    line.len() == 1 && (line[0] == lower || line[0] == upper)
}

/// The command a line names; letters are matched without regard to case.
pub open spec fn command_of(line: Seq<char>) -> Command {
    if is_letter(line, 's', 'S') {
        Command::Show
    } else if is_letter(line, 'c', 'C') {
        Command::Create
    } else if is_letter(line, 'd', 'D') {
        Command::Delete
    } else if is_letter(line, 'u', 'U') {
        Command::Update
    } else if is_letter(line, 'e', 'E') {
        Command::Exit
    } else {
        Command::Unknown
    }
}

/// The status a one-letter selector names.
pub open spec fn status_choice(line: Seq<char>) -> Option<TaskStatus> {
    if is_letter(line, 'd', 'D') {
        Some(TaskStatus::Done)
    } else if is_letter(line, 'i', 'I') {
        Some(TaskStatus::InProgress)
    } else if is_letter(line, 'p', 'P') {
        Some(TaskStatus::Pending)
    } else {
        None
    }
}

/// Whether `c` is `lower` in either case.
fn letter_is(c: char, lower: char, upper: char) -> (r: bool)
    ensures
        r == (c == lower || c == upper),
{
    c == lower || c == upper
}

/// The command that `line` names.
pub fn read_command(line: &str) -> (r: Command)
    ensures
        r == command_of(line@),
{
    if line.unicode_len() != 1 {
        return Command::Unknown;
    }
    let c = line.get_char(0);
    if letter_is(c, 's', 'S') {
        Command::Show
    } else if letter_is(c, 'c', 'C') {
        Command::Create
    } else if letter_is(c, 'd', 'D') {
        Command::Delete
    } else if letter_is(c, 'u', 'U') {
        Command::Update
    } else if letter_is(c, 'e', 'E') {
        Command::Exit
    } else {
        Command::Unknown
    }
}

/// The status that a one-letter selector names: `d`, `i` or `p`.
pub fn read_status(line: &str) -> (r: Option<TaskStatus>)
    ensures
        r == status_choice(line@),
{
    if line.unicode_len() != 1 {
        return None;
    }
    let c = line.get_char(0);
    if letter_is(c, 'd', 'D') {
        Some(TaskStatus::Done)
    } else if letter_is(c, 'i', 'I') {
        Some(TaskStatus::InProgress)
    } else if letter_is(c, 'p', 'P') {
        Some(TaskStatus::Pending)
    } else {
        None
    }
}

/// The mathematical value of a session.
pub struct SessionView {
    pub tasks: Seq<TaskView>,
    pub stage: Stage,
    /// The description given for the task being created.
    pub draft: Seq<char>,
}

/// What one line of input does: the next session, what is reported, whether
/// the store is to be saved, and whether the program is to end.
pub struct Outcome {
    pub next: SessionView,
    pub notices: Seq<Notice>,
    pub save: bool,
    pub exit: bool,
}

/// A session that stands at a stage that addresses a task addresses one
/// that exists.
pub open spec fn well_formed(v: SessionView) -> bool {
    match v.stage {
        Stage::Status(i) => i < v.tasks.len(),
        _ => true,
    }
}

/// What showing the list reports: the list, or that it is empty.
pub open spec fn shown(tasks: Seq<TaskView>) -> Seq<Notice> {
    if tasks.len() == 0 {
        seq![Notice::ListEmpty]
    } else {
        seq![Notice::List]
    }
}

/// `v` at stage `stage`, all else kept.
pub open spec fn at(v: SessionView, stage: Stage) -> SessionView {
    SessionView { stage, ..v }
}

/// An outcome that neither saves nor ends the program.
pub open spec fn quiet(next: SessionView, notices: Seq<Notice>) -> Outcome {
    Outcome { next, notices, save: false, exit: false }
}

/// An outcome that changed the store: it is saved, and the menu comes back.
pub open spec fn changed(tasks: Seq<TaskView>, notice: Notice) -> Outcome {
    Outcome {
        next: SessionView { tasks, stage: Stage::Menu, draft: Seq::empty() },
        notices: seq![notice],
        save: true,
        exit: false,
    }
}

/// What one line does at the menu.
pub open spec fn on_command(v: SessionView, line: Seq<char>) -> Outcome {
    match command_of(line) {
        Command::Show => quiet(v, shown(v.tasks)),
        Command::Create => quiet(at(v, Stage::Description), seq![]),
        Command::Delete => if v.tasks.len() == 0 {
            quiet(v, seq![Notice::ListEmpty])
        } else {
            quiet(at(v, Stage::DeleteIndex), seq![Notice::List])
        },
        Command::Update => if v.tasks.len() == 0 {
            quiet(v, seq![Notice::ListEmpty])
        } else {
            quiet(at(v, Stage::UpdateIndex), seq![Notice::List])
        },
        Command::Exit => Outcome { next: v, notices: seq![Notice::Exiting], save: true, exit: true },
        Command::Unknown => quiet(v, seq![Notice::UnknownCommand]),
    }
}

/// What one line does where a position is asked for: an empty line cancels,
/// text that is no number is reported and asked for again, and so is a
/// position past the last task.
pub open spec fn on_index(v: SessionView, line: Seq<char>, found: Outcome) -> Outcome {
    if line.len() == 0 {
        quiet(at(v, Stage::Menu), seq![Notice::Cancelled])
    } else {
        match usize_of(line) {
            None => quiet(v, seq![Notice::BadNumber]),
            Some(i) => if i < v.tasks.len() {
                found
            } else {
                quiet(v, seq![Notice::NotFound, Notice::List])
            },
        }
    }
}

/// What one line of input does to a session.
pub open spec fn transition(v: SessionView, line: Seq<char>) -> Outcome {
    match v.stage {
        Stage::Menu => on_command(v, line),
        Stage::Description => quiet(SessionView { stage: Stage::Priority, draft: line, ..v }, seq![]),
        Stage::Priority => match i32_of(line) {
            Some(p) => changed(v.tasks.push(fresh(v.draft, p)), Notice::TaskAdded),
            None => quiet(v, seq![Notice::BadNumber]),
        },
        Stage::DeleteIndex => on_index(
            v,
            line,
            changed(v.tasks.remove(usize_of(line).unwrap() as int), Notice::TaskRemoved),
        ),
        Stage::UpdateIndex => on_index(
            v,
            line,
            quiet(at(v, Stage::Status(usize_of(line).unwrap())), seq![]),
        ),
        Stage::Status(i) => match status_choice(line) {
            Some(s) => changed(
                v.tasks.update(i as int, updated(v.tasks[i as int], Some(s), None)),
                Notice::TaskUpdated,
            ),
            None => quiet(v, seq![Notice::UnknownCommand]),
        },
    }
}

/// What a line left to do for the program around the session.
pub struct Reply {
    pub notices: Vec<Notice>,
    /// The store is to be written to storage.
    pub save: bool,
    /// The program is to end.
    pub exit: bool,
}

/// The interactive session: it owns the store and reads one line at a time.
pub struct Session {
    store: TaskStore,
    stage: Stage,
    draft: String,
}

impl View for Session {
    type V = SessionView;

    closed spec fn view(&self) -> SessionView {
        SessionView { tasks: self.store@, stage: self.stage, draft: self.draft@ }
    }
}

impl Session {
    /// A session over `store`, at the menu.
    pub fn new(store: TaskStore) -> (r: Session)
        ensures
            r@ == (SessionView { tasks: store@, stage: Stage::Menu, draft: Seq::empty() }),
            well_formed(r@),
    {
        Session { store, stage: Stage::Menu, draft: String::new() }
    }

    /// The tasks.
    pub fn store(&self) -> (r: &TaskStore)
        ensures
            r@ == self@.tasks,
    {
        &self.store
    }

    /// What the session waits for.
    pub fn stage(&self) -> (r: Stage)
        ensures
            r == self@.stage,
    {
        self.stage
    }

    fn finish(&mut self, notice: Notice) -> (r: Reply)
        ensures
            final(self)@ == changed(old(self)@.tasks, notice).next,
            r.notices@ == seq![notice],
            r.save,
            !r.exit,
    {
        self.stage = Stage::Menu;
        self.draft = String::new();
        Reply { notices: vec![notice], save: true, exit: false }
    }

    fn stay(&mut self, stage: Stage, notices: Vec<Notice>) -> (r: Reply)
        ensures
            final(self)@ == at(old(self)@, stage),
            r.notices@ == notices@,
            !r.save,
            !r.exit,
    {
        self.stage = stage;
        Reply { notices, save: false, exit: false }
    }

    fn on_command(&mut self, line: &str) -> (r: Reply)
        requires
            old(self)@.stage == Stage::Menu,
        ensures
            final(self)@ == on_command(old(self)@, line@).next,
            r.notices@ == on_command(old(self)@, line@).notices,
            r.save == on_command(old(self)@, line@).save,
            r.exit == on_command(old(self)@, line@).exit,
    {
        match read_command(line) {
            Command::Show => {
                if self.store.is_empty() {
                    self.stay(Stage::Menu, vec![Notice::ListEmpty])
                } else {
                    self.stay(Stage::Menu, vec![Notice::List])
                }
            },
            Command::Create => self.stay(Stage::Description, vec![]),
            Command::Delete => {
                if self.store.is_empty() {
                    self.stay(Stage::Menu, vec![Notice::ListEmpty])
                } else {
                    self.stay(Stage::DeleteIndex, vec![Notice::List])
                }
            },
            Command::Update => {
                if self.store.is_empty() {
                    self.stay(Stage::Menu, vec![Notice::ListEmpty])
                } else {
                    self.stay(Stage::UpdateIndex, vec![Notice::List])
                }
            },
            Command::Exit => Reply { notices: vec![Notice::Exiting], save: true, exit: true },
            Command::Unknown => self.stay(Stage::Menu, vec![Notice::UnknownCommand]),
        }
    }

    /// Reads a position; `Ok` holds one that addresses a task, `Err` what
    /// the line did instead.
    fn on_index(&mut self, line: &str) -> (r: Result<usize, Reply>)
        ensures
            r is Ok ==> final(self)@ == old(self)@ && line@.len() > 0 && usize_of(line@) == Some(
                r->Ok_0,
            ) && r->Ok_0 < old(self)@.tasks.len(),
            r is Err ==> {
                let o = on_index(old(self)@, line@, quiet(old(self)@, seq![]));
                &&& !(line@.len() > 0 && usize_of(line@) is Some && usize_of(line@).unwrap()
                    < old(self)@.tasks.len())
                &&& final(self)@ == o.next
                &&& r->Err_0.notices@ == o.notices
                &&& r->Err_0.save == o.save
                &&& r->Err_0.exit == o.exit
            },
    {
        if line.unicode_len() == 0 {
            return Err(self.stay(Stage::Menu, vec![Notice::Cancelled]));
        }
        let stage = self.stage;
        match parse_usize(line) {
            None => Err(self.stay(stage, vec![Notice::BadNumber])),
            Some(i) => {
                if i < self.store.len() {
                    Ok(i)
                } else {
                    Err(self.stay(stage, vec![Notice::NotFound, Notice::List]))
                }
            },
        }
    }

    /// Takes one line of input (already trimmed) and does what it asks at
    /// the current stage.
    pub fn step(&mut self, line: &str) -> (r: Reply)
        requires
            well_formed(old(self)@),
        ensures
            well_formed(final(self)@),
            final(self)@ == transition(old(self)@, line@).next,
            r.notices@ == transition(old(self)@, line@).notices,
            r.save == transition(old(self)@, line@).save,
            r.exit == transition(old(self)@, line@).exit,
    {
        match self.stage {
            Stage::Menu => self.on_command(line),
            Stage::Description => {
                self.draft = String::from_str(line);
                self.stay(Stage::Priority, vec![])
            },
            Stage::Priority => match parse_i32(line) {
                Some(p) => {
                    let desc = self.draft.clone();
                    self.store.create(desc, p);
                    self.finish(Notice::TaskAdded)
                },
                None => self.stay(Stage::Priority, vec![Notice::BadNumber]),
            },
            Stage::DeleteIndex => match self.on_index(line) {
                Ok(i) => {
                    let _ = self.store.delete(i);
                    self.finish(Notice::TaskRemoved)
                },
                Err(reply) => reply,
            },
            Stage::UpdateIndex => match self.on_index(line) {
                Ok(i) => self.stay(Stage::Status(i), vec![]),
                Err(reply) => reply,
            },
            Stage::Status(i) => match read_status(line) {
                Some(s) => {
                    let _ = self.store.update(i, Some(s), None);
                    self.finish(Notice::TaskUpdated)
                },
                None => self.stay(Stage::Status(i), vec![Notice::UnknownCommand]),
            },
        }
    }
}

} // verus!
