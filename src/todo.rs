use vstd::prelude::*;

verus! {

/// The stage a task has reached. Any stage may follow any other.
#[derive(Clone, Copy, Debug, PartialEq, Eq, Structural)]
pub enum Status {
    NotStarted,
    InProgress,
    Completed,
}

/// The abstract value of a task: its description as characters, and its status.
pub struct TodoModel {
    pub description: Seq<char>,
    pub status: Status,
}

/// A single task.
pub struct Todo {
    pub description: String,
    pub status: Status,
}

impl View for Todo {
    type V = TodoModel;

    open spec fn view(&self) -> TodoModel {
        TodoModel { description: self.description@, status: self.status }
    }
}

impl Todo {
    /// A fresh task with the given description; every new task is not started.
    pub fn new(description: String) -> (r: Todo)
        ensures
            r@ == fresh_todo(description@),
    {
        Todo { description, status: Status::NotStarted }
    }

    /// Marks the task as completed; the description is kept.
    pub fn mark_completed(&mut self)
        ensures
            final(self)@ == with_status(old(self)@, Status::Completed),
    {
        self.status = Status::Completed;
    }

    /// Marks the task as in progress; the description is kept.
    pub fn mark_in_progress(&mut self)
        ensures
            final(self)@ == with_status(old(self)@, Status::InProgress),
    {
        self.status = Status::InProgress;
    }
}

/// Why an operation on a task list was refused.
#[derive(Clone, Copy, Debug, PartialEq, Eq, Structural)]
pub enum TodoError {
    /// The position names no task of the list.
    InvalidIndex,
}

/// The abstract value of `t` with its status replaced by `status`.
pub open spec fn with_status(t: TodoModel, status: Status) -> TodoModel {
    TodoModel { status, ..t }
}

/// A new task as the list stores it.
pub open spec fn fresh_todo(description: Seq<char>) -> TodoModel {
    TodoModel { description, status: Status::NotStarted }
}

/// An ordered list of tasks, addressed by 0-based position in insertion order.
pub struct TodoList {
    todos: Vec<Todo>,
}

impl View for TodoList {
    type V = Seq<TodoModel>;

    closed spec fn view(&self) -> Seq<TodoModel> {
        self.todos@.map_values(|t: Todo| t@)
    }
}

impl TodoList {
    /// An empty list.
    pub fn new() -> (r: TodoList)
        ensures
            r@ == Seq::<TodoModel>::empty(),
    {
        let r = TodoList { todos: Vec::new() };
        assert(r@ =~= Seq::<TodoModel>::empty());
        r
    }

    /// The number of tasks.
    pub fn len(&self) -> (r: usize)
        ensures
            r == self@.len(),
    {
        self.todos.len()
    }

    /// Whether the list holds no task.
    pub fn is_empty(&self) -> (r: bool)
        ensures
            r == (self@.len() == 0),
    {
        self.todos.len() == 0
    }

    /// The task at `index`.
    pub fn get(&self, index: usize) -> (r: &Todo)
        requires
            index < self@.len(),
        ensures
            r@ == self@[index as int],
    {
        &self.todos[index]
    }

    /// Appends a new, not started task with the given description.
    pub fn add(&mut self, description: String)
        ensures
            final(self)@ == old(self)@.push(fresh_todo(description@)),
    {
        let todo = Todo::new(description);
        self.todos.push(todo);
        assert(self@ =~= old(self)@.push(fresh_todo(description@)));
    }

    /// Removes the task at `index`; later tasks move down by one place.
    /// Fails, leaving the list as it was, where `index` names no task.
    pub fn remove(&mut self, index: usize) -> (r: Result<(), TodoError>)
        ensures
            index < old(self)@.len() ==> r is Ok && final(self)@ == old(self)@.remove(index as int),
            index >= old(self)@.len() ==> r == Err::<(), TodoError>(TodoError::InvalidIndex)
                && final(self)@ == old(self)@,
    {
        if index < self.todos.len() {
            self.todos.remove(index);
            assert(self@ =~= old(self)@.remove(index as int));
            Ok(())
        } else {
            Err(TodoError::InvalidIndex)
        }
    }

    /// Marks the task at `index` as completed, leaving the others as they were.
    /// Fails, leaving the list as it was, where `index` names no task.
    pub fn complete(&mut self, index: usize) -> (r: Result<(), TodoError>)
        ensures
            index < old(self)@.len() ==> r is Ok && final(self)@ == old(self)@.update(
                index as int,
                with_status(old(self)@[index as int], Status::Completed),
            ),
            index >= old(self)@.len() ==> r == Err::<(), TodoError>(TodoError::InvalidIndex)
                && final(self)@ == old(self)@,
    {
        if index < self.todos.len() {
            self.todos[index].mark_completed();
            assert(self@ =~= old(self)@.update(
                index as int,
                with_status(old(self)@[index as int], Status::Completed),
            ));
            Ok(())
        } else {
            Err(TodoError::InvalidIndex)
        }
    }

    /// Marks the task at `index` as in progress, leaving the others as they were.
    /// Fails, leaving the list as it was, where `index` names no task.
    pub fn in_progress(&mut self, index: usize) -> (r: Result<(), TodoError>)
        ensures
            index < old(self)@.len() ==> r is Ok && final(self)@ == old(self)@.update(
                index as int,
                with_status(old(self)@[index as int], Status::InProgress),
            ),
            index >= old(self)@.len() ==> r == Err::<(), TodoError>(TodoError::InvalidIndex)
                && final(self)@ == old(self)@,
    {
        if index < self.todos.len() {
            self.todos[index].mark_in_progress();
            assert(self@ =~= old(self)@.update(
                index as int,
                with_status(old(self)@[index as int], Status::InProgress),
            ));
            Ok(())
        } else {
            Err(TodoError::InvalidIndex)
        }
    }
}

} // verus!
