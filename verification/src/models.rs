use vstd::prelude::*;

verus! {

/// Abstract value of a todo record: its id, title text and done flag.
pub struct TodoView {
    pub id: int,
    pub title: Seq<char>,
    pub done: bool,
}

/// The persisted entity: a titled task with a completion flag.
///
/// `id` is unique in the store and assigned on creation; `title` is always
/// present; `done` defaults to false at creation.
pub struct Todo {
    pub id: i64,
    pub title: String,
    pub done: bool,
}

impl View for Todo {
    type V = TodoView;

    open spec fn view(&self) -> TodoView {
        TodoView { id: self.id as int, title: self.title@, done: self.done }
    }
}

impl Todo {
    /// An equal copy of the record.
    pub fn duplicate(&self) -> (t: Todo)
        ensures
            t@ == self@,
    {
        Todo { id: self.id, title: self.title.clone(), done: self.done }
    }
}

/// Input shape for creation: only a title. No done flag is accepted;
/// a created todo always starts with `done == false`.
pub struct CreateTodoParams {
    pub title: String,
}

/// Input shape for update: both fields mandatory, full replace semantics.
pub struct UpdateTodoParams {
    pub title: String,
    pub done: bool,
}

} // verus!
