use vstd::prelude::*;

use crate::errors::AppError;
use crate::errors::ErrorView;
use crate::models::CreateTodoParams;
use crate::models::Todo;
use crate::models::TodoView;
use crate::models::UpdateTodoParams;

verus! {

/// Abstract state of the table: the records it holds, in storage order, and
/// the id the next created record will receive.
#[verifier::ext_equal]
pub struct StoreView {
    pub todos: Seq<TodoView>,
    pub next_id: int,
}

/// No two records share an id.
pub open spec fn unique_ids(todos: Seq<TodoView>) -> bool {
    forall|i: int, j: int|
        0 <= i < j < todos.len() ==> todos[i].id != todos[j].id
}

impl StoreView {
    /// The table invariant: ids are unique, and every id was assigned by the
    /// store, so it lies in `1 ..= next_id - 1`.
    pub open spec fn wf(self) -> bool {
        &&& 1 <= self.next_id
        &&& unique_ids(self.todos)
        &&& forall|i: int|
            0 <= i < self.todos.len() ==> 1 <= (#[trigger] self.todos[i]).id < self.next_id
    }

    /// Whether some record has the given id.
    pub open spec fn contains_id(self, id: int) -> bool {
        exists|i: int| 0 <= i < self.todos.len() && (#[trigger] self.todos[i]).id == id
    }

    /// The index of the record with the given id (unique under `wf`).
    pub open spec fn idx_of(self, id: int) -> int {
        choose|i: int| 0 <= i < self.todos.len() && (#[trigger] self.todos[i]).id == id
    }
}

/// Effect of a successful create: a fresh record with the next id, the given
/// title and `done == false` is appended, and the id counter advances.
pub open spec fn spec_create(m: StoreView, title: Seq<char>) -> StoreView {
    StoreView {
        todos: m.todos.push(TodoView { id: m.next_id, title, done: false }),
        next_id: m.next_id + 1,
    }
}

/// Effect of an update that found its row: every record with the given id
/// (exactly one, under `wf`) is fully replaced; everything else is unchanged.
pub open spec fn spec_update(m: StoreView, id: int, title: Seq<char>, done: bool) -> StoreView {
    StoreView {
        todos: Seq::new(
            m.todos.len(),
            |i: int|
                if m.todos[i].id == id {
                    TodoView { id, title, done }
                } else {
                    m.todos[i]
                },
        ),
        next_id: m.next_id,
    }
}

/// Effect of a delete that found its row: the record with the given id is
/// removed; everything else keeps its relative order.
pub open spec fn spec_delete(m: StoreView, id: int) -> StoreView {
    StoreView { todos: m.todos.remove(m.idx_of(id)), next_id: m.next_id }
}

/// A create preserves the table invariant.
pub proof fn lemma_spec_create_wf(m: StoreView, title: Seq<char>)
    requires
        m.wf(),
    ensures
        spec_create(m, title).wf(),
        spec_create(m, title).todos.len() == m.todos.len() + 1,
{
    let m1 = spec_create(m, title);
    assert forall|i: int, j: int| 0 <= i < j < m1.todos.len() implies m1.todos[i].id
        != m1.todos[j].id by {
        if j == m.todos.len() {
            assert(m1.todos[i] == m.todos[i]);
        }
    }
}

/// The in-memory model of the one-table store: what a correct storage layer
/// does for each operation the handlers issue. Creation assigns ids the way
/// an integer primary key does: consecutively, starting at 1.
pub struct TodoStore {
    todos: Vec<Todo>,
    next_id: i64,
}

impl View for TodoStore {
    type V = StoreView;

    closed spec fn view(&self) -> StoreView {
        StoreView {
            todos: self.todos@.map_values(|t: Todo| t@),
            next_id: self.next_id as int,
        }
    }
}

impl TodoStore {
    /// An empty store; the first created record gets id 1.
    pub fn new() -> (s: TodoStore)
        ensures
            s@.todos == Seq::<TodoView>::empty(),
            s@.next_id == 1,
            s@.wf(),
    {
        let s = TodoStore { todos: Vec::new(), next_id: 1 };
        proof {
            assert(s@.todos =~= Seq::<TodoView>::empty());
        }
        s
    }

    /// The full-table scan behind `GET /todos`: every record, in storage
    /// order, with no filtering or pagination.
    pub fn list(&self) -> (r: Vec<Todo>)
        ensures
            r@.len() == self@.todos.len(),
            forall|i: int| 0 <= i < r@.len() ==> (#[trigger] r@[i])@ == self@.todos[i],
    {
        let mut out: Vec<Todo> = Vec::new();
        let n = self.todos.len();
        let mut i: usize = 0;
        while i < n
            invariant
                n == self.todos.len(),
                i <= n,
                out@.len() == i,
                forall|j: int| 0 <= j < i ==> (#[trigger] out@[j])@ == self@.todos[j],
            decreases n - i,
        {
            out.push(self.todos[i].duplicate());
            i = i + 1;
        }
        out
    }

    /// The insert behind `POST /todos`: stores the given title with
    /// `done == false` (whatever the caller sent), under a fresh id, and
    /// returns the created record.
    pub fn create(&mut self, params: CreateTodoParams) -> (t: Todo)
        requires
            old(self)@.wf(),
            old(self)@.next_id < i64::MAX,
        ensures
            final(self)@ == spec_create(old(self)@, params.title@),
            final(self)@.wf(),
            t@ == (TodoView { id: old(self)@.next_id, title: params.title@, done: false }),
    {
        let id = self.next_id;
        self.next_id = self.next_id + 1;
        let created = Todo { id, title: params.title, done: false };
        let out = created.duplicate();
        self.todos.push(created);
        proof {
            assert(self@.todos =~= spec_create(old(self)@, params.title@).todos);
            assert(self@ =~= spec_create(old(self)@, params.title@));
            lemma_spec_create_wf(old(self)@, params.title@);
        }
        out
    }

    /// The row update behind `PUT /todos/{id}`: if a record with the id
    /// exists, both fields are replaced and the updated record is returned;
    /// otherwise the store is unchanged and the caller gets the not-found
    /// error, exactly as the handler maps it.
    pub fn update(&mut self, id: i64, params: UpdateTodoParams) -> (r: Result<Todo, AppError>)
        requires
            old(self)@.wf(),
        ensures
            final(self)@.wf(),
            old(self)@.contains_id(id as int) ==> {
                &&& final(self)@ == spec_update(old(self)@, id as int, params.title@, params.done)
                &&& r matches Ok(t) && t@ == (TodoView {
                    id: id as int,
                    title: params.title@,
                    done: params.done,
                })
            },
            !old(self)@.contains_id(id as int) ==> {
                &&& final(self)@ == old(self)@
                &&& r matches Err(e) && e@ == ErrorView::NotFound("Todo not found"@)
            },
    {
        let n = self.todos.len();
        let mut i: usize = 0;
        while i < n
            invariant
                old(self)@.wf(),
                *self == *old(self),
                n == self.todos.len(),
                i <= n,
                forall|j: int| 0 <= j < i ==> (#[trigger] old(self)@.todos[j]).id != id as int,
            decreases n - i,
        {
            if self.todos[i].id == id {
                let replacement = Todo { id, title: params.title, done: params.done };
                let out = replacement.duplicate();
                self.todos[i] = replacement;
                proof {
                    let m = old(self)@;
                    assert(m.todos[i as int].id == id as int);
                    assert(m.contains_id(id as int));
                    let target = spec_update(m, id as int, params.title@, params.done);
                    assert forall|j: int| 0 <= j < m.todos.len() implies self@.todos[j]
                        == target.todos[j] by {
                        if j != i as int {
                            if j < i as int {
                                assert(m.todos[j].id != m.todos[i as int].id);
                            } else {
                                assert(m.todos[i as int].id != m.todos[j].id);
                            }
                        }
                    }
                    assert(self@.todos =~= target.todos);
                    assert(self@ =~= target);
                    assert forall|a: int, b: int| 0 <= a < b < target.todos.len() implies
                        target.todos[a].id != target.todos[b].id by {
                        assert(target.todos[a].id == m.todos[a].id);
                        assert(target.todos[b].id == m.todos[b].id);
                    }
                    assert forall|a: int| 0 <= a < target.todos.len() implies 1 <= (
                    #[trigger] target.todos[a]).id < target.next_id by {
                        assert(target.todos[a].id == m.todos[a].id);
                    }
                }
                return Ok(out);
            }
            i = i + 1;
        }
        Err(AppError::NotFound("Todo not found".to_owned()))
    }

    /// The row delete behind `DELETE /todos/{id}`: if a record with the id
    /// exists it is removed — afterwards no record has that id — and the rest
    /// keep their order; otherwise the store is unchanged and the caller gets
    /// the not-found error, exactly as the handler maps a zero-row delete.
    pub fn delete(&mut self, id: i64) -> (r: Result<(), AppError>)
        requires
            old(self)@.wf(),
        ensures
            final(self)@.wf(),
            old(self)@.contains_id(id as int) ==> {
                &&& final(self)@ == spec_delete(old(self)@, id as int)
                &&& final(self)@.todos.len() == old(self)@.todos.len() - 1
                &&& !final(self)@.contains_id(id as int)
                &&& r is Ok
            },
            !old(self)@.contains_id(id as int) ==> {
                &&& final(self)@ == old(self)@
                &&& r matches Err(e) && e@ == ErrorView::NotFound("Todo Not Found"@)
            },
    {
        let n = self.todos.len();
        let mut i: usize = 0;
        while i < n
            invariant
                old(self)@.wf(),
                *self == *old(self),
                n == self.todos.len(),
                i <= n,
                forall|j: int| 0 <= j < i ==> (#[trigger] old(self)@.todos[j]).id != id as int,
            decreases n - i,
        {
            if self.todos[i].id == id {
                self.todos.remove(i);
                proof {
                    let m = old(self)@;
                    assert(m.todos[i as int].id == id as int);
                    assert(m.contains_id(id as int));
                    let k = m.idx_of(id as int);
                    assert(0 <= k < m.todos.len() && m.todos[k].id == id as int);
                    if k != i as int {
                        assert(m.todos[k].id != m.todos[i as int].id);
                    }
                    assert(k == i as int);
                    assert(self@.todos =~= m.todos.remove(i as int));
                    assert(self@ =~= spec_delete(m, id as int));
                    let t = self@.todos;
                    assert forall|a: int| 0 <= a < t.len() implies (#[trigger] t[a]).id != id
                        as int by {
                        if a < i as int {
                            assert(t[a] == m.todos[a]);
                            assert(m.todos[a].id != m.todos[i as int].id);
                        } else {
                            assert(t[a] == m.todos[a + 1]);
                            assert(m.todos[i as int].id != m.todos[a + 1].id);
                        }
                    }
                    assert forall|a: int, b: int| 0 <= a < b < t.len() implies t[a].id
                        != t[b].id by {
                        let ma = if a < i as int { a } else { a + 1 };
                        let mb = if b < i as int { b } else { b + 1 };
                        assert(t[a] == m.todos[ma]);
                        assert(t[b] == m.todos[mb]);
                    }
                    assert forall|a: int| 0 <= a < t.len() implies 1 <= (#[trigger] t[a]).id
                        < self@.next_id by {
                        let ma = if a < i as int { a } else { a + 1 };
                        assert(t[a] == m.todos[ma]);
                    }
                }
                return Ok(());
            }
            i = i + 1;
        }
        Err(AppError::NotFound("Todo Not Found".to_owned()))
    }
}

} // verus!
