use vstd::prelude::*;

use crate::errors::AppError;
use crate::errors::ErrorView;
use crate::models::CreateTodoParams;
use crate::models::Todo;
use crate::models::TodoView;
use crate::models::UpdateTodoParams;
use crate::store::spec_create;
use crate::store::spec_update;
use crate::store::StoreView;
use crate::store::TodoStore;

verus! {

/// The view of an optional body field.
pub open spec fn field_view(o: Option<String>) -> Option<Seq<char>> {
    match o {
        Some(s) => Some(s@),
        None => None,
    }
}

/// Effect on the table of a create request whose body carried the given
/// fields: a present title is stored, a missing title changes nothing.
/// The `done` field plays no part (see `lemma_create_ignores_done`).
pub open spec fn spec_handle_create(
    m: StoreView,
    title: Option<Seq<char>>,
    done: Option<bool>,
) -> StoreView {
    match title {
        Some(t) => spec_create(m, t),
        None => m,
    }
}

/// `GET /`: the plain-text greeting.
pub fn home() -> (r: String)
    ensures
        r@ == "Welcome to todo backend"@,
{
    "Welcome to todo backend".to_owned()
}

/// `GET /todos`, after the storage round trip: a fetched row set is returned
/// as is; any storage failure becomes InternalError, message kept verbatim.
pub fn list_todos(outcome: Result<Vec<Todo>, String>) -> (r: Result<Vec<Todo>, AppError>)
    ensures
        outcome matches Ok(todos) ==> (r matches Ok(v) && v == todos),
        outcome matches Err(e) ==> (r matches Err(err) && err@ == ErrorView::InternalError(e@)),
{
    match outcome {
        Ok(todos) => Ok(todos),
        Err(e) => Err(AppError::InternalError(e)),
    }
}

/// `POST /todos`, after the storage round trip: the inserted row is returned
/// as is; any storage failure becomes InternalError, message kept verbatim.
pub fn create_todo(outcome: Result<Todo, String>) -> (r: Result<Todo, AppError>)
    ensures
        outcome matches Ok(todo) ==> (r matches Ok(t) && t == todo),
        outcome matches Err(e) ==> (r matches Err(err) && err@ == ErrorView::InternalError(e@)),
{
    match outcome {
        Ok(todo) => Ok(todo),
        Err(e) => Err(AppError::InternalError(e)),
    }
}

/// `PUT /todos/{id}`, after the storage round trip: the updated row is
/// returned as is; a storage failure on this call — a missing row included —
/// becomes NotFound with the fixed message, the underlying error discarded.
pub fn update_todo(outcome: Result<Todo, String>) -> (r: Result<Todo, AppError>)
    ensures
        outcome matches Ok(todo) ==> (r matches Ok(t) && t == todo),
        outcome is Err ==> (r matches Err(err) && err@ == ErrorView::NotFound("Todo not found"@)),
{
    match outcome {
        Ok(todo) => Ok(todo),
        Err(_) => Err(AppError::NotFound("Todo not found".to_owned())),
    }
}

/// `DELETE /todos/{id}`, after the storage round trip: zero affected rows is
/// NotFound; a positive count is status 200 with the confirmation text; a
/// storage failure becomes InternalError, message kept verbatim.
pub fn delete_todo(outcome: Result<u64, String>) -> (r: Result<(u16, String), AppError>)
    ensures
        outcome matches Ok(n) && n > 0 ==> (r matches Ok(ok) && ok.0 == 200 && ok.1@
            == "Todo has been deleted"@),
        outcome matches Ok(n) && n == 0 ==> (r matches Err(err) && err@ == ErrorView::NotFound(
            "Todo Not Found"@,
        )),
        outcome matches Err(e) ==> (r matches Err(err) && err@ == ErrorView::InternalError(e@)),
{
    match outcome {
        Ok(n) => {
            if n == 0 {
                Err(AppError::NotFound("Todo Not Found".to_owned()))
            } else {
                Ok((200, "Todo has been deleted".to_owned()))
            }
        },
        Err(e) => Err(AppError::InternalError(e)),
    }
}

/// A whole create request against the store model: body-shape validation
/// (title mandatory) followed by the insert. The `done` argument stands for
/// a done field the caller may have sent; the outcome never depends on it —
/// no clause below mentions it — and a created record always starts with
/// `done == false`.
pub fn handle_create(store: &mut TodoStore, title: Option<String>, done: Option<bool>) -> (r:
    Result<Todo, AppError>)
    requires
        old(store)@.wf(),
        old(store)@.next_id < i64::MAX,
    ensures
        final(store)@.wf(),
        final(store)@ == spec_handle_create(old(store)@, field_view(title), done),
        title matches Some(t) ==> (r matches Ok(todo) && todo@ == (TodoView {
            id: old(store)@.next_id,
            title: t@,
            done: false,
        })),
        title is None ==> (r matches Err(e) && e@ == ErrorView::BadRequest(
            "malformed request body"@,
        )),
{
    match title {
        Some(t) => Ok(store.create(CreateTodoParams { title: t })),
        None => Err(AppError::BadRequest("malformed request body".to_owned())),
    }
}

/// A whole update request against the store model: body-shape validation
/// (title and done both mandatory, full replace) followed by the row update.
pub fn handle_update(store: &mut TodoStore, id: i64, title: Option<String>, done: Option<bool>)
    -> (r: Result<Todo, AppError>)
    requires
        old(store)@.wf(),
    ensures
        final(store)@.wf(),
        title is None || done is None ==> {
            &&& final(store)@ == old(store)@
            &&& r matches Err(e) && e@ == ErrorView::BadRequest("malformed request body"@)
        },
        title matches Some(t) ==> done matches Some(d) ==> {
            &&& old(store)@.contains_id(id as int) ==> {
                &&& final(store)@ == spec_update(old(store)@, id as int, t@, d)
                &&& r matches Ok(todo) && todo@ == (TodoView { id: id as int, title: t@, done: d })
            }
            &&& !old(store)@.contains_id(id as int) ==> {
                &&& final(store)@ == old(store)@
                &&& r matches Err(e) && e@ == ErrorView::NotFound("Todo not found"@)
            }
        },
{
    match (title, done) {
        (Some(t), Some(d)) => store.update(id, UpdateTodoParams { title: t, done: d }),
        _ => Err(AppError::BadRequest("malformed request body".to_owned())),
    }
}

} // verus!
