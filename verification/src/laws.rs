use vstd::prelude::*;

use crate::auth::gate_allows;
use crate::errors::msg_of;
use crate::errors::status_of;
use crate::errors::ErrorView;
use crate::models::TodoView;
use crate::routes::spec_handle_create;
use crate::store::lemma_spec_create_wf;
use crate::store::spec_create;
use crate::store::spec_update;
use crate::store::StoreView;

verus! {

/// Law: a request the key check refuses is never a preflight request, and
/// its refusal — always exactly `Unauthorized("Invalid API key")` — maps to
/// status 401 with the body message `Invalid API key`.
pub proof fn lemma_rejected_request_response(
    preflight: bool,
    key: Option<Seq<char>>,
    e: ErrorView,
)
    requires
        !gate_allows(preflight, key),
        e == ErrorView::Unauthorized("Invalid API key"@),
    ensures
        !preflight,
        status_of(e) == 401,
        msg_of(e) == "Invalid API key"@,
{
}

/// Law: a preflight request passes the key check whatever the header holds
/// — present, absent, matching or not.
pub proof fn lemma_preflight_always_allowed(key: Option<Seq<char>>)
    ensures
        gate_allows(true, key),
{
}

/// Law: what a create request does to the table does not depend on any done
/// field the caller supplied; a created record always starts not done.
pub proof fn lemma_create_ignores_done(
    m: StoreView,
    title: Option<Seq<char>>,
    done1: Option<bool>,
    done2: Option<bool>,
)
    ensures
        spec_handle_create(m, title, done1) == spec_handle_create(m, title, done2),
        title matches Some(t) ==> spec_handle_create(m, title, done1).todos.last() == (TodoView {
            id: m.next_id,
            title: t,
            done: false,
        }),
{
}

/// Law: after creating a record and then updating it under its id, the table
/// holds the updated record — new title, new done flag — exactly once: one
/// index carries it and no other index carries that id, so a subsequent
/// listing includes it exactly once.
pub proof fn lemma_update_after_create(
    m: StoreView,
    title: Seq<char>,
    new_title: Seq<char>,
    new_done: bool,
)
    requires
        m.wf(),
    ensures
        ({
            let id = m.next_id;
            let m1 = spec_create(m, title);
            let m2 = spec_update(m1, id, new_title, new_done);
            &&& m1.contains_id(id)
            &&& m2.todos.len() == m1.todos.len()
            &&& exists|i: int|
                {
                    &&& 0 <= i < m2.todos.len()
                    &&& (#[trigger] m2.todos[i]) == (TodoView {
                        id,
                        title: new_title,
                        done: new_done,
                    })
                    &&& forall|j: int|
                        0 <= j < m2.todos.len() && j != i ==> (#[trigger] m2.todos[j]).id != id
                }
        }),
{
    let id = m.next_id;
    let m1 = spec_create(m, title);
    let m2 = spec_update(m1, id, new_title, new_done);
    let k = m.todos.len() as int;
    assert(m1.todos[k].id == id);
    assert(m2.todos[k] == (TodoView { id, title: new_title, done: new_done }));
    assert forall|j: int| 0 <= j < m2.todos.len() && j != k implies (#[trigger] m2.todos[j]).id
        != id by {
        assert(m1.todos[j] == m.todos[j]);
        assert(m.todos[j].id < m.next_id);
    }
}

/// Law: an update aimed at an id the table does not hold leaves the table as
/// it was, and its error — `NotFound("Todo not found")` — maps to status 404
/// with the body message `Todo not found`.
pub proof fn lemma_update_missing_response(m: StoreView, id: int, e: ErrorView)
    requires
        !m.contains_id(id),
        e == ErrorView::NotFound("Todo not found"@),
    ensures
        status_of(e) == 404,
        msg_of(e) == "Todo not found"@,
{
}

/// Law: a delete aimed at an id the table does not hold maps to status 404;
/// and once no record carries an id, no listing includes it: every listed
/// record carries some other id.
pub proof fn lemma_deleted_id_not_listed(m: StoreView, id: int, e: ErrorView)
    requires
        !m.contains_id(id),
        e == ErrorView::NotFound("Todo Not Found"@),
    ensures
        status_of(e) == 404,
        forall|i: int| 0 <= i < m.todos.len() ==> (#[trigger] m.todos[i]).id != id,
{
}

/// Law: a create request whose body misses the title is refused as a bad
/// request — status 400 — and creates no row (`spec_handle_create` leaves
/// the table untouched for a missing title).
pub proof fn lemma_malformed_create(m: StoreView, done: Option<bool>, e: ErrorView)
    requires
        e == ErrorView::BadRequest("malformed request body"@),
    ensures
        spec_handle_create(m, None, done) == m,
        status_of(e) == 400,
{
}

/// The table after a run of successful creates, one per title, in order.
pub open spec fn spec_create_all(m: StoreView, titles: Seq<Seq<char>>) -> StoreView
    decreases titles.len(),
{
    if titles.len() == 0 {
        m
    } else {
        spec_create_all(spec_create(m, titles[0]), titles.drop_first())
    }
}

/// Law: after N successful creates and no deletes, the table holds exactly N
/// more records, and — the invariant being preserved — every record still
/// carries a unique id.
pub proof fn lemma_create_all(m: StoreView, titles: Seq<Seq<char>>)
    requires
        m.wf(),
    ensures
        spec_create_all(m, titles).wf(),
        spec_create_all(m, titles).todos.len() == m.todos.len() + titles.len(),
    decreases titles.len(),
{
    if titles.len() == 0 {
    } else {
        lemma_spec_create_wf(m, titles[0]);
        lemma_create_all(spec_create(m, titles[0]), titles.drop_first());
    }
}

} // verus!
