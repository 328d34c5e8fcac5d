use todo_backend::errors::AppError;
use todo_backend::models::CreateTodoParams;
use todo_backend::models::Todo;
use todo_backend::models::UpdateTodoParams;
use todo_backend::routes;
use todo_backend::store::TodoStore;

#[test]
fn home_greeting() {
    assert_eq!(routes::home(), "Welcome to todo backend");
}

#[test]
fn create_assigns_id_and_done_false() {
    let mut store = TodoStore::new();
    let todo = store.create(CreateTodoParams {
        title: String::from("buy milk"),
    });
    assert_eq!(todo.id, 1);
    assert_eq!(todo.title, "buy milk");
    assert!(!todo.done);
}

#[test]
fn create_ignores_supplied_done() {
    let mut store = TodoStore::new();
    let r = routes::handle_create(&mut store, Some(String::from("buy milk")), Some(true));
    let todo = r.ok().expect("create with a title must succeed");
    assert!(!todo.done);
    assert_eq!(todo.title, "buy milk");
    assert_eq!(todo.id, 1);
}

#[test]
fn create_missing_title_is_bad_request_and_no_row() {
    let mut store = TodoStore::new();
    let r = routes::handle_create(&mut store, None, Some(true));
    let err = r.err().expect("create without a title must fail");
    let (status, _) = err.into_response();
    assert_eq!(status, 400);
    assert_eq!(store.list().len(), 0);
}

#[test]
fn update_replaces_both_fields_and_listed_once() {
    let mut store = TodoStore::new();
    let created = store.create(CreateTodoParams {
        title: String::from("buy milk"),
    });
    let updated = store
        .update(
            created.id,
            UpdateTodoParams {
                title: String::from("x"),
                done: true,
            },
        )
        .ok()
        .expect("update of an existing id must succeed");
    assert_eq!(updated.id, created.id);
    assert_eq!(updated.title, "x");
    assert!(updated.done);
    let listed: Vec<Todo> = store.list();
    let hits: Vec<&Todo> = listed.iter().filter(|t| t.id == created.id).collect();
    assert_eq!(hits.len(), 1);
    assert_eq!(hits[0].title, "x");
    assert!(hits[0].done);
}

#[test]
fn update_missing_id_is_404() {
    let mut store = TodoStore::new();
    store.create(CreateTodoParams {
        title: String::from("buy milk"),
    });
    let r = store.update(
        999,
        UpdateTodoParams {
            title: String::from("x"),
            done: true,
        },
    );
    let err = r.err().expect("update of a missing id must fail");
    let (status, body) = err.into_response();
    assert_eq!(status, 404);
    assert_eq!(body.msg, "Todo not found");
}

#[test]
fn update_missing_field_is_bad_request() {
    let mut store = TodoStore::new();
    let created = store.create(CreateTodoParams {
        title: String::from("buy milk"),
    });
    let r = routes::handle_update(&mut store, created.id, Some(String::from("x")), None);
    let err = r.err().expect("update without a done flag must fail");
    let (status, _) = err.into_response();
    assert_eq!(status, 400);
    let listed = store.list();
    assert_eq!(listed[0].title, "buy milk");
    assert!(!listed[0].done);
}

#[test]
fn delete_missing_id_is_404() {
    let mut store = TodoStore::new();
    let r = store.delete(42);
    let err = r.err().expect("delete of a missing id must fail");
    let (status, body) = err.into_response();
    assert_eq!(status, 404);
    assert_eq!(body.msg, "Todo Not Found");
}

#[test]
fn delete_existing_id_then_gone() {
    let mut store = TodoStore::new();
    let a = store.create(CreateTodoParams {
        title: String::from("a"),
    });
    let b = store.create(CreateTodoParams {
        title: String::from("b"),
    });
    assert!(store.delete(a.id).is_ok());
    let listed = store.list();
    assert_eq!(listed.len(), 1);
    assert!(listed.iter().all(|t| t.id != a.id));
    assert_eq!(listed[0].id, b.id);
}

#[test]
fn n_creates_list_n_unique_ids() {
    let mut store = TodoStore::new();
    for i in 0..5 {
        store.create(CreateTodoParams {
            title: format!("task {}", i),
        });
    }
    let listed = store.list();
    assert_eq!(listed.len(), 5);
    for i in 0..listed.len() {
        for j in 0..i {
            assert_ne!(listed[i].id, listed[j].id);
        }
    }
}

#[test]
fn duplicate_titles_create_duplicate_rows() {
    let mut store = TodoStore::new();
    store.create(CreateTodoParams {
        title: String::from("same"),
    });
    store.create(CreateTodoParams {
        title: String::from("same"),
    });
    let listed = store.list();
    assert_eq!(listed.len(), 2);
    assert_ne!(listed[0].id, listed[1].id);
    assert_eq!(listed[0].title, listed[1].title);
}

#[test]
fn list_outcome_passes_rows_through() {
    let rows = vec![Todo {
        id: 7,
        title: String::from("keep"),
        done: true,
    }];
    let r = routes::list_todos(Ok(rows));
    let listed = r.ok().expect("a fetched row set passes through");
    assert_eq!(listed.len(), 1);
    assert_eq!(listed[0].id, 7);
    assert_eq!(listed[0].title, "keep");
    assert!(listed[0].done);
}

#[test]
fn list_outcome_failure_is_500() {
    let r = routes::list_todos(Err(String::from("boom")));
    let err = r.err().expect("a storage failure must map to an error");
    match &err {
        AppError::InternalError(msg) => assert_eq!(msg, "boom"),
        _ => panic!("expected InternalError"),
    }
    let (status, body) = err.into_response();
    assert_eq!(status, 500);
    assert_eq!(body.msg, "boom");
}

#[test]
fn create_outcome_failure_is_500() {
    let r = routes::create_todo(Err(String::from("db down")));
    let (status, body) = r.err().expect("failure maps to an error").into_response();
    assert_eq!(status, 500);
    assert_eq!(body.msg, "db down");
}

#[test]
fn update_outcome_failure_is_404() {
    let r = routes::update_todo(Err(String::from("no rows returned")));
    let (status, body) = r.err().expect("failure maps to an error").into_response();
    assert_eq!(status, 404);
    assert_eq!(body.msg, "Todo not found");
}

#[test]
fn delete_outcome_zero_rows_is_404() {
    let r = routes::delete_todo(Ok(0));
    let (status, body) = r.err().expect("zero rows maps to an error").into_response();
    assert_eq!(status, 404);
    assert_eq!(body.msg, "Todo Not Found");
}

#[test]
fn delete_outcome_success_is_200_confirmation() {
    let r = routes::delete_todo(Ok(1));
    let (status, text) = r.ok().expect("a positive row count succeeds");
    assert_eq!(status, 200);
    assert_eq!(text, "Todo has been deleted");
}

#[test]
fn delete_outcome_failure_is_500() {
    let r = routes::delete_todo(Err(String::from("disk full")));
    let (status, body) = r.err().expect("failure maps to an error").into_response();
    assert_eq!(status, 500);
    assert_eq!(body.msg, "disk full");
}
