use task_service::handlers::{
    create_task, delete_task, error_response, get_tasks, health_check, update_task, Body,
    Response,
};
use task_service::request::{new_task, parse_task_id, CreateBody};
use task_service::store::{TaskError, TaskTable};
use task_service::task::{CreateTask, Task, UpdateTask};

fn buy_milk() -> CreateTask {
    CreateTask { title: "Buy milk".to_string(), description: None }
}

fn no_patch() -> UpdateTask {
    UpdateTask { title: None, description: None, completed: None }
}

fn one_task(r: &Response) -> &Task {
    match &r.body {
        Body::One(t) => t,
        other => panic!("expected one task, got {:?}", other),
    }
}

#[test]
fn post_creates_first_task() {
    let mut table = TaskTable::new();
    let body = CreateBody { title: Some("Buy milk".to_string()), description: None };
    let r = create_task(table.create(&new_task(body).unwrap()));
    assert_eq!(r.status, 201);
    let t = one_task(&r);
    assert_eq!(t.id, 1);
    assert_eq!(t.title, "Buy milk");
    assert_eq!(t.description, None);
    assert_eq!(t.completed, None);
}

#[test]
fn put_sets_completed() {
    let mut table = TaskTable::new();
    table.create(&buy_milk()).unwrap();
    let id = parse_task_id("1").unwrap();
    let patch = UpdateTask { title: None, description: None, completed: Some(true) };
    let r = update_task(table.update(id, &patch));
    assert_eq!(r.status, 200);
    let t = one_task(&r);
    assert_eq!(t.id, 1);
    assert_eq!(t.title, "Buy milk");
    assert_eq!(t.description, None);
    assert_eq!(t.completed, Some(true));
}

#[test]
fn delete_missing_is_not_found() {
    let mut table = TaskTable::new();
    table.create(&buy_milk()).unwrap();
    let id = parse_task_id("999").unwrap();
    let r = delete_task(Ok(table.delete(id)));
    assert_eq!(r.status, 404);
    assert!(matches!(r.body, Body::Empty));
}

#[test]
fn list_empty_table() {
    let table = TaskTable::new();
    let r = get_tasks(Ok(table.list_all()));
    assert_eq!(r.status, 200);
    match r.body {
        Body::Many(ts) => assert!(ts.is_empty()),
        other => panic!("expected a list, got {:?}", other),
    }
}

#[test]
fn post_without_title_is_rejected() {
    let body = CreateBody { title: None, description: None };
    let e = new_task(body).unwrap_err();
    assert_eq!(e, TaskError::Validation);
    let r = error_response(e);
    assert_eq!(r.status, 400);
}

#[test]
fn created_task_is_listed_with_fresh_id() {
    let mut table = TaskTable::new();
    let first = table.create(&buy_milk()).unwrap();
    let second = table
        .create(&CreateTask { title: "Walk dog".to_string(), description: Some("park".to_string()) })
        .unwrap();
    assert_ne!(first.id, second.id);
    let listed = table.list_all();
    assert_eq!(listed.len(), 2);
    let found = listed.iter().find(|t| t.id == second.id).unwrap();
    assert_eq!(found.title, "Walk dog");
    assert_eq!(found.description, Some("park".to_string()));
    assert_eq!(found.completed, None);
}

#[test]
fn partial_patch_keeps_other_fields() {
    let mut table = TaskTable::new();
    table
        .create(&CreateTask { title: "Read".to_string(), description: Some("a book".to_string()) })
        .unwrap();
    let patch = UpdateTask { title: Some("Read more".to_string()), description: None, completed: None };
    let t = table.update(1, &patch).unwrap();
    assert_eq!(t.title, "Read more");
    assert_eq!(t.description, Some("a book".to_string()));
    assert_eq!(t.completed, None);
    let listed = table.list_all();
    assert_eq!(listed[0].title, "Read more");
    assert_eq!(listed[0].description, Some("a book".to_string()));
}

#[test]
fn empty_patch_succeeds_and_changes_nothing() {
    let mut table = TaskTable::new();
    table
        .create(&CreateTask { title: "Read".to_string(), description: Some("a book".to_string()) })
        .unwrap();
    let t = table.update(1, &no_patch()).unwrap();
    assert_eq!(t.id, 1);
    assert_eq!(t.title, "Read");
    assert_eq!(t.description, Some("a book".to_string()));
    assert_eq!(t.completed, None);
}

#[test]
fn update_of_missing_row() {
    let mut table = TaskTable::new();
    let r = table.update(7, &no_patch());
    assert_eq!(r.unwrap_err(), TaskError::NotFound);
    let resp = update_task(Err(TaskError::NotFound));
    assert_eq!(resp.status, 500);
}

#[test]
fn delete_twice_reports_then_misses() {
    let mut table = TaskTable::new();
    table.create(&buy_milk()).unwrap();
    assert!(table.delete(1));
    assert_eq!(delete_task(Ok(true)).status, 204);
    assert!(!table.delete(1));
    assert_eq!(delete_task(Ok(false)).status, 404);
    assert!(table.list_all().is_empty());
}

#[test]
fn ids_are_not_reused_after_delete() {
    let mut table = TaskTable::new();
    table.create(&buy_milk()).unwrap();
    table.delete(1);
    let t = table.create(&buy_milk()).unwrap();
    assert_eq!(t.id, 2);
}

#[test]
fn round_trip_of_created_task() {
    let mut table = TaskTable::new();
    let created = table
        .create(&CreateTask { title: "Plan".to_string(), description: Some("trip".to_string()) })
        .unwrap();
    let listed = table.list_all();
    assert_eq!(listed.len(), 1);
    assert_eq!(listed[0].id, created.id);
    assert_eq!(listed[0].title, created.title);
    assert_eq!(listed[0].description, created.description);
}

#[test]
fn health_check_text() {
    let r = health_check();
    assert_eq!(r.status, 200);
    match r.body {
        Body::Message(m) => assert_eq!(m, "Server is running"),
        other => panic!("expected a message, got {:?}", other),
    }
}

#[test]
fn store_failures_are_generic() {
    for r in [
        get_tasks(Err(TaskError::Store)),
        create_task(Err(TaskError::Store)),
        update_task(Err(TaskError::Store)),
        delete_task(Err(TaskError::Store)),
        error_response(TaskError::Store),
    ] {
        assert_eq!(r.status, 500);
        match r.body {
            Body::Message(m) => assert_eq!(m, "Database error"),
            other => panic!("expected a message, got {:?}", other),
        }
    }
}

#[test]
fn error_statuses() {
    assert_eq!(error_response(TaskError::Validation).status, 400);
    assert_eq!(error_response(TaskError::NotFound).status, 404);
}

#[test]
fn parse_ids() {
    assert_eq!(parse_task_id("42"), Ok(42));
    assert_eq!(parse_task_id("+7"), Ok(7));
    assert_eq!(parse_task_id("-3"), Ok(-3));
    assert_eq!(parse_task_id("007"), Ok(7));
    assert_eq!(parse_task_id("2147483647"), Ok(2147483647));
    assert_eq!(parse_task_id("-2147483648"), Ok(-2147483648));
}

#[test]
fn parse_rejects_malformed_ids() {
    for s in ["", "-", "+", "abc", "1a", " 1", "1.0", "2147483648", "-2147483649", "99999999999999999999"] {
        assert_eq!(parse_task_id(s), Err(TaskError::Validation), "{}", s);
    }
}

#[test]
fn list_keeps_all_rows() {
    let mut table = TaskTable::new();
    table.create(&buy_milk()).unwrap();
    table.create(&buy_milk()).unwrap();
    table.create(&buy_milk()).unwrap();
    table.delete(2);
    let r = get_tasks(Ok(table.list_all()));
    match r.body {
        Body::Many(ts) => {
            let ids: Vec<i32> = ts.iter().map(|t| t.id).collect();
            assert_eq!(ids, vec![1, 3]);
        }
        other => panic!("expected a list, got {:?}", other),
    }
}
