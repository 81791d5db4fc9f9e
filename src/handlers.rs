use vstd::prelude::*;
use crate::store::{TaskError, row_views};
use crate::task::{Task, TaskView};

verus! {

/// What a response carries: nothing, a plain message, one task, or a list.
#[derive(Debug)]
pub enum Body {
    Empty,
    Message(String),
    One(Task),
    Many(Vec<Task>),
}

pub enum BodyView {
    Empty,
    Message(Seq<char>),
    One(TaskView),
    Many(Seq<TaskView>),
}

impl View for Body {
    type V = BodyView;

    open spec fn view(&self) -> BodyView {
        match self {
            Body::Empty => BodyView::Empty,
            Body::Message(m) => BodyView::Message(m@),
            Body::One(t) => BodyView::One(t@),
            Body::Many(ts) => BodyView::Many(row_views(ts@)),
        }
    }
}

/// An HTTP status code and the body that goes with it.
#[derive(Debug)]
pub struct Response {
    pub status: u16,
    pub body: Body,
}

pub const OK: u16 = 200;
pub const CREATED: u16 = 201;
pub const NO_CONTENT: u16 = 204;
pub const BAD_REQUEST: u16 = 400;
pub const NOT_FOUND: u16 = 404;
pub const INTERNAL_SERVER_ERROR: u16 = 500;

pub open spec fn health_text() -> Seq<char> {
    "Server is running"@
}

/// The only text a failed statement shows a client; the detail stays in the log.
pub open spec fn store_failure_text() -> Seq<char> {
    "Database error"@
}

/// A 500 response with the generic failure message.
pub open spec fn is_store_failure(r: Response) -> bool {
    r.status == INTERNAL_SERVER_ERROR && r.body@ == BodyView::Message(store_failure_text())
}

fn store_failure() -> (r: Response)
    ensures
        is_store_failure(r),
{
    Response { status: INTERNAL_SERVER_ERROR, body: Body::Message("Database error".to_owned()) }
}

/// The liveness answer: always 200 with a fixed text.
pub fn health_check() -> (r: Response)
    ensures
        r.status == OK,
        r.body@ == BodyView::Message(health_text()),
{
    Response { status: OK, body: Body::Message("Server is running".to_owned()) }
}

/// The answer to a request refused before the store was asked: 400 for a
/// malformed id or body, 404 for an absent row, 500 for a store failure.
pub fn error_response(e: TaskError) -> (r: Response)
    ensures
        e == TaskError::Validation ==> r.status == BAD_REQUEST && r.body@ == BodyView::Empty,
        e == TaskError::NotFound ==> r.status == NOT_FOUND && r.body@ == BodyView::Empty,
        e == TaskError::Store ==> is_store_failure(r),
{
    match e {
        TaskError::Validation => Response { status: BAD_REQUEST, body: Body::Empty },
        TaskError::NotFound => Response { status: NOT_FOUND, body: Body::Empty },
        TaskError::Store => store_failure(),
    }
}

/// The answer to a listing: 200 with every task, or 500.
pub fn get_tasks(listed: Result<Vec<Task>, TaskError>) -> (r: Response)
    ensures
        match listed {
            Ok(ts) => r.status == OK && r.body@ == BodyView::Many(row_views(ts@)),
            Err(_) => is_store_failure(r),
        },
{
    match listed {
        Ok(ts) => Response { status: OK, body: Body::Many(ts) },
        Err(_) => store_failure(),
    }
}

/// The answer to an insert: 201 with the stored task, or 500.
pub fn create_task(created: Result<Task, TaskError>) -> (r: Response)
    ensures
        match created {
            Ok(t) => r.status == CREATED && r.body@ == BodyView::One(t@),
            Err(_) => is_store_failure(r),
        },
{
    match created {
        Ok(t) => Response { status: CREATED, body: Body::One(t) },
        Err(_) => store_failure(),
    }
}

/// The answer to an update: 200 with the task as it now stands, or 500 for
/// any failure, an absent row included.
pub fn update_task(updated: Result<Task, TaskError>) -> (r: Response)
    ensures
        match updated {
            Ok(t) => r.status == OK && r.body@ == BodyView::One(t@),
            Err(_) => is_store_failure(r),
        },
{
    match updated {
        Ok(t) => Response { status: OK, body: Body::One(t) },
        Err(_) => store_failure(),
    }
}

/// The status of a delete that ran: whether a row was removed decides it.
pub open spec fn deleted_status(deleted: bool) -> u16 {
    if deleted {
        NO_CONTENT
    } else {
        NOT_FOUND
    }
}

/// The answer to a delete: 204 when a row was removed, 404 when none was,
/// 500 when the statement failed.
pub fn delete_task(deleted: Result<bool, TaskError>) -> (r: Response)
    ensures
        match deleted {
            Ok(b) => r.status == deleted_status(b) && r.body@ == BodyView::Empty,
            Err(_) => is_store_failure(r),
        },
{
    match deleted {
        Ok(true) => Response { status: NO_CONTENT, body: Body::Empty },
        Ok(false) => Response { status: NOT_FOUND, body: Body::Empty },
        Err(_) => store_failure(),
    }
}

} // verus!
