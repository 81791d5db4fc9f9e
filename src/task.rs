use vstd::prelude::*;

verus! {

/// A task as a client sees it: the row that the store holds.
#[derive(Debug)]
pub struct Task {
    pub id: i32,
    pub title: String,
    pub description: Option<String>,
    pub completed: Option<bool>,
}

/// The fields of a task to be created; the store assigns the id.
#[derive(Debug)]
pub struct CreateTask {
    pub title: String,
    pub description: Option<String>,
}

/// A partial update: each present field overwrites, each absent one is kept.
#[derive(Debug)]
pub struct UpdateTask {
    pub title: Option<String>,
    pub description: Option<String>,
    pub completed: Option<bool>,
}

/// The mathematical value of a task.
pub struct TaskView {
    pub id: int,
    pub title: Seq<char>,
    pub description: Option<Seq<char>>,
    pub completed: Option<bool>,
}

pub struct CreateTaskView {
    pub title: Seq<char>,
    pub description: Option<Seq<char>>,
}

pub struct UpdateTaskView {
    pub title: Option<Seq<char>>,
    pub description: Option<Seq<char>>,
    pub completed: Option<bool>,
}

pub open spec fn text_view(o: Option<String>) -> Option<Seq<char>> {
    match o {
        Some(s) => Some(s@),
        None => None,
    }
}

impl View for Task {
    type V = TaskView;

    open spec fn view(&self) -> TaskView {
        TaskView {
            id: self.id as int,
            title: self.title@,
            description: text_view(self.description),
            completed: self.completed,
        }
    }
}

impl View for CreateTask {
    type V = CreateTaskView;

    open spec fn view(&self) -> CreateTaskView {
        CreateTaskView { title: self.title@, description: text_view(self.description) }
    }
}

impl View for UpdateTask {
    type V = UpdateTaskView;

    open spec fn view(&self) -> UpdateTaskView {
        UpdateTaskView {
            title: text_view(self.title),
            description: text_view(self.description),
            completed: self.completed,
        }
    }
}

/// The value of a column after a coalescing assignment.
pub open spec fn coalesce<T>(given: Option<T>, current: T) -> T {
    match given {
        Some(v) => v,
        None => current,
    }
}

/// A task after a patch: each field that the patch holds replaces the stored one.
pub open spec fn patched(t: TaskView, p: UpdateTaskView) -> TaskView {
    TaskView {
        id: t.id,
        title: coalesce(p.title, t.title),
        description: match p.description {
            Some(d) => Some(d),
            None => t.description,
        },
        completed: match p.completed {
            Some(c) => Some(c),
            None => t.completed,
        },
    }
}

/// The row that an insert of `n` writes under the id `id`.
pub open spec fn inserted(id: int, n: CreateTaskView) -> TaskView {
    TaskView { id, title: n.title, description: n.description, completed: None }
}

pub fn copy_text(o: &Option<String>) -> (r: Option<String>)
    ensures
        text_view(r) == text_view(*o),
{
    match o {
        Some(s) => Some(s.clone()),
        None => None,
    }
}

impl Task {
    /// An independent copy of the task.
    pub fn duplicate(&self) -> (r: Task)
        ensures
            r@ == self@,
    {
        Task {
            id: self.id,
            title: self.title.clone(),
            description: copy_text(&self.description),
            completed: self.completed,
        }
    }

    /// The task after an update: each present field replaces the stored one.
    pub fn with_update(&self, patch: &UpdateTask) -> (r: Task)
        ensures
            r@ == patched(self@, patch@),
    {
        let title = match &patch.title {
            Some(t) => t.clone(),
            None => self.title.clone(),
        };
        let description = match &patch.description {
            Some(d) => Some(d.clone()),
            None => copy_text(&self.description),
        };
        let completed = match patch.completed {
            Some(c) => Some(c),
            None => self.completed,
        };
        Task { id: self.id, title, description, completed }
    }
}

} // verus!
