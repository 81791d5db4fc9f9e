use vstd::prelude::*;
use crate::handlers::{NO_CONTENT, NOT_FOUND, deleted_status};
use crate::store::TableView;
use crate::task::{CreateTaskView, UpdateTaskView};

verus! {

/// After an insert the table lists a row with the given title and
/// description, under an id that no earlier row held.
pub proof fn create_then_list(t: TableView, n: CreateTaskView)
    requires
        t.wf(),
        t.can_insert(),
    ensures
        t.after_create(n).wf(),
        exists|i: int|
            0 <= i < t.after_create(n).rows.len() && #[trigger] t.after_create(n).rows[i]
                == t.new_row(n),
        t.new_row(n).title == n.title,
        t.new_row(n).description == n.description,
        !t.has_id(t.new_row(n).id),
{
    let a = t.after_create(n);
    assert(a.rows[t.rows.len() as int] == t.new_row(n));
}

/// A row returned by an insert is listed afterwards with the same id,
/// title and description, and no other listed row holds that id.
pub proof fn created_row_round_trip(t: TableView, n: CreateTaskView)
    requires
        t.wf(),
        t.can_insert(),
    ensures
        t.after_create(n).has_id(t.new_row(n).id),
        t.after_create(n).row(t.new_row(n).id).id == t.new_row(n).id,
        t.after_create(n).row(t.new_row(n).id).title == t.new_row(n).title,
        t.after_create(n).row(t.new_row(n).id).description == t.new_row(n).description,
{
    let a = t.after_create(n);
    let last = t.rows.len() as int;
    assert(a.rows[last] == t.new_row(n));
    assert(a.has_id(t.new_row(n).id));
    let j = a.index_of(t.new_row(n).id);
    if j != last {
        assert(a.rows[j] == t.rows[j]);
    }
}

/// An update changes only the fields that the patch holds, leaves every
/// other row alone, and keeps the table well formed.
pub proof fn update_keeps_absent_fields(t: TableView, id: int, p: UpdateTaskView)
    requires
        t.wf(),
        t.has_id(id),
    ensures
        t.after_update(id, p).wf(),
        t.after_update(id, p).has_id(id),
        t.after_update(id, p).row(id).id == id,
        t.after_update(id, p).row(id).title == (match p.title {
            Some(v) => v,
            None => t.row(id).title,
        }),
        t.after_update(id, p).row(id).description == (match p.description {
            Some(v) => Some(v),
            None => t.row(id).description,
        }),
        t.after_update(id, p).row(id).completed == (match p.completed {
            Some(v) => Some(v),
            None => t.row(id).completed,
        }),
        t.after_update(id, p).rows.len() == t.rows.len(),
        forall|i: int|
            0 <= i < t.rows.len() && t.rows[i].id != id ==> #[trigger] t.after_update(
                id,
                p,
            ).rows[i] == t.rows[i],
{
    let a = t.after_update(id, p);
    let i = t.index_of(id);
    assert(a.rows[i].id == id);
    assert(a.has_id(id));
    let j = a.index_of(id);
    if j < i {
        assert(t.rows[j].id < t.rows[i].id);
    } else if j > i {
        assert(t.rows[i].id < t.rows[j].id);
    }
}

/// An empty patch on an existing row leaves the table as it was.
pub proof fn empty_patch_is_noop(t: TableView, id: int)
    requires
        t.wf(),
        t.has_id(id),
    ensures
        t.after_update(id, UpdateTaskView { title: None, description: None, completed: None })
            == t,
{
    let e = UpdateTaskView { title: None, description: None, completed: None };
    assert(t.after_update(id, e).rows =~= t.rows);
}

/// A delete of an existing row removes it and answers 204; a second delete
/// of the same id finds nothing, changes nothing and answers 404.
pub proof fn delete_twice(t: TableView, id: int)
    requires
        t.wf(),
        t.has_id(id),
    ensures
        t.after_delete(id).wf(),
        !t.after_delete(id).has_id(id),
        t.after_delete(id).after_delete(id) == t.after_delete(id),
        deleted_status(t.has_id(id)) == NO_CONTENT,
        deleted_status(t.after_delete(id).has_id(id)) == NOT_FOUND,
{
    let a = t.after_delete(id);
    let i = t.index_of(id);
    if a.has_id(id) {
        let j = choose|j: int| 0 <= j < a.rows.len() && #[trigger] a.rows[j].id == id;
        if j < i {
            assert(a.rows[j] == t.rows[j]);
            assert(t.rows[j].id < t.rows[i].id);
        } else {
            assert(a.rows[j] == t.rows[j + 1]);
            assert(t.rows[i].id < t.rows[j + 1].id);
        }
    }
}

} // verus!
