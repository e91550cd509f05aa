use vstd::prelude::*;

verus! {

/// A persisted todo item.
///
/// `id` holds the 128-bit identifier; the timestamps are microseconds since
/// the Unix epoch (UTC), the precision of the store's `timestamptz` column.
#[derive(Debug, Clone)]
pub struct Todo {
    pub id: u128,
    pub title: String,
    pub description: Option<String>,
    pub completed: bool,
    pub created_at: i64,
    pub updated_at: i64,
}

/// The mathematical value of a [`Todo`].
pub struct TodoView {
    pub id: u128,
    pub title: Seq<char>,
    pub description: Option<Seq<char>>,
    pub completed: bool,
    pub created_at: int,
    pub updated_at: int,
}

pub open spec fn opt_view(o: Option<String>) -> Option<Seq<char>> {
    match o {
        Some(s) => Some(s@),
        None => None,
    }
}

impl View for Todo {
    type V = TodoView;

    open spec fn view(&self) -> TodoView {
        TodoView {
            id: self.id,
            title: self.title@,
            description: opt_view(self.description),
            completed: self.completed,
            created_at: self.created_at as int,
            updated_at: self.updated_at as int,
        }
    }
}

/// The payload of a create: `title` is required, the rest optional.
#[derive(Debug, Clone)]
pub struct CreateTodoRequest {
    pub title: String,
    pub description: Option<String>,
    pub completed: Option<bool>,
}

/// The payload of a partial update.
///
/// `description` has three states: `None` leaves the column untouched,
/// `Some(None)` clears it, `Some(Some(d))` sets it to `d`.
#[derive(Debug, Clone)]
pub struct UpdateTodoRequest {
    pub title: Option<String>,
    pub description: Option<Option<String>>,
    pub completed: Option<bool>,
}

impl UpdateTodoRequest {
    /// The request carries at least one field to change.
    pub open spec fn has_changes(&self) -> bool {
        self.title is Some || self.description is Some || self.completed is Some
    }
}

/// The query parameters of a list request, as received.
#[derive(Debug, Clone, Copy, PartialEq, Eq)]
pub struct Pagination {
    pub skip: Option<i64>,
    pub limit: Option<i64>,
}

} // verus!
