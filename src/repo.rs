use vstd::prelude::*;

use crate::error::RepoError;
use crate::model::{CreateTodoRequest, Todo, TodoView, UpdateTodoRequest, opt_view};

verus! {

/// The columns every statement returns, in the order a row is read.
pub const RETURNING_COLUMNS: &'static str = "id, title, description, completed, created_at, updated_at";

/// One page of items, newest first; binds the offset, then the page size.
pub const LIST_SQL: &'static str = "SELECT id, title, description, completed, created_at, updated_at FROM todos ORDER BY created_at DESC OFFSET $1 LIMIT $2";

/// The item with an identifier; binds the identifier.
pub const GET_SQL: &'static str = "SELECT id, title, description, completed, created_at, updated_at FROM todos WHERE id = $1";

/// A new item; binds id, title, description and completed. The store
/// assigns both timestamps.
pub const INSERT_SQL: &'static str = "INSERT INTO todos (id, title, description, completed) VALUES ($1, $2, $3, $4) RETURNING id, title, description, completed, created_at, updated_at";

/// Removes the item with an identifier; binds the identifier.
pub const DELETE_SQL: &'static str = "DELETE FROM todos WHERE id = $1";

/// The values bound to [`INSERT_SQL`], in order.
#[derive(Debug)]
pub struct InsertStatement {
    pub id: u128,
    pub title: String,
    pub description: Option<String>,
    pub completed: bool,
}

/// Relies on `uuid::Uuid::new_v4`: a random identifier whose version nibble
/// is 4 and whose variant bits are `10` (the source masks those bits in).
#[verifier::external_body]
fn fresh_id() -> (r: u128)
    ensures
        r & 0xF000C000000000000000u128 == 0x40008000000000000000u128,
{
    uuid::Uuid::new_v4().as_u128()
}

/// The insert for a validated create payload under identifier `id`;
/// `completed` defaults to false.
pub fn plan_insert(id: u128, payload: CreateTodoRequest) -> (r: InsertStatement)
    ensures
        r.id == id,
        r.title == payload.title,
        r.description == payload.description,
        r.completed == (payload.completed == Some(true)),
{
    let completed = match payload.completed {
        Some(c) => c,
        None => false,
    };
    InsertStatement { id, title: payload.title, description: payload.description, completed }
}

/// The insert for a validated create payload under a freshly generated
/// version-4 identifier.
pub fn create_statement(payload: CreateTodoRequest) -> (r: InsertStatement)
    ensures
        r.id & 0xF000C000000000000000u128 == 0x40008000000000000000u128,
        r.title == payload.title,
        r.description == payload.description,
        r.completed == (payload.completed == Some(true)),
{
    let id = fresh_id();
    plan_insert(id, payload)
}

/// The row that the store holds after executing `st` at store time `now`:
/// both timestamps come from the one clock reading.
pub open spec fn inserted_row(st: InsertStatement, now: int) -> TodoView {
    TodoView {
        id: st.id,
        title: st.title@,
        description: opt_view(st.description),
        completed: st.completed,
        created_at: now,
        updated_at: now,
    }
}

/// The table after an insert that its primary key accepted.
pub open spec fn after_insert(table: Map<u128, TodoView>, st: InsertStatement, now: int) -> Map<
    u128,
    TodoView,
> {
    table.insert(st.id, inserted_row(st, now))
}

/// A created item is stored under an identifier that no earlier item had,
/// and its creation and update times are equal.
pub proof fn lemma_create_fresh(table: Map<u128, TodoView>, st: InsertStatement, now: int)
    requires
        !table.contains_key(st.id),
    ensures
        forall|k: u128| table.contains_key(k) ==> k != st.id,
        after_insert(table, st, now).contains_key(st.id),
        after_insert(table, st, now)[st.id].created_at == after_insert(table, st, now)[st.id].updated_at,
        after_insert(table, st, now).remove(st.id) == table,
{
    assert(after_insert(table, st, now).remove(st.id) =~= table);
}

/// One column assignment of an update.
#[derive(Debug)]
pub enum Assignment {
    Title(String),
    /// `None` clears the column.
    Description(Option<String>),
    Completed(bool),
}

pub open spec fn column(a: Assignment) -> Seq<char> {
    match a {
        Assignment::Title(_) => "title"@,
        Assignment::Description(_) => "description"@,
        Assignment::Completed(_) => "completed"@,
    }
}

/// The text of the `n`th bind parameter, for the few that a statement uses.
pub open spec fn placeholder(n: int) -> Seq<char> {
    if n == 1 {
        "$1"@
    } else if n == 2 {
        "$2"@
    } else if n == 3 {
        "$3"@
    } else {
        "$4"@
    }
}

/// `col = $i, ` for each assignment, numbered from 1.
pub open spec fn set_list(a: Seq<Assignment>) -> Seq<char>
    decreases a.len(),
{
    if a.len() == 0 {
        Seq::empty()
    } else {
        set_list(a.drop_last()) + column(a.last()) + " = "@ + placeholder(a.len() as int) + ", "@
    }
}

pub open spec fn update_prefix() -> Seq<char> {
    "UPDATE todos SET "@
}

/// The update statement for a list of assignments: each assigned column
/// takes the next bind parameter, `updated_at` is always refreshed, and the
/// identifier is bound last.
pub open spec fn update_sql(a: Seq<Assignment>) -> Seq<char> {
    update_prefix() + set_list(a) + "updated_at = NOW() WHERE id = "@ + placeholder(a.len() + 1int)
        + " RETURNING "@ + RETURNING_COLUMNS@
}

/// The assignments an update payload asks for: title, description and
/// completed, in that order, each only when present.
pub open spec fn assignments_of(p: UpdateTodoRequest) -> Seq<Assignment> {
    let a1 = match p.title {
        Some(t) => seq![Assignment::Title(t)],
        None => Seq::empty(),
    };
    let a2 = match p.description {
        Some(d) => seq![Assignment::Description(d)],
        None => Seq::empty(),
    };
    let a3 = match p.completed {
        Some(c) => seq![Assignment::Completed(c)],
        None => Seq::empty(),
    };
    a1 + a2 + a3
}

/// A partial update: its SQL text, the values bound to the assigned
/// columns in order, and the identifier bound after them.
#[derive(Debug)]
pub struct UpdateStatement {
    pub sql: String,
    pub assignments: Vec<Assignment>,
    pub id: u128,
}

fn column_name(a: &Assignment) -> (r: &'static str)
    ensures
        r@ == column(*a),
{
    match a {
        Assignment::Title(_) => "title",
        Assignment::Description(_) => "description",
        Assignment::Completed(_) => "completed",
    }
}

fn placeholder_text(n: usize) -> (r: &'static str)
    requires
        1 <= n <= 4,
    ensures
        r@ == placeholder(n as int),
{
    if n == 1 {
        "$1"
    } else if n == 2 {
        "$2"
    } else if n == 3 {
        "$3"
    } else {
        "$4"
    }
}

fn push_assignment(sql: &mut String, assigns: &mut Vec<Assignment>, a: Assignment)
    requires
        old(assigns)@.len() < 3,
        old(sql)@ == update_prefix() + set_list(old(assigns)@),
    ensures
        final(assigns)@ == old(assigns)@.push(a),
        final(sql)@ == update_prefix() + set_list(final(assigns)@),
{
    let n = assigns.len();
    sql.append(column_name(&a));
    sql.append(" = ");
    sql.append(placeholder_text(n + 1));
    sql.append(", ");
    assigns.push(a);
    let ghost s = assigns@;
    assert(s.drop_last() =~= old(assigns)@);
    assert(final(sql)@ =~= update_prefix() + set_list(s));
}

/// Builds the statement for a validated update of item `id`: it touches
/// only the columns the payload carries (an explicit null description
/// included) and refreshes `updated_at`. A payload with no field fails with
/// `NoFieldsToUpdate`.
pub fn update_statement(id: u128, payload: UpdateTodoRequest) -> (r: Result<
    UpdateStatement,
    RepoError,
>)
    ensures
        !payload.has_changes() <==> r matches Err(RepoError::NoFieldsToUpdate),
        r is Err ==> !payload.has_changes(),
        r matches Ok(st) ==> {
            &&& st.assignments@ == assignments_of(payload)
            &&& st.sql@ == update_sql(st.assignments@)
            &&& st.id == id
        },
{
    if payload.title.is_none() && payload.description.is_none() && payload.completed.is_none() {
        return Err(RepoError::NoFieldsToUpdate);
    }
    let ghost p = payload;
    let mut sql = String::from_str("UPDATE todos SET ");
    let mut assigns: Vec<Assignment> = Vec::new();
    assert(sql@ == update_prefix() + set_list(assigns@)) by {
        assert(sql@ =~= update_prefix() + set_list(assigns@));
    }
    if let Some(t) = payload.title {
        push_assignment(&mut sql, &mut assigns, Assignment::Title(t));
    }
    if let Some(d) = payload.description {
        push_assignment(&mut sql, &mut assigns, Assignment::Description(d));
    }
    if let Some(c) = payload.completed {
        push_assignment(&mut sql, &mut assigns, Assignment::Completed(c));
    }
    assert(assigns@ =~= assignments_of(p));
    let n = assigns.len();
    sql.append("updated_at = NOW() WHERE id = ");
    sql.append(placeholder_text(n + 1));
    sql.append(" RETURNING ");
    sql.append(RETURNING_COLUMNS);
    assert(sql@ =~= update_sql(assigns@));
    Ok(UpdateStatement { sql, assignments: assigns, id })
}

/// The effect of one assignment on a row.
pub open spec fn assign(row: TodoView, a: Assignment) -> TodoView {
    match a {
        Assignment::Title(t) => TodoView { title: t@, ..row },
        Assignment::Description(d) => TodoView { description: opt_view(d), ..row },
        Assignment::Completed(c) => TodoView { completed: c, ..row },
    }
}

pub open spec fn assign_all(row: TodoView, a: Seq<Assignment>) -> TodoView
    decreases a.len(),
{
    if a.len() == 0 {
        row
    } else {
        assign(assign_all(row, a.drop_last()), a.last())
    }
}

/// The row that executing an update with assignments `a` at store time
/// `now` leaves in place of the matched `row`.
pub open spec fn updated_row(row: TodoView, a: Seq<Assignment>, now: int) -> TodoView {
    TodoView { updated_at: now, ..assign_all(row, a) }
}

/// An update that changes at least one field moves `updated_at` forward
/// (given a store clock that has advanced since the last write) and leaves
/// the identifier, the creation time and every field it does not carry as
/// they were; the fields it carries take the new values. An explicit null
/// description clears the column, an absent one leaves it unchanged.
pub proof fn lemma_update_effect(row: TodoView, payload: UpdateTodoRequest, now: int)
    requires
        payload.has_changes(),
        now > row.updated_at,
    ensures
        updated_row(row, assignments_of(payload), now).updated_at > row.updated_at,
        updated_row(row, assignments_of(payload), now).id == row.id,
        updated_row(row, assignments_of(payload), now).created_at == row.created_at,
        updated_row(row, assignments_of(payload), now).title == match payload.title {
            Some(t) => t@,
            None => row.title,
        },
        updated_row(row, assignments_of(payload), now).description == match payload.description {
            Some(d) => opt_view(d),
            None => row.description,
        },
        updated_row(row, assignments_of(payload), now).completed == match payload.completed {
            Some(c) => c,
            None => row.completed,
        },
        payload.description == Some::<Option<String>>(None) ==> updated_row(
            row,
            assignments_of(payload),
            now,
        ).description is None,
{
    reveal_with_fuel(assign_all, 4);
}

/// The reply to a statement that returns the affected row: the row, or
/// `NotFound` when no row matched. Used by get and by update.
pub fn row_outcome(row: Option<Todo>) -> (r: Result<Todo, RepoError>)
    ensures
        row matches Some(t) ==> r == Ok::<Todo, RepoError>(t),
        row is None ==> r matches Err(RepoError::NotFound),
{
    match row {
        Some(t) => Ok(t),
        None => Err(RepoError::NotFound),
    }
}

/// The result of a delete that affected `n` rows.
pub open spec fn delete_reply(n: int) -> Result<(), RepoError> {
    if n > 0 {
        Ok(())
    } else {
        Err(RepoError::NotFound)
    }
}

/// The reply to [`DELETE_SQL`]: success when a row went, `NotFound` when
/// none matched.
pub fn delete_outcome(rows_affected: u64) -> (r: Result<(), RepoError>)
    ensures
        r == delete_reply(rows_affected as int),
{
    if rows_affected == 0 {
        Err(RepoError::NotFound)
    } else {
        Ok(())
    }
}

/// How many rows a delete of `id` removes from `table`.
pub open spec fn rows_deleted(table: Map<u128, TodoView>, id: u128) -> int {
    if table.contains_key(id) {
        1
    } else {
        0
    }
}

/// Deleting an identifier that no item has yields `NotFound`, and so does
/// deleting the same identifier a second time.
pub proof fn lemma_delete_twice(table: Map<u128, TodoView>, id: u128)
    ensures
        !table.contains_key(id) ==> delete_reply(rows_deleted(table, id)) == Err::<
            (),
            RepoError,
        >(RepoError::NotFound),
        delete_reply(rows_deleted(table.remove(id), id)) == Err::<(), RepoError>(
            RepoError::NotFound,
        ),
        table.contains_key(id) ==> delete_reply(rows_deleted(table, id)) is Ok,
{
}

/// The rows that [`LIST_SQL`] returns for offset `skip` and page size
/// `limit`, from the table's rows in their listed order.
pub open spec fn page(rows: Seq<TodoView>, skip: int, limit: int) -> Seq<TodoView> {
    let lo = if skip < rows.len() {
        skip
    } else {
        rows.len() as int
    };
    let hi = if skip + limit < rows.len() {
        skip + limit
    } else {
        rows.len() as int
    };
    rows.subrange(lo, hi)
}

/// Strictly descending creation time.
pub open spec fn newest_first(rows: Seq<TodoView>) -> bool {
    forall|i: int, j: int| 0 <= i < j < rows.len() ==> rows[i].created_at > rows[j].created_at
}

/// A page holds at most `limit` items and keeps the strict newest-first
/// order; the page at `skip` followed by the page at `skip + limit` is
/// exactly the window of twice the size, so consecutive pages neither
/// overlap nor leave gaps.
pub proof fn lemma_pages(rows: Seq<TodoView>, skip: int, limit: int)
    requires
        0 <= skip,
        1 <= limit,
    ensures
        page(rows, skip, limit).len() <= limit,
        newest_first(rows) ==> newest_first(page(rows, skip, limit)),
        page(rows, skip, limit) + page(rows, skip + limit, limit) == page(rows, skip, 2 * limit),
{
    assert(page(rows, skip, limit) + page(rows, skip + limit, limit) =~= page(rows, skip, 2 * limit));
    if newest_first(rows) {
        let p = page(rows, skip, limit);
        let lo = if skip < rows.len() {
            skip
        } else {
            rows.len() as int
        };
        assert forall|i: int, j: int| 0 <= i < j < p.len() implies p[i].created_at > p[j].created_at by {
            assert(p[i] == rows[lo + i]);
            assert(p[j] == rows[lo + j]);
        }
    }
}

} // verus!
