use vstd::prelude::*;

use crate::error::{
    ApiError, is_bad_request, msg_no_fields, msg_title_empty, msg_title_required,
    msg_title_too_long,
};
use crate::model::{CreateTodoRequest, Pagination, UpdateTodoRequest, opt_view};

verus! {

/// The longest title accepted, in Unicode scalar values.
pub const MAX_TITLE_CHARS: usize = 200;

/// The page size used when a list request names none.
pub const DEFAULT_LIMIT: i64 = 100;

/// The largest page size served.
pub const MAX_LIMIT: i64 = 1000;

/// What `str::trim` leaves of a string: it strips leading and trailing
/// Unicode `White_Space`.
pub uninterp spec fn trimmed(s: Seq<char>) -> Seq<char>;

/// Relies on `str::trim`: the result is the string without its leading and
/// trailing whitespace, which depends on the characters alone.
#[verifier::external_body]
fn trim_owned(s: &str) -> (r: String)
    ensures
        r@ == trimmed(s@),
{
    s.trim().to_string()
}

/// The message of the first rule that a (trimmed) title breaks, with
/// `empty_msg` for an empty title; `None` when it is acceptable.
pub open spec fn title_problem(t: Seq<char>, empty_msg: Seq<char>) -> Option<Seq<char>> {
    if t.len() == 0 {
        Some(empty_msg)
    } else if t.len() > MAX_TITLE_CHARS {
        Some(msg_title_too_long())
    } else {
        None
    }
}

/// The message of the first rule that an update payload breaks, given its
/// (trimmed) title and whether it carries any field at all.
pub open spec fn update_problem(title: Option<Seq<char>>, has_changes: bool) -> Option<Seq<char>> {
    if !has_changes {
        Some(msg_no_fields())
    } else {
        match title {
            Some(t) => title_problem(t, msg_title_empty()),
            None => None,
        }
    }
}

/// The title of an update payload after trimming, if it has one.
pub open spec fn trimmed_title(title: Option<String>) -> Option<Seq<char>> {
    match title {
        Some(t) => Some(trimmed(t@)),
        None => None,
    }
}

/// `r` reports `problem`: `Ok` when there is none, else a `BadRequest` with
/// its message.
pub open spec fn reports<T>(r: Result<T, ApiError>, problem: Option<Seq<char>>) -> bool {
    match problem {
        None => r is Ok,
        Some(m) => match r {
            Err(e) => is_bad_request(e, m),
            Ok(_) => false,
        },
    }
}

fn check_title(title: &String, empty_msg: &str) -> (r: Result<(), ApiError>)
    ensures
        reports(r, title_problem(title@, empty_msg@)),
{
    if title.as_str().unicode_len() == 0 {
        return Err(ApiError::BadRequest(String::from_str(empty_msg)));
    }
    if title.as_str().unicode_len() > MAX_TITLE_CHARS {
        return Err(ApiError::BadRequest(String::from_str("title must be <= 200 chars")));
    }
    Ok(())
}

/// Checks an already trimmed create payload.
pub fn validate_create(payload: &CreateTodoRequest) -> (r: Result<(), ApiError>)
    ensures
        reports(r, title_problem(payload.title@, msg_title_required())),
{
    check_title(&payload.title, "title is required")
}

/// Checks an update payload whose title, if any, is already trimmed.
pub fn validate_update(payload: &UpdateTodoRequest) -> (r: Result<(), ApiError>)
    ensures
        reports(r, update_problem(opt_view(payload.title), payload.has_changes())),
{
    if payload.title.is_none() && payload.description.is_none() && payload.completed.is_none() {
        return Err(ApiError::BadRequest(String::from_str("no fields to update")));
    }
    match &payload.title {
        Some(title) => check_title(title, "title must not be empty"),
        None => Ok(()),
    }
}

/// Trims the title of a create payload and validates it; on success the
/// payload goes on to the repository with the trimmed title.
pub fn prepare_create(payload: CreateTodoRequest) -> (r: Result<CreateTodoRequest, ApiError>)
    ensures
        reports(r, title_problem(trimmed(payload.title@), msg_title_required())),
        r matches Ok(p) ==> {
            &&& p.title@ == trimmed(payload.title@)
            &&& p.description == payload.description
            &&& p.completed == payload.completed
        },
{
    let title = trim_owned(payload.title.as_str());
    let p = CreateTodoRequest {
        title,
        description: payload.description,
        completed: payload.completed,
    };
    match validate_create(&p) {
        Ok(()) => Ok(p),
        Err(e) => Err(e),
    }
}

/// Trims the title of an update payload, if it has one, and validates the
/// payload; on success it goes on to the repository.
pub fn prepare_update(payload: UpdateTodoRequest) -> (r: Result<UpdateTodoRequest, ApiError>)
    ensures
        reports(r, update_problem(trimmed_title(payload.title), payload.has_changes())),
        r matches Ok(p) ==> {
            &&& opt_view(p.title) == trimmed_title(payload.title)
            &&& p.description == payload.description
            &&& p.completed == payload.completed
        },
{
    let title = match &payload.title {
        Some(t) => Some(trim_owned(t.as_str())),
        None => None,
    };
    let p = UpdateTodoRequest { title, description: payload.description, completed: payload.completed };
    assert(opt_view(p.title) == trimmed_title(payload.title));
    validate_update(&p)?;
    Ok(p)
}

/// The offset actually used for a requested `skip`: absent means 0,
/// negative counts as 0.
pub open spec fn effective_skip(skip: Option<i64>) -> i64 {
    match skip {
        Some(s) => if s < 0 { 0 } else { s },
        None => 0,
    }
}

/// The page size actually used for a requested `limit`: absent means 100,
/// anything outside [1, 1000] is clamped into it.
pub open spec fn effective_limit(limit: Option<i64>) -> i64 {
    match limit {
        Some(l) => if l < 1 { 1 } else if l > MAX_LIMIT { MAX_LIMIT } else { l },
        None => DEFAULT_LIMIT,
    }
}

impl Pagination {
    /// The `(offset, page size)` that a list request is served with.
    pub fn window(&self) -> (r: (i64, i64))
        ensures
            r == (effective_skip(self.skip), effective_limit(self.limit)),
            0 <= r.0,
            1 <= r.1 <= MAX_LIMIT,
    {
        let skip: i64 = match self.skip {
            Some(s) => if s < 0 { 0 } else { s },
            None => 0,
        };
        let limit: i64 = match self.limit {
            Some(l) => if l < 1 { 1 } else if l > MAX_LIMIT { MAX_LIMIT } else { l },
            None => DEFAULT_LIMIT,
        };
        (skip, limit)
    }
}

/// A requested page size outside [1, 1000] is clamped, never rejected:
/// below the range it is served as 1, above it as 1000.
pub proof fn lemma_limit_clamped(limit: i64)
    ensures
        limit < 1 ==> effective_limit(Some(limit)) == effective_limit(Some(1i64)),
        limit > MAX_LIMIT ==> effective_limit(Some(limit)) == effective_limit(Some(MAX_LIMIT)),
        1 <= limit <= MAX_LIMIT ==> effective_limit(Some(limit)) == limit,
        1 <= effective_limit(Some(limit)) <= MAX_LIMIT,
{
}

} // verus!
