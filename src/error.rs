use vstd::prelude::*;

verus! {

/// The failures of a repository operation.
#[derive(Debug)]
pub enum RepoError {
    /// No row matched the identifier.
    NotFound,
    /// An update carried no field to change.
    NoFieldsToUpdate,
    /// The store or its driver failed; the text describes the cause, for
    /// the operator's log only.
    StoreFailure(String),
}

/// The failures of a request.
#[derive(Debug)]
pub enum ApiError {
    /// The payload failed validation; the text is shown to the client.
    BadRequest(String),
    Repo(RepoError),
}

impl From<RepoError> for ApiError {
    fn from(e: RepoError) -> (r: ApiError)
        ensures
            r == ApiError::Repo(e),
    {
        ApiError::Repo(e)
    }
}

impl vstd::std_specs::convert::FromSpecImpl<RepoError> for ApiError {
    open spec fn obeys_from_spec() -> bool {
        true
    }

    open spec fn from_spec(e: RepoError) -> ApiError {
        ApiError::Repo(e)
    }
}

pub open spec fn msg_title_required() -> Seq<char> {
    "title is required"@
}

pub open spec fn msg_title_empty() -> Seq<char> {
    "title must not be empty"@
}

pub open spec fn msg_title_too_long() -> Seq<char> {
    "title must be <= 200 chars"@
}

pub open spec fn msg_no_fields() -> Seq<char> {
    "no fields to update"@
}

pub open spec fn msg_not_found() -> Seq<char> {
    "not found"@
}

pub open spec fn msg_internal() -> Seq<char> {
    "internal server error"@
}

/// `e` is a `BadRequest` whose message is `msg`.
pub open spec fn is_bad_request(e: ApiError, msg: Seq<char>) -> bool {
    match e {
        ApiError::BadRequest(m) => m@ == msg,
        _ => false,
    }
}

/// The HTTP status and the client-facing message of an error.
pub open spec fn response_of(e: ApiError) -> (u16, Seq<char>) {
    match e {
        ApiError::BadRequest(m) => (400, m@),
        ApiError::Repo(RepoError::NotFound) => (404, msg_not_found()),
        ApiError::Repo(RepoError::NoFieldsToUpdate) => (400, msg_no_fields()),
        ApiError::Repo(RepoError::StoreFailure(_)) => (500, msg_internal()),
    }
}

impl ApiError {
    /// The status code and the `error` message of the response for this
    /// error. A store failure's cause is never part of the message.
    pub fn into_response(&self) -> (r: (u16, String))
        ensures
            r.0 == response_of(*self).0,
            r.1@ == response_of(*self).1,
    {
        match self {
            ApiError::BadRequest(m) => (400, m.clone()),
            ApiError::Repo(RepoError::NotFound) => (404, String::from_str("not found")),
            ApiError::Repo(RepoError::NoFieldsToUpdate) => (
                400,
                String::from_str("no fields to update"),
            ),
            ApiError::Repo(RepoError::StoreFailure(_)) => (
                500,
                String::from_str("internal server error"),
            ),
        }
    }
}

} // verus!
