//! The decision logic of the three HTTP handlers.
//!
//! Each handler is a single-shot, stateless transformation of the parsed
//! request and the store into a response and a store mutation. Transport and
//! body parsing sit outside the library: a handler that takes a request body
//! receives it already parsed, as `Some(user)`, or as `None` when the body
//! failed to parse against the expected shape.

use vstd::prelude::*;

use crate::store::{contains_id, views_of, Store};
use crate::user::User;

verus! {

/// What a handler answers: the HTTP status and body, as plain values.
pub enum ApiResponse {
    /// 200 with the JSON array of all records.
    UserList(Vec<User>),
    /// 201 with an empty body: the record was created.
    Created,
    /// 200 with an empty body: the record was replaced.
    Updated,
    /// 409: a record with the submitted `id` already exists.
    Conflict,
    /// 404: no record fully equal to the submitted one exists.
    NotFound,
    /// A client error: the request body failed to parse.
    BadRequest,
}

impl ApiResponse {
    /// The HTTP status code of this response.
    pub open spec fn spec_status(&self) -> u16 {
        match self {
            ApiResponse::UserList(_) => 200,
            ApiResponse::Created => 201,
            ApiResponse::Updated => 200,
            ApiResponse::Conflict => 409,
            ApiResponse::NotFound => 404,
            ApiResponse::BadRequest => 400,
        }
    }

    /// The text body of this response; empty where the response carries none
    /// (the record list is serialized by the transport layer instead).
    pub open spec fn spec_message(&self) -> Seq<char> {
        match self {
            ApiResponse::Conflict => "User with this ID already exists"@,
            ApiResponse::NotFound => "User with this ID does not exist"@,
            _ => ""@,
        }
    }

    pub fn status_code(&self) -> (c: u16)
        ensures
            c == self.spec_status(),
    {
        match self {
            ApiResponse::UserList(_) => 200,
            ApiResponse::Created => 201,
            ApiResponse::Updated => 200,
            ApiResponse::Conflict => 409,
            ApiResponse::NotFound => 404,
            ApiResponse::BadRequest => 400,
        }
    }

    pub fn message(&self) -> (m: String)
        ensures
            m@ == self.spec_message(),
    {
        match self {
            ApiResponse::Conflict => {
                proof {
                    reveal_strlit("User with this ID already exists");
                }
                "User with this ID already exists".to_owned()
            },
            ApiResponse::NotFound => {
                proof {
                    reveal_strlit("User with this ID does not exist");
                }
                "User with this ID does not exist".to_owned()
            },
            _ => {
                proof {
                    reveal_strlit("");
                }
                String::new()
            },
        }
    }
}

/// Serves a list request: answers 200 with a copy of every record, in store
/// order; there is no error path.
pub fn get_user(store: &Store) -> (r: ApiResponse)
    ensures
        r matches ApiResponse::UserList(users) && views_of(users@) == store@,
{
    ApiResponse::UserList(store.list())
}

/// Serves a create request: a body that failed to parse is answered 400 and
/// changes nothing; a body whose `id` is already present is answered 409 and
/// changes nothing; otherwise the record is added and the answer is 201.
pub fn create_user(store: &mut Store, body: Option<User>) -> (r: ApiResponse)
    ensures
        body is None ==> {
            &&& r is BadRequest
            &&& final(store)@ == old(store)@
        },
        body matches Some(user) ==> {
            &&& contains_id(old(store)@, user@.id) ==> r is Conflict && final(store)@ == old(
                store,
            )@
            &&& !contains_id(old(store)@, user@.id) ==> r is Created && final(store)@ == old(
                store,
            )@.push(user@)
        },
        old(store).wf() ==> final(store).wf(),
{
    match body {
        None => ApiResponse::BadRequest,
        Some(user) => match store.insert(user) {
            Ok(()) => ApiResponse::Created,
            Err(_) => ApiResponse::Conflict,
        },
    }
}

/// Serves an update request: a body that failed to parse is answered 400; a
/// body fully equal to an existing record replaces it and is answered 200; any
/// other body is answered 404. The held record values are unchanged in every
/// case — a successful replace installs a value equal to the one it evicts.
pub fn update_user(store: &mut Store, body: Option<User>) -> (r: ApiResponse)
    ensures
        final(store)@ == old(store)@,
        body is None ==> r is BadRequest,
        body matches Some(user) ==> {
            &&& old(store)@.contains(user@) ==> r is Updated
            &&& !old(store)@.contains(user@) ==> r is NotFound
        },
        old(store).wf() ==> final(store).wf(),
{
    match body {
        None => ApiResponse::BadRequest,
        Some(user) => match store.replace(user) {
            Ok(()) => ApiResponse::Updated,
            Err(_) => ApiResponse::NotFound,
        },
    }
}

} // verus!
