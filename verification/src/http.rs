//! Response shapes and the uniform error-to-status mapping.

use vstd::prelude::*;

use crate::errors::Error;
use crate::repo::{Paginated, Todo};

verus! {

/// The request methods the router distinguishes.
#[derive(Clone, Copy, Debug, PartialEq, Eq, Structural)]
pub enum Method {
    Get,
    Post,
    Other,
}

/// What a response carries; the transport serializes it as JSON.
#[derive(Debug)]
pub enum ResponseBody {
    /// no body at all
    Empty,
    /// the health probe's body, `{"ok": true}`
    Health,
    /// one todo row
    Item(Todo),
    /// one page of rows
    Page(Paginated<Todo>),
    /// `{"error": <display>, "description": <description>}`
    Failure { error: String, description: String },
}

/// One response: the status code and the body to serialize.
#[derive(Debug)]
pub struct HttpResponse {
    pub status: u16,
    pub body: ResponseBody,
}

/// The uniform error table: malformed bodies 400, missing rows 404, broken
/// business rules 412, everything else 500.
pub open spec fn spec_status_of(e: Error) -> int {
    match e {
        Error::JsonParse(_) => 400,
        Error::RecordNotFound => 404,
        Error::Validation(_) => 412,
        _ => 500,
    }
}

/// Map an action's outcome to the wire: a success passes through, an error
/// gets its status from the uniform table and a JSON error body.
pub fn handle_api_err(result: Result<HttpResponse, Error>) -> (resp: HttpResponse)
    ensures
        match result {
            Ok(ok) => resp == ok,
            Err(e) => {
                &&& resp.status as int == spec_status_of(e)
                &&& resp.body matches ResponseBody::Failure { error, description } && error@
                    == e.display_seq() && description@ == e.description_seq()
            },
        },
{
    match result {
        Ok(ok) => ok,
        Err(e) => {
            let status: u16 = match &e {
                Error::JsonParse(_) => 400,
                Error::RecordNotFound => 404,
                Error::Validation(_) => 412,
                _ => 500,
            };
            let error = e.display_string();
            let description = e.description();
            HttpResponse { status, body: ResponseBody::Failure { error, description } }
        },
    }
}

} // verus!
