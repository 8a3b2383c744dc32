//! JSON request bodies, reduced to the shape the payloads need.
//!
//! serde_json parses the body text; the top-level object's fields are then
//! handed over as a list of named scalars, and everything from there on —
//! field lookup, typing, range checks — is verified code.

use vstd::prelude::*;

use crate::errors::Error;
use crate::repo::{NewTodo, QueryTodos, UpdateTodo};

verus! {

/// One JSON value held by a top-level field, as far as the payloads care:
/// a scalar of the right kind, or `Other` for everything else (arrays,
/// objects, and numbers outside `i64`).
#[derive(Debug)]
pub enum JsonScalar {
    Null,
    Bool(bool),
    Int(i64),
    Text(String),
    Other,
}

/// What parsing a body yields: the top-level object's fields as named
/// scalars, or nothing where the text is not JSON or not an object. The
/// parse is a function of the text alone; this name stands for its result.
pub uninterp spec fn json_object_fields(s: Seq<char>) -> Option<Seq<(String, JsonScalar)>>;

/// Relies on serde_json's `from_str`, `Value` and `Number::as_i64`: valid
/// JSON whose top level is an object gives the object's fields (keys
/// distinct, a duplicate key collapsed by the parser to its last value, a
/// number an `Int` exactly when it is representable as an `i64`); anything
/// else gives an error message.
#[verifier::external_body]
fn parse_object_fields(s: &str) -> (r: Result<Vec<(String, JsonScalar)>, String>)
    ensures
        match r {
            Ok(fields) => json_object_fields(s@) == Some(fields@),
            Err(_) => json_object_fields(s@) is None,
        },
{
    match serde_json::from_str::<serde_json::Value>(s) {
        Err(e) => Err(e.to_string()),
        Ok(serde_json::Value::Object(m)) => Ok(m.into_iter().map(|(k, v)| (k, match v {
            serde_json::Value::Null => JsonScalar::Null,
            serde_json::Value::Bool(b) => JsonScalar::Bool(b),
            serde_json::Value::Number(n) => n.as_i64().map_or(JsonScalar::Other, JsonScalar::Int),
            serde_json::Value::String(t) => JsonScalar::Text(t),
            _ => JsonScalar::Other,
        })).collect()),
        Ok(_) => Err("expected a JSON object at the top level".to_string()),
    }
}

/// Parse a request body into the top-level object's fields.
///
/// Text that is not valid JSON, or whose top level is not an object, is a
/// `JsonParse` error.
pub fn decode_object(body: &str) -> (r: Result<Vec<(String, JsonScalar)>, Error>)
    ensures
        match r {
            Ok(fields) => json_object_fields(body@) == Some(fields@),
            Err(e) => e is JsonParse && json_object_fields(body@) is None,
        },
{
    match parse_object_fields(body) {
        Ok(fields) => Ok(fields),
        Err(m) => Err(Error::JsonParse(m)),
    }
}

/// The first field with the given name, if any.
pub open spec fn spec_lookup(fields: Seq<(String, JsonScalar)>, key: Seq<char>) -> Option<
    JsonScalar,
>
    decreases fields.len(),
{
    if fields.len() == 0 {
        None
    } else if fields[0].0@ == key {
        Some(fields[0].1)
    } else {
        spec_lookup(fields.drop_first(), key)
    }
}

/// Find the first field with the given name.
pub fn lookup<'a>(fields: &'a Vec<(String, JsonScalar)>, key: &str) -> (r: Option<&'a JsonScalar>)
    ensures
        match r {
            Some(v) => spec_lookup(fields@, key@) == Some(*v),
            None => spec_lookup(fields@, key@) is None,
        },
{
    let mut i: usize = 0;
    proof {
        assert(fields@.skip(0) =~= fields@);
    }
    while i < fields.len()
        invariant
            i <= fields@.len(),
            spec_lookup(fields@, key@) == spec_lookup(fields@.skip(i as int), key@),
        decreases fields@.len() - i,
    {
        proof {
            assert(fields@.skip(i as int)[0] == fields@[i as int]);
            assert(fields@.skip(i as int).drop_first() =~= fields@.skip(i + 1));
        }
        if crate::text::str_eq(fields[i].0.as_str(), key) {
            return Some(&fields[i].1);
        }
        i = i + 1;
    }
    proof {
        assert(fields@.skip(fields@.len() as int) =~= Seq::<(String, JsonScalar)>::empty());
    }
    None
}

/// An optional text field: absent or `null` is no text, a string is the
/// text, any other value is a type error.
pub open spec fn spec_opt_text(v: Option<JsonScalar>) -> Result<Option<String>, Seq<char>> {
    match v {
        None => Ok(None),
        Some(JsonScalar::Null) => Ok(None),
        Some(JsonScalar::Text(s)) => Ok(Some(s)),
        Some(_) => Err("text must be a string"@),
    }
}

/// An optional boolean field: absent or `null` is none, any non-boolean is a
/// type error.
pub open spec fn spec_opt_bool(v: Option<JsonScalar>) -> Result<Option<bool>, Seq<char>> {
    match v {
        None => Ok(None),
        Some(JsonScalar::Null) => Ok(None),
        Some(JsonScalar::Bool(b)) => Ok(Some(b)),
        Some(_) => Err("done must be a boolean"@),
    }
}

/// An optional integer field: absent or `null` is none, any non-integer is a
/// type error.
pub open spec fn spec_opt_int(v: Option<JsonScalar>) -> Result<Option<i64>, Seq<char>> {
    match v {
        None => Ok(None),
        Some(JsonScalar::Null) => Ok(None),
        Some(JsonScalar::Int(i)) => Ok(Some(i)),
        Some(_) => Err("next must be an integer"@),
    }
}

/// An optional page-size field: absent or `null` is none, an integer within
/// an unsigned byte is the size, anything else is a type error.
pub open spec fn spec_opt_limit(v: Option<JsonScalar>) -> Result<Option<u8>, Seq<char>> {
    match v {
        None => Ok(None),
        Some(JsonScalar::Null) => Ok(None),
        Some(JsonScalar::Int(i)) => if 0 <= i <= 255 {
            Ok(Some(i as u8))
        } else {
            Err("limit must be an unsigned byte"@)
        },
        Some(_) => Err("limit must be an unsigned byte"@),
    }
}

/// The creation payload read from an object's fields: `text` is required and
/// must be a string.
pub open spec fn spec_decode_new_todo(fields: Seq<(String, JsonScalar)>) -> Result<
    NewTodo,
    Seq<char>,
> {
    match spec_lookup(fields, "text"@) {
        Some(JsonScalar::Text(s)) => Ok(NewTodo { text: s }),
        Some(_) => Err("text must be a string"@),
        None => Err("missing field text"@),
    }
}

/// The mutation payload read from an object's fields: `id` is required and
/// must be an integer; `text` and `done` are optional, checked in that
/// order after the id.
pub open spec fn spec_decode_update_todo(fields: Seq<(String, JsonScalar)>) -> Result<
    UpdateTodo,
    Seq<char>,
> {
    match spec_lookup(fields, "id"@) {
        Some(JsonScalar::Int(id)) => match spec_opt_text(spec_lookup(fields, "text"@)) {
            Ok(text) => match spec_opt_bool(spec_lookup(fields, "done"@)) {
                Ok(done) => Ok(UpdateTodo { id, text, done }),
                Err(m) => Err(m),
            },
            Err(m) => Err(m),
        },
        Some(_) => Err("id must be an integer"@),
        None => Err("missing field id"@),
    }
}

/// The query payload read from an object's fields: `next`, `limit` and
/// `text` are all optional, checked in that order.
pub open spec fn spec_decode_query_todos(fields: Seq<(String, JsonScalar)>) -> Result<
    QueryTodos,
    Seq<char>,
> {
    match spec_opt_int(spec_lookup(fields, "next"@)) {
        Ok(next) => match spec_opt_limit(spec_lookup(fields, "limit"@)) {
            Ok(limit) => match spec_opt_text(spec_lookup(fields, "text"@)) {
                Ok(text) => Ok(QueryTodos { next, limit, text }),
                Err(m) => Err(m),
            },
            Err(m) => Err(m),
        },
        Err(m) => Err(m),
    }
}

/// Read the creation payload out of an object's fields.
pub fn decode_new_todo(fields: &Vec<(String, JsonScalar)>) -> (r: Result<NewTodo, Error>)
    ensures
        match spec_decode_new_todo(fields@) {
            Ok(t) => r matches Ok(rt) && rt == t,
            Err(m) => r matches Err(e) && (e matches Error::JsonParse(em) && em@ == m),
        },
{
    match lookup(fields, "text") {
        Some(JsonScalar::Text(s)) => Ok(NewTodo { text: s.clone() }),
        Some(_) => Err(Error::JsonParse(String::from_str("text must be a string"))),
        None => Err(Error::JsonParse(String::from_str("missing field text"))),
    }
}

/// Read the mutation payload out of an object's fields.
pub fn decode_update_todo(fields: &Vec<(String, JsonScalar)>) -> (r: Result<UpdateTodo, Error>)
    ensures
        match spec_decode_update_todo(fields@) {
            Ok(t) => r matches Ok(rt) && rt == t,
            Err(m) => r matches Err(e) && (e matches Error::JsonParse(em) && em@ == m),
        },
{
    let id = match lookup(fields, "id") {
        Some(JsonScalar::Int(i)) => *i,
        Some(_) => {
            return Err(Error::JsonParse(String::from_str("id must be an integer")));
        },
        None => {
            return Err(Error::JsonParse(String::from_str("missing field id")));
        },
    };
    let text = match lookup(fields, "text") {
        None => None,
        Some(JsonScalar::Null) => None,
        Some(JsonScalar::Text(s)) => Some(s.clone()),
        Some(_) => {
            return Err(Error::JsonParse(String::from_str("text must be a string")));
        },
    };
    let done = match lookup(fields, "done") {
        None => None,
        Some(JsonScalar::Null) => None,
        Some(JsonScalar::Bool(b)) => Some(*b),
        Some(_) => {
            return Err(Error::JsonParse(String::from_str("done must be a boolean")));
        },
    };
    Ok(UpdateTodo { id, text, done })
}

/// Read the query payload out of an object's fields.
pub fn decode_query_todos(fields: &Vec<(String, JsonScalar)>) -> (r: Result<QueryTodos, Error>)
    ensures
        match spec_decode_query_todos(fields@) {
            Ok(t) => r matches Ok(rt) && rt == t,
            Err(m) => r matches Err(e) && (e matches Error::JsonParse(em) && em@ == m),
        },
{
    let next = match lookup(fields, "next") {
        None => None,
        Some(JsonScalar::Null) => None,
        Some(JsonScalar::Int(i)) => Some(*i),
        Some(_) => {
            return Err(Error::JsonParse(String::from_str("next must be an integer")));
        },
    };
    let limit = match lookup(fields, "limit") {
        None => None,
        Some(JsonScalar::Null) => None,
        Some(JsonScalar::Int(i)) => {
            if 0 <= *i && *i <= 255 {
                Some(*i as u8)
            } else {
                return Err(Error::JsonParse(String::from_str("limit must be an unsigned byte")));
            }
        },
        Some(_) => {
            return Err(Error::JsonParse(String::from_str("limit must be an unsigned byte")));
        },
    };
    let text = match lookup(fields, "text") {
        None => None,
        Some(JsonScalar::Null) => None,
        Some(JsonScalar::Text(s)) => Some(s.clone()),
        Some(_) => {
            return Err(Error::JsonParse(String::from_str("text must be a string")));
        },
    };
    Ok(QueryTodos { next, limit, text })
}

} // verus!
