//! Per-field business rules and their composition per payload type.
//!
//! Two atomic rules: a present text must be non-empty and at most 255
//! characters, and an id must be positive. Validation is pure: it never
//! touches the store, and the first failing rule wins.

use vstd::prelude::*;

use crate::errors::Error;
use crate::repo::{NewTodo, QueryTodos, UpdateTodo};
use crate::text::{i64_to_dec, spec_dec, spec_dec_i64, u64_to_dec};

verus! {

/// The reason the text rule rejects an optional text, if it does.
pub open spec fn text_rule_err(text: Option<Seq<char>>) -> Option<Seq<char>> {
    match text {
        Some(s) => if s.len() == 0 {
            Some("todo's text cannot be empty"@)
        } else if s.len() > 255 {
            Some("todo's text must be less then 255, got "@ + spec_dec(s.len()))
        } else {
            None
        },
        None => None,
    }
}

/// The reason the id rule rejects an id, if it does.
pub open spec fn id_rule_err(id: int) -> Option<Seq<char>> {
    if id <= 0 {
        Some("todo's id cannot be negative, got "@ + spec_dec_i64(id))
    } else {
        None
    }
}

/// The view of an optional owned text.
pub open spec fn opt_text_view(text: Option<String>) -> Option<Seq<char>> {
    match text {
        Some(s) => Some(s@),
        None => None,
    }
}

/// A payload that can be checked against its business rules.
pub trait Validator<T>: Sized {
    /// The first violated rule's message, or `None` when the payload is valid.
    spec fn validation_err(&self) -> Option<Seq<char>>;

    /// The value handed on when the payload is valid.
    spec fn validated_value(&self) -> T;

    /// Check every rule of the payload, first failure wins.
    fn validated(self) -> (r: Result<T, Error>)
        ensures
            match r {
                Ok(t) => self.validation_err() is None && t == self.validated_value(),
                Err(e) => {
                    &&& self.validation_err() is Some
                    &&& e matches Error::Validation(m) && m@ == self.validation_err()->0
                },
            },
    ;
}

/// The text rule applied to an optional text.
struct TodoText(Option<String>);

/// The id rule applied to a required id.
struct TodoId(i64);

impl Validator<TodoText> for TodoText {
    closed spec fn validation_err(&self) -> Option<Seq<char>> {
        text_rule_err(opt_text_view(self.0))
    }

    closed spec fn validated_value(&self) -> TodoText {
        *self
    }

    fn validated(self) -> (r: Result<TodoText, Error>) {
        if let Some(text) = &self.0 {
            let len = text.as_str().unicode_len();
            if len == 0 {
                return Err(Error::Validation(String::from_str("todo's text cannot be empty")));
            }
            if len > 255 {
                let mut m = String::from_str("todo's text must be less then 255, got ");
                m.append(u64_to_dec(len as u64).as_str());
                return Err(Error::Validation(m));
            }
        }
        Ok(self)
    }
}

impl Validator<TodoId> for TodoId {
    closed spec fn validation_err(&self) -> Option<Seq<char>> {
        id_rule_err(self.0 as int)
    }

    closed spec fn validated_value(&self) -> TodoId {
        *self
    }

    fn validated(self) -> (r: Result<TodoId, Error>) {
        if self.0 <= 0 {
            let mut m = String::from_str("todo's id cannot be negative, got ");
            m.append(i64_to_dec(self.0).as_str());
            return Err(Error::Validation(m));
        }
        Ok(self)
    }
}

impl Validator<NewTodo> for NewTodo {
    open spec fn validation_err(&self) -> Option<Seq<char>> {
        text_rule_err(Some(self.text@))
    }

    open spec fn validated_value(&self) -> NewTodo {
        *self
    }

    fn validated(self) -> (r: Result<NewTodo, Error>) {
        match TodoText(Some(self.text.clone())).validated() {
            Ok(_) => Ok(self),
            Err(e) => Err(e),
        }
    }
}

impl Validator<UpdateTodo> for UpdateTodo {
    open spec fn validation_err(&self) -> Option<Seq<char>> {
        match text_rule_err(opt_text_view(self.text)) {
            Some(m) => Some(m),
            None => id_rule_err(self.id as int),
        }
    }

    open spec fn validated_value(&self) -> UpdateTodo {
        *self
    }

    fn validated(self) -> (r: Result<UpdateTodo, Error>) {
        let text = match &self.text {
            Some(s) => Some(s.clone()),
            None => None,
        };
        match TodoText(text).validated() {
            Ok(_) => match TodoId(self.id).validated() {
                Ok(_) => Ok(self),
                Err(e) => Err(e),
            },
            Err(e) => Err(e),
        }
    }
}

impl Validator<QueryTodos> for QueryTodos {
    open spec fn validation_err(&self) -> Option<Seq<char>> {
        text_rule_err(opt_text_view(self.text))
    }

    open spec fn validated_value(&self) -> QueryTodos {
        *self
    }

    fn validated(self) -> (r: Result<QueryTodos, Error>) {
        let text = match &self.text {
            Some(s) => Some(s.clone()),
            None => None,
        };
        match TodoText(text).validated() {
            Ok(_) => Ok(self),
            Err(e) => Err(e),
        }
    }
}

} // verus!
