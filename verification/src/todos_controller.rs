//! One action per endpoint, each the same linear pipeline: decode the body,
//! validate the payload, call the store, wrap the result as a response.

use vstd::prelude::*;

use crate::errors::Error;
use crate::http::{HttpResponse, ResponseBody};
use crate::json::{
    decode_new_todo, decode_object, decode_query_todos, decode_update_todo, json_object_fields,
    spec_decode_new_todo, spec_decode_query_todos, spec_decode_update_todo,
};
use crate::repo::{
    spec_effective_limit, spec_find, spec_page, NewTodo, QueryTodos, TodosRepo, UpdateTodo,
};
use crate::validators::Validator;

verus! {

/// The creation payload a body yields, where it parses and types.
pub open spec fn spec_new_todo_of(body: Seq<char>) -> Option<NewTodo> {
    match json_object_fields(body) {
        Some(fields) => match spec_decode_new_todo(fields) {
            Ok(t) => Some(t),
            Err(_) => None,
        },
        None => None,
    }
}

/// The mutation payload a body yields, where it parses and types.
pub open spec fn spec_update_todo_of(body: Seq<char>) -> Option<UpdateTodo> {
    match json_object_fields(body) {
        Some(fields) => match spec_decode_update_todo(fields) {
            Ok(t) => Some(t),
            Err(_) => None,
        },
        None => None,
    }
}

/// The query payload a body yields, where it parses and types.
pub open spec fn spec_query_todos_of(body: Seq<char>) -> Option<QueryTodos> {
    match json_object_fields(body) {
        Some(fields) => match spec_decode_query_todos(fields) {
            Ok(t) => Some(t),
            Err(_) => None,
        },
        None => None,
    }
}

/// The controller over the todos store.
pub struct TodosController {
    todos_repo: TodosRepo,
}

impl TodosController {
    /// The store the controller acts on.
    pub closed spec fn repo(&self) -> TodosRepo {
        self.todos_repo
    }

    /// The store's invariant, lifted.
    pub open spec fn wf(&self) -> bool {
        self.repo().wf()
    }

    pub fn new(todos_repo: TodosRepo) -> (r: TodosController)
        requires
            todos_repo.wf(),
        ensures
            r.wf(),
            r.repo() == todos_repo,
    {
        TodosController { todos_repo }
    }

    /// Create one todo: decode, validate the text, insert, answer 200 with
    /// the stored row. On any failure the store is left untouched.
    pub fn call_create(&mut self, body: &str) -> (r: Result<HttpResponse, Error>)
        requires
            old(self).wf(),
        ensures
            final(self).wf(),
            r is Ok <==> (spec_new_todo_of(body@) matches Some(nt) && nt.validation_err() is None
                && old(self).repo().spec_next_id() < i64::MAX),
            match r {
                Ok(resp) => {
                    &&& resp.status == 200
                    &&& resp.body matches ResponseBody::Item(t) && (spec_new_todo_of(body@)
                        matches Some(nt) && {
                        &&& t.text == nt.text
                        &&& t.done == false
                        &&& t.created_at == t.updated_at
                        &&& 1 <= t.text@.len() <= 255
                        &&& t.id as int == old(self).repo().spec_next_id()
                        &&& final(self).repo().rows() == old(self).repo().rows().push(t)
                        &&& final(self).repo().spec_next_id() == old(self).repo().spec_next_id()
                            + 1
                    })
                },
                Err(e) => {
                    &&& *final(self) == *old(self)
                    &&& (e is JsonParse <==> spec_new_todo_of(body@) is None)
                    &&& (e is Validation <==> (spec_new_todo_of(body@) matches Some(nt)
                        && nt.validation_err() is Some))
                    &&& (e is MySql <==> (spec_new_todo_of(body@) matches Some(nt)
                        && nt.validation_err() is None && old(self).repo().spec_next_id()
                        == i64::MAX))
                    &&& (e is JsonParse || e is Validation || e is MySql)
                },
            },
    {
        let fields = match decode_object(body) {
            Ok(f) => f,
            Err(e) => {
                return Err(e);
            },
        };
        let decoded = match decode_new_todo(&fields) {
            Ok(t) => t,
            Err(e) => {
                return Err(e);
            },
        };
        let new_todo = match decoded.validated() {
            Ok(t) => t,
            Err(e) => {
                return Err(e);
            },
        };
        let todo = match self.todos_repo.insert(new_todo) {
            Ok(t) => t,
            Err(e) => {
                return Err(e);
            },
        };
        Ok(HttpResponse { status: 200, body: ResponseBody::Item(todo) })
    }

    /// Update one todo: decode, validate, overwrite the supplied fields of
    /// the addressed row, refresh its `updated_at`, answer 200 with the
    /// updated row. On any failure the store is left untouched.
    pub fn call_update(&mut self, body: &str) -> (r: Result<HttpResponse, Error>)
        requires
            old(self).wf(),
        ensures
            final(self).wf(),
            final(self).repo().spec_next_id() == old(self).repo().spec_next_id(),
            r is Ok <==> (spec_update_todo_of(body@) matches Some(u) && u.validation_err() is None
                && spec_find(old(self).repo().rows(), u.id as int) is Some),
            match r {
                Ok(resp) => {
                    &&& resp.status == 200
                    &&& resp.body matches ResponseBody::Item(t) && (spec_update_todo_of(body@)
                        matches Some(u) && spec_find(old(self).repo().rows(), u.id as int)
                        matches Some(orig) && {
                        &&& t.id == u.id
                        &&& t.created_at == orig.created_at
                        &&& t.text == (match u.text {
                            Some(s) => s,
                            None => orig.text,
                        })
                        &&& t.done == (match u.done {
                            Some(d) => d,
                            None => orig.done,
                        })
                        &&& orig.updated_at <= t.updated_at
                        &&& t.updated_at as int == final(self).repo().spec_clock()
                        &&& exists|k: int|
                            0 <= k < old(self).repo().rows().len() && #[trigger] old(
                                self,
                            ).repo().rows()[k] == orig && final(self).repo().rows() == old(
                                self,
                            ).repo().rows().update(k, t)
                    })
                },
                Err(e) => {
                    &&& *final(self) == *old(self)
                    &&& (e is JsonParse <==> spec_update_todo_of(body@) is None)
                    &&& (e is Validation <==> (spec_update_todo_of(body@) matches Some(u)
                        && u.validation_err() is Some))
                    &&& (e is RecordNotFound <==> (spec_update_todo_of(body@) matches Some(u)
                        && u.validation_err() is None && spec_find(
                        old(self).repo().rows(),
                        u.id as int,
                    ) is None))
                    &&& (e is JsonParse || e is Validation || e is RecordNotFound)
                },
            },
    {
        let fields = match decode_object(body) {
            Ok(f) => f,
            Err(e) => {
                return Err(e);
            },
        };
        let decoded = match decode_update_todo(&fields) {
            Ok(t) => t,
            Err(e) => {
                return Err(e);
            },
        };
        let update = match decoded.validated() {
            Ok(t) => t,
            Err(e) => {
                return Err(e);
            },
        };
        let todo = match self.todos_repo.update(update) {
            Ok(t) => t,
            Err(e) => {
                return Err(e);
            },
        };
        Ok(HttpResponse { status: 200, body: ResponseBody::Item(todo) })
    }

    /// Query todos: decode, validate, answer 200 with one page of rows and
    /// the cursor to the next page. The store is never changed.
    pub fn call_query(&self, body: &str) -> (r: Result<HttpResponse, Error>)
        requires
            self.wf(),
        ensures
            r is Ok <==> (spec_query_todos_of(body@) matches Some(q) && q.validation_err()
                is None),
            match r {
                Ok(resp) => {
                    &&& resp.status == 200
                    &&& resp.body matches ResponseBody::Page(p) && (spec_query_todos_of(body@)
                        matches Some(q) && {
                        &&& p.items@ == spec_page(
                            self.repo().rows(),
                            q,
                            spec_effective_limit(q.limit),
                        )
                        &&& p.next == (if p.items@.len() == 0 {
                            None::<i64>
                        } else {
                            Some(p.items@.last().id)
                        })
                    })
                },
                Err(e) => {
                    &&& (e is JsonParse <==> spec_query_todos_of(body@) is None)
                    &&& (e is Validation <==> (spec_query_todos_of(body@) matches Some(q)
                        && q.validation_err() is Some))
                    &&& (e is JsonParse || e is Validation)
                },
            },
    {
        let fields = match decode_object(body) {
            Ok(f) => f,
            Err(e) => {
                return Err(e);
            },
        };
        let decoded = match decode_query_todos(&fields) {
            Ok(t) => t,
            Err(e) => {
                return Err(e);
            },
        };
        let query = match decoded.validated() {
            Ok(t) => t,
            Err(e) => {
                return Err(e);
            },
        };
        let page = match self.todos_repo.query(query) {
            Ok(p) => p,
            Err(e) => {
                return Err(e);
            },
        };
        Ok(HttpResponse { status: 200, body: ResponseBody::Page(page) })
    }
}

} // verus!
