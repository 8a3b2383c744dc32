//! The stateless request/response mapping: a fixed route table, and the
//! uniform error responder applied to whatever the matched action returns.

use vstd::prelude::*;

use crate::http::{handle_api_err, HttpResponse, Method, ResponseBody};
use crate::repo::{spec_effective_limit, spec_find, spec_page, Todo, TodosRepo};
use crate::text::str_eq;
use crate::todos_controller::{
    spec_new_todo_of, spec_query_todos_of, spec_update_todo_of, TodosController,
};
use crate::validators::{id_rule_err, opt_text_view, text_rule_err};

verus! {

/// Whether a method and path pair hits any entry of the route table.
pub open spec fn spec_route_matched(method: Method, path: Seq<char>) -> bool {
    ||| (method == Method::Get && path == "/health"@)
    ||| (method == Method::Post && (path == "/todos/create"@ || path == "/todos/update"@ || path
        == "/todos/query"@))
}

/// The status a create request ends in: 400 for a body that does not decode,
/// 412 for one that breaks a rule, 500 where the id space is spent, 200
/// otherwise.
pub open spec fn spec_create_status(next_id: int, body: Seq<char>) -> int {
    match spec_new_todo_of(body) {
        None => 400,
        Some(nt) => if text_rule_err(Some(nt.text@)) is Some {
            412
        } else if next_id == i64::MAX {
            500
        } else {
            200
        },
    }
}

/// The status an update request ends in: 400 for a body that does not
/// decode, 412 for one that breaks a rule, 404 where no row has the id, 200
/// otherwise.
pub open spec fn spec_update_status(rows: Seq<Todo>, body: Seq<char>) -> int {
    match spec_update_todo_of(body) {
        None => 400,
        Some(u) => if (match text_rule_err(opt_text_view(u.text)) {
            Some(m) => Some(m),
            None => id_rule_err(u.id as int),
        }) is Some {
            412
        } else if spec_find(rows, u.id as int) is None {
            404
        } else {
            200
        },
    }
}

/// The status a query request ends in: 400 for a body that does not decode,
/// 412 for one that breaks a rule, 200 otherwise.
pub open spec fn spec_query_status(body: Seq<char>) -> int {
    match spec_query_todos_of(body) {
        None => 400,
        Some(q) => if text_rule_err(opt_text_view(q.text)) is Some {
            412
        } else {
            200
        },
    }
}

/// The server: the route table around one controller.
pub struct Server {
    controller: TodosController,
}

impl Server {
    /// The controller behind the routes.
    pub closed spec fn controller(&self) -> TodosController {
        self.controller
    }

    /// The store's invariant, lifted.
    pub open spec fn wf(&self) -> bool {
        self.controller().wf()
    }

    pub fn new(todos_repo: TodosRepo) -> (r: Server)
        requires
            todos_repo.wf(),
        ensures
            r.wf(),
            r.controller().repo() == todos_repo,
    {
        Server { controller: TodosController::new(todos_repo) }
    }

    /// Answer one request: route on method and path, run the matched action,
    /// and map an error outcome through the uniform error table.
    pub fn handle(&mut self, method: Method, path: &str, body: &str) -> (resp: HttpResponse)
        requires
            old(self).wf(),
        ensures
            final(self).wf(),
            !spec_route_matched(method, path@) ==> resp.status == 404 && resp.body is Empty
                && *final(self) == *old(self),
            method == Method::Get && path@ == "/health"@ ==> resp.status == 200 && resp.body
                is Health && *final(self) == *old(self),
            method == Method::Post && path@ == "/todos/create"@ ==> {
                &&& resp.status as int == spec_create_status(
                    old(self).controller().repo().spec_next_id(),
                    body@,
                )
                &&& (resp.status == 200 ==> (resp.body matches ResponseBody::Item(t)
                    && (spec_new_todo_of(body@) matches Some(nt) && {
                    &&& t.text == nt.text
                    &&& t.done == false
                    &&& t.created_at == t.updated_at
                    &&& 1 <= t.text@.len() <= 255
                    &&& final(self).controller().repo().rows() == old(
                        self,
                    ).controller().repo().rows().push(t)
                })))
                &&& (resp.status != 200 ==> resp.body is Failure && *final(self) == *old(self))
            },
            method == Method::Post && path@ == "/todos/update"@ ==> {
                &&& resp.status as int == spec_update_status(
                    old(self).controller().repo().rows(),
                    body@,
                )
                &&& (resp.status == 200 ==> (resp.body matches ResponseBody::Item(t)
                    && (spec_update_todo_of(body@) matches Some(u) && spec_find(
                    old(self).controller().repo().rows(),
                    u.id as int,
                ) matches Some(orig) && {
                    &&& t.id == u.id
                    &&& t.created_at == orig.created_at
                    &&& t.text == (match u.text {
                        Some(s) => s,
                        None => orig.text,
                    })
                    &&& t.done == (match u.done {
                        Some(d) => d,
                        None => orig.done,
                    })
                    &&& orig.updated_at <= t.updated_at
                    &&& exists|k: int|
                        0 <= k < old(self).controller().repo().rows().len()
                            && #[trigger] old(self).controller().repo().rows()[k] == orig
                            && final(self).controller().repo().rows() == old(
                            self,
                        ).controller().repo().rows().update(k, t)
                })))
                &&& (resp.status != 200 ==> resp.body is Failure && *final(self) == *old(self))
            },
            method == Method::Post && path@ == "/todos/query"@ ==> *final(self) == *old(self) && {
                &&& resp.status as int == spec_query_status(body@)
                &&& (resp.status == 200 ==> (resp.body matches ResponseBody::Page(p)
                    && (spec_query_todos_of(body@) matches Some(q) && {
                    &&& p.items@ == spec_page(
                        old(self).controller().repo().rows(),
                        q,
                        spec_effective_limit(q.limit),
                    )
                    &&& p.next == (if p.items@.len() == 0 {
                        None::<i64>
                    } else {
                        Some(p.items@.last().id)
                    })
                })))
                &&& (resp.status != 200 ==> resp.body is Failure)
            },
    {
        proof {
            reveal_strlit("/todos/create");
            reveal_strlit("/todos/update");
            reveal_strlit("/todos/query");
            reveal_strlit("/health");
            assert("/todos/create"@[7] != "/todos/update"@[7]);
            assert("/todos/create"@[7] != "/todos/query"@[7]);
            assert("/todos/update"@[7] != "/todos/query"@[7]);
        }
        match method {
            Method::Post => {
                if str_eq(path, "/todos/create") {
                    let result = self.controller.call_create(body);
                    handle_api_err(result)
                } else if str_eq(path, "/todos/update") {
                    let result = self.controller.call_update(body);
                    handle_api_err(result)
                } else if str_eq(path, "/todos/query") {
                    let result = self.controller.call_query(body);
                    handle_api_err(result)
                } else {
                    HttpResponse { status: 404, body: ResponseBody::Empty }
                }
            },
            Method::Get => {
                if str_eq(path, "/health") {
                    HttpResponse { status: 200, body: ResponseBody::Health }
                } else {
                    HttpResponse { status: 404, body: ResponseBody::Empty }
                }
            },
            Method::Other => HttpResponse { status: 404, body: ResponseBody::Empty },
        }
    }
}

} // verus!
