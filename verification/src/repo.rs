//! The todos store and its single-row operations.
//!
//! Rows live in memory, held in ascending-id order; ids are assigned by a
//! monotone counter, timestamps by a monotone clock fed from wall-clock time.
//! `query` pages through the rows newest-id-first with an exclusive cursor.

use vstd::prelude::*;

use crate::clock::now_micros;
use crate::errors::Error;
use crate::text::{spec_contains, str_contains};
use crate::validators::opt_text_view;

verus! {

/// One persisted todo row.
#[derive(Debug)]
pub struct Todo {
    pub id: i64,
    pub text: String,
    pub done: bool,
    pub created_at: i64,
    pub updated_at: i64,
}

impl Clone for Todo {
    fn clone(&self) -> (res: Self)
        ensures
            res == *self,
    {
        Todo {
            id: self.id,
            text: self.text.clone(),
            done: self.done,
            created_at: self.created_at,
            updated_at: self.updated_at,
        }
    }
}

/// The creation payload: the fields a client may supply for a new row.
#[derive(Debug)]
pub struct NewTodo {
    pub text: String,
}

impl Clone for NewTodo {
    fn clone(&self) -> (res: Self)
        ensures
            res == *self,
    {
        NewTodo { text: self.text.clone() }
    }
}

/// The query payload: cursor, page size and substring filter, all optional.
#[derive(Debug)]
pub struct QueryTodos {
    pub next: Option<i64>,
    pub limit: Option<u8>,
    pub text: Option<String>,
}

impl Clone for QueryTodos {
    fn clone(&self) -> (res: Self)
        ensures
            res == *self,
    {
        QueryTodos {
            next: self.next,
            limit: self.limit,
            text: match &self.text {
                Some(s) => Some(s.clone()),
                None => None,
            },
        }
    }
}

/// The mutation payload: a required id and the fields to overwrite.
#[derive(Debug)]
pub struct UpdateTodo {
    pub id: i64,
    pub text: Option<String>,
    pub done: Option<bool>,
}

impl Clone for UpdateTodo {
    fn clone(&self) -> (res: Self)
        ensures
            res == *self,
    {
        UpdateTodo {
            id: self.id,
            text: match &self.text {
                Some(s) => Some(s.clone()),
                None => None,
            },
            done: self.done,
        }
    }
}

/// One page of query results: the items, and the cursor for the next page.
#[derive(Debug)]
pub struct Paginated<T> {
    /// the id of the page's last item, the next request's `next`
    pub next: Option<i64>,
    /// the page's items
    pub items: Vec<T>,
}

/// Whether a row passes the cursor bound: a positive cursor restricts the
/// page to ids strictly below it, any other cursor restricts nothing.
pub open spec fn cursor_ok(next: Option<i64>, id: int) -> bool {
    match next {
        Some(n) => n > 0 ==> id < n,
        None => true,
    }
}

/// Whether a row passes the substring filter: a non-empty filter must occur
/// in the row's text, an empty or absent filter restricts nothing.
pub open spec fn text_filter_ok(filter: Option<Seq<char>>, text: Seq<char>) -> bool {
    match filter {
        Some(f) => f.len() > 0 ==> spec_contains(text, f),
        None => true,
    }
}

/// Whether a row belongs to the result set of a query.
pub open spec fn row_matches(t: Todo, q: QueryTodos) -> bool {
    cursor_ok(q.next, t.id as int) && text_filter_ok(opt_text_view(q.text), t.text@)
}

/// The page size actually used: a supplied limit within one to ten, and the
/// default of ten otherwise.
pub open spec fn spec_effective_limit(limit: Option<u8>) -> int {
    match limit {
        Some(l) => if 0 < l && l <= 10 {
            l as int
        } else {
            10
        },
        None => 10,
    }
}

/// The page a query returns over rows held in ascending-id order: walk the
/// rows from the newest id down, keep the matches, stop at the limit.
pub open spec fn spec_page(rows: Seq<Todo>, q: QueryTodos, limit: int) -> Seq<Todo>
    decreases rows.len(),
{
    if limit <= 0 || rows.len() == 0 {
        Seq::empty()
    } else if row_matches(rows.last(), q) {
        seq![rows.last()] + spec_page(rows.drop_last(), q, limit - 1)
    } else {
        spec_page(rows.drop_last(), q, limit)
    }
}

/// How many rows match a query, ignoring any limit.
pub open spec fn spec_match_count(rows: Seq<Todo>, q: QueryTodos) -> int
    decreases rows.len(),
{
    if rows.len() == 0 {
        0
    } else {
        spec_match_count(rows.drop_last(), q) + if row_matches(rows.last(), q) {
            1int
        } else {
            0int
        }
    }
}

/// The newest row with the given id, if any.
pub open spec fn spec_find(rows: Seq<Todo>, id: int) -> Option<Todo>
    decreases rows.len(),
{
    if rows.len() == 0 {
        None
    } else if rows.last().id as int == id {
        Some(rows.last())
    } else {
        spec_find(rows.drop_last(), id)
    }
}

/// Whether a row passes the cursor bound and the substring filter.
fn row_matches_exec(t: &Todo, q: &QueryTodos) -> (r: bool)
    ensures
        r == row_matches(*t, *q),
{
    let cursor = match q.next {
        Some(n) => !(n > 0) || t.id < n,
        None => true,
    };
    if !cursor {
        return false;
    }
    match &q.text {
        Some(f) => {
            if f.as_str().unicode_len() == 0 {
                true
            } else {
                str_contains(t.text.as_str(), f.as_str())
            }
        },
        None => true,
    }
}

/// The page size actually used.
pub fn effective_limit(limit: Option<u8>) -> (r: usize)
    ensures
        r as int == spec_effective_limit(limit),
        1 <= r <= 10,
{
    match limit {
        Some(l) => if 0 < l && l <= 10 {
            l as usize
        } else {
            10
        },
        None => 10,
    }
}

/// The todos repository: the store's rows and the two counters that assign
/// ids and timestamps.
pub struct TodosRepo {
    todos: Vec<Todo>,
    next_id: i64,
    clock: i64,
}

impl TodosRepo {
    /// The stored rows, oldest id first.
    pub closed spec fn rows(&self) -> Seq<Todo> {
        self.todos@
    }

    /// The id the next inserted row will get.
    pub closed spec fn spec_next_id(&self) -> int {
        self.next_id as int
    }

    /// The store's clock: no stored timestamp lies above it.
    pub closed spec fn spec_clock(&self) -> int {
        self.clock as int
    }

    /// The store's invariant: ids positive, strictly ascending and below the
    /// id counter; timestamps non-negative and no later than the clock.
    pub open spec fn wf(&self) -> bool {
        &&& 1 <= self.spec_next_id() <= i64::MAX
        &&& 0 <= self.spec_clock() <= i64::MAX
        &&& forall|i: int|
            0 <= i < self.rows().len() ==> 1 <= (#[trigger] self.rows()[i]).id
                < self.spec_next_id()
        &&& forall|i: int, j: int|
            0 <= i < j < self.rows().len() ==> (#[trigger] self.rows()[i]).id < (
            #[trigger] self.rows()[j]).id
        &&& forall|i: int|
            0 <= i < self.rows().len() ==> 0 <= (#[trigger] self.rows()[i]).created_at
                <= self.spec_clock() && 0 <= self.rows()[i].updated_at <= self.spec_clock()
    }

    /// An empty store.
    pub fn new() -> (r: TodosRepo)
        ensures
            r.wf(),
            r.rows() == Seq::<Todo>::empty(),
            r.spec_next_id() == 1,
            r.spec_clock() == 0,
    {
        TodosRepo { todos: Vec::new(), next_id: 1, clock: 0 }
    }

    /// Read the wall clock and move the store's clock forward to it, never
    /// backward.
    fn tick(&mut self) -> (now: i64)
        requires
            0 <= old(self).clock,
        ensures
            final(self).todos == old(self).todos,
            final(self).next_id == old(self).next_id,
            now == final(self).clock,
            old(self).clock <= final(self).clock,
    {
        let raw = now_micros();
        if raw > self.clock {
            self.clock = raw;
        }
        self.clock
    }

    /// Persist a new row: the next id, the given text, not done, created and
    /// updated at the same instant.
    pub fn insert(&mut self, new_todo: NewTodo) -> (r: Result<Todo, Error>)
        requires
            old(self).wf(),
        ensures
            final(self).wf(),
            old(self).spec_next_id() == i64::MAX ==> *final(self) == *old(self) && (r matches Err(e)
                && e is MySql),
            old(self).spec_next_id() < i64::MAX ==> match r {
                Ok(t) => {
                    &&& t.id as int == old(self).spec_next_id()
                    &&& t.text == new_todo.text
                    &&& t.done == false
                    &&& t.created_at == t.updated_at
                    &&& t.updated_at as int == final(self).spec_clock()
                    &&& final(self).rows() == old(self).rows().push(t)
                    &&& final(self).spec_next_id() == old(self).spec_next_id() + 1
                    &&& old(self).spec_clock() <= final(self).spec_clock()
                },
                Err(_) => false,
            },
    {
        if self.next_id == i64::MAX {
            return Err(Error::MySql(String::from_str("id space exhausted")));
        }
        let now = self.tick();
        let id = self.next_id;
        self.next_id = self.next_id + 1;
        let stored = Todo {
            id,
            text: new_todo.text.clone(),
            done: false,
            created_at: now,
            updated_at: now,
        };
        let returned = Todo { id, text: new_todo.text, done: false, created_at: now, updated_at: now };
        let ghost st = stored;
        self.todos.push(stored);
        proof {
            let olds = old(self).rows();
            assert(self.rows() == olds.push(st));
            assert forall|j: int| 0 <= j < self.rows().len() implies (1 <= (
            #[trigger] self.rows()[j]).id < self.spec_next_id()) && (0 <= self.rows()[j].created_at
                <= self.spec_clock()) && (0 <= self.rows()[j].updated_at <= self.spec_clock()) by {
                if j < olds.len() {
                    assert(self.rows()[j] == olds[j]);
                    assert(1 <= olds[j].id < old(self).spec_next_id());
                    assert(0 <= olds[j].created_at <= old(self).spec_clock());
                    assert(0 <= olds[j].updated_at <= old(self).spec_clock());
                } else {
                    assert(self.rows()[j] == st);
                }
            }
            assert forall|a: int, b: int| 0 <= a < b < self.rows().len() implies (
            #[trigger] self.rows()[a]).id < (#[trigger] self.rows()[b]).id by {
                if b < olds.len() {
                    assert(olds[a].id < olds[b].id);
                } else {
                    assert(self.rows()[b] == st);
                    assert(1 <= olds[a].id < old(self).spec_next_id());
                }
            }
            assert(self.wf());
        }
        Ok(returned)
    }

    /// Fetch the row with the given id.
    pub fn find(&self, id: i64) -> (r: Result<Todo, Error>)
        requires
            self.wf(),
        ensures
            match spec_find(self.rows(), id as int) {
                Some(t) => r == Ok::<Todo, Error>(t),
                None => r == Err::<Todo, Error>(Error::RecordNotFound),
            },
    {
        let mut i = self.todos.len();
        proof {
            assert(self.rows().take(i as int) =~= self.rows());
        }
        while i > 0
            invariant
                i <= self.todos.len(),
                spec_find(self.rows(), id as int) == spec_find(
                    self.rows().take(i as int),
                    id as int,
                ),
            decreases i,
        {
            i = i - 1;
            proof {
                assert(self.rows().take(i + 1).drop_last() =~= self.rows().take(i as int));
                assert(self.rows().take(i + 1).last() == self.rows()[i as int]);
            }
            if self.todos[i].id == id {
                return Ok(self.todos[i].clone());
            }
        }
        proof {
            assert(self.rows().take(0) =~= Seq::<Todo>::empty());
        }
        Err(Error::RecordNotFound)
    }

    /// Overwrite the supplied fields of the row with the given id, refresh
    /// its `updated_at`, and return the updated row.
    pub fn update(&mut self, update: UpdateTodo) -> (r: Result<Todo, Error>)
        requires
            old(self).wf(),
        ensures
            final(self).wf(),
            final(self).spec_next_id() == old(self).spec_next_id(),
            old(self).spec_clock() <= final(self).spec_clock(),
            match spec_find(old(self).rows(), update.id as int) {
                None => r == Err::<Todo, Error>(Error::RecordNotFound) && *final(self) == *old(
                    self,
                ),
                Some(orig) => match r {
                    Ok(t) => {
                        &&& t.id == orig.id
                        &&& orig.id == update.id
                        &&& t.created_at == orig.created_at
                        &&& t.text == (match update.text {
                            Some(s) => s,
                            None => orig.text,
                        })
                        &&& t.done == (match update.done {
                            Some(d) => d,
                            None => orig.done,
                        })
                        &&& t.updated_at as int == final(self).spec_clock()
                        &&& orig.updated_at <= t.updated_at
                        &&& exists|k: int|
                            0 <= k < old(self).rows().len() && #[trigger] old(self).rows()[k]
                                == orig && final(self).rows() == old(self).rows().update(k, t)
                    },
                    Err(_) => false,
                },
            },
    {
        let mut i = self.todos.len();
        proof {
            assert(self.rows().take(i as int) =~= self.rows());
        }
        while i > 0
            invariant
                old(self).wf(),
                *self == *old(self),
                i <= self.todos.len(),
                spec_find(self.rows(), update.id as int) == spec_find(
                    self.rows().take(i as int),
                    update.id as int,
                ),
            decreases i,
        {
            i = i - 1;
            proof {
                assert(self.rows().take(i + 1).drop_last() =~= self.rows().take(i as int));
                assert(self.rows().take(i + 1).last() == self.rows()[i as int]);
            }
            if self.todos[i].id == update.id {
                proof {
                    assert(spec_find(old(self).rows(), update.id as int) == Some(
                        old(self).rows()[i as int],
                    ));
                }
                let now = self.tick();
                let new_text = match &update.text {
                    Some(s) => s.clone(),
                    None => self.todos[i].text.clone(),
                };
                let new_done = match update.done {
                    Some(d) => d,
                    None => self.todos[i].done,
                };
                let stored = Todo {
                    id: update.id,
                    text: new_text,
                    done: new_done,
                    created_at: self.todos[i].created_at,
                    updated_at: now,
                };
                let returned = stored.clone();
                let ghost st = stored;
                let ghost k = i as int;
                self.todos.set(i, stored);
                proof {
                    let olds = old(self).rows();
                    assert(self.rows() == olds.update(k, st));
                    assert forall|j: int| 0 <= j < self.rows().len() implies (1 <= (
                    #[trigger] self.rows()[j]).id < self.spec_next_id()) && (0 <= self.rows()[j].created_at
                        <= self.spec_clock()) && (0 <= self.rows()[j].updated_at
                        <= self.spec_clock()) by {
                        if j != k {
                            assert(self.rows()[j] == olds[j]);
                            assert(1 <= olds[j].id < old(self).spec_next_id());
                            assert(0 <= olds[j].created_at <= old(self).spec_clock());
                            assert(0 <= olds[j].updated_at <= old(self).spec_clock());
                        } else {
                            assert(self.rows()[j] == st);
                            assert(1 <= olds[k].id < old(self).spec_next_id());
                            assert(0 <= olds[k].created_at <= old(self).spec_clock());
                        }
                    }
                    assert forall|a: int, b: int| 0 <= a < b < self.rows().len() implies (
                    #[trigger] self.rows()[a]).id < (#[trigger] self.rows()[b]).id by {
                        assert(self.rows()[a].id == olds[a].id);
                        assert(self.rows()[b].id == olds[b].id);
                        assert(olds[a].id < olds[b].id);
                    }
                    assert(self.wf());
                }
                return Ok(returned);
            }
        }
        proof {
            assert(self.rows().take(0) =~= Seq::<Todo>::empty());
        }
        Err(Error::RecordNotFound)
    }

    /// Scan the rows newest-id-first, keep those matching the query, stop at
    /// the effective page size; the page's cursor is its last item's id.
    pub fn query(&self, q: QueryTodos) -> (r: Result<Paginated<Todo>, Error>)
        requires
            self.wf(),
        ensures
            match r {
                Ok(p) => {
                    &&& p.items@ == spec_page(self.rows(), q, spec_effective_limit(q.limit))
                    &&& p.next == (if p.items@.len() == 0 {
                        None::<i64>
                    } else {
                        Some(p.items@.last().id)
                    })
                },
                Err(_) => false,
            },
    {
        let limit = effective_limit(q.limit);
        let mut items: Vec<Todo> = Vec::new();
        let mut i = self.todos.len();
        proof {
            assert(self.rows().take(i as int) =~= self.rows());
            assert(items@ + spec_page(self.rows(), q, limit as int) =~= spec_page(
                self.rows(),
                q,
                limit as int,
            ));
        }
        while i > 0 && items.len() < limit
            invariant
                i <= self.todos.len(),
                items@.len() <= limit,
                spec_page(self.rows(), q, limit as int) == items@ + spec_page(
                    self.rows().take(i as int),
                    q,
                    limit - items@.len(),
                ),
            decreases i,
        {
            i = i - 1;
            proof {
                assert(self.rows().take(i + 1).drop_last() =~= self.rows().take(i as int));
                assert(self.rows().take(i + 1).last() == self.rows()[i as int]);
            }
            let ghost items_before = items@;
            let ghost rest_before = spec_page(
                self.rows().take(i + 1),
                q,
                limit - items@.len(),
            );
            if row_matches_exec(&self.todos[i], &q) {
                items.push(self.todos[i].clone());
                proof {
                    assert(rest_before == seq![self.rows()[i as int]] + spec_page(
                        self.rows().take(i as int),
                        q,
                        limit - items_before.len() - 1,
                    ));
                    assert(items@ + spec_page(self.rows().take(i as int), q, limit - items@.len())
                        =~= items_before + rest_before);
                }
            }
        }
        proof {
            if items@.len() == limit {
                assert(spec_page(self.rows().take(i as int), q, 0) =~= Seq::<Todo>::empty());
            } else {
                assert(i == 0);
                assert(self.rows().take(0) =~= Seq::<Todo>::empty());
                assert(spec_page(Seq::<Todo>::empty(), q, limit - items@.len()) =~= Seq::<
                    Todo,
                >::empty());
            }
            assert(items@ =~= items@ + Seq::<Todo>::empty());
        }
        let next = if items.len() == 0 {
            None
        } else {
            Some(items[items.len() - 1].id)
        };
        Ok(Paginated { next, items })
    }

    /// Remove every row; ids already handed out are not reused.
    pub fn truncate(&mut self) -> (r: Result<(), Error>)
        requires
            old(self).wf(),
        ensures
            final(self).wf(),
            r == Ok::<(), Error>(()),
            final(self).rows() == Seq::<Todo>::empty(),
            final(self).spec_next_id() == old(self).spec_next_id(),
            final(self).spec_clock() == old(self).spec_clock(),
    {
        self.todos.clear();
        Ok(())
    }
}

} // verus!
