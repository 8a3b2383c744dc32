//! Laws of cursor pagination, proved once over the page function.
//!
//! The central fact: paging with the returned cursor continues the scan with
//! no row repeated and no row skipped — two successive pages concatenate to
//! exactly the page a single request with the combined size would return.

use vstd::prelude::*;

use crate::repo::{
    cursor_ok, row_matches, spec_effective_limit, spec_match_count, spec_page, QueryTodos, Todo,
    TodosRepo,
};

verus! {

/// Row ids strictly ascend with position.
pub open spec fn rows_ascending(rows: Seq<Todo>) -> bool {
    forall|i: int, j: int|
        0 <= i < j < rows.len() ==> (#[trigger] rows[i]).id < (#[trigger] rows[j]).id
}

/// Every row's id is positive.
pub open spec fn ids_positive(rows: Seq<Todo>) -> bool {
    forall|i: int| 0 <= i < rows.len() ==> (#[trigger] rows[i]).id >= 1
}

/// A well-formed store holds its rows in ascending id order with positive
/// ids — the shape every pagination law below asks for.
pub proof fn lemma_wf_rows_ordered(r: TodosRepo)
    requires
        r.wf(),
    ensures
        rows_ascending(r.rows()),
        ids_positive(r.rows()),
{
}

/// Every item of a page is one of the scanned rows, and matches the query.
pub proof fn lemma_page_elems(rows: Seq<Todo>, q: QueryTodos, limit: int)
    ensures
        forall|i: int|
            0 <= i < spec_page(rows, q, limit).len() ==> rows.contains(
                #[trigger] spec_page(rows, q, limit)[i],
            ) && row_matches(spec_page(rows, q, limit)[i], q),
    decreases rows.len(),
{
    if limit <= 0 || rows.len() == 0 {
    } else {
        lemma_page_elems(rows.drop_last(), q, limit - 1);
        lemma_page_elems(rows.drop_last(), q, limit);
        assert forall|i: int| 0 <= i < rows.drop_last().len() implies rows.contains(
            rows.drop_last()[i],
        ) by {
            assert(rows.drop_last()[i] == rows[i]);
        }
        assert(rows.contains(rows.last()));
        if row_matches(rows.last(), q) {
            let page = spec_page(rows, q, limit);
            let rest = spec_page(rows.drop_last(), q, limit - 1);
            assert forall|i: int| 0 <= i < page.len() implies rows.contains(#[trigger] page[i])
                && row_matches(page[i], q) by {
                if i == 0 {
                    assert(page[0] == rows.last());
                } else {
                    assert(page[i] == rest[i - 1]);
                    assert(rows.drop_last().contains(rest[i - 1]));
                    let j = choose|j: int|
                        0 <= j < rows.drop_last().len() && rows.drop_last()[j] == rest[i - 1];
                    assert(rows[j] == rest[i - 1]);
                }
            }
        } else {
            let page = spec_page(rows, q, limit);
            let rest = spec_page(rows.drop_last(), q, limit);
            assert forall|i: int| 0 <= i < page.len() implies rows.contains(#[trigger] page[i])
                && row_matches(page[i], q) by {
                assert(page[i] == rest[i]);
                assert(rows.drop_last().contains(rest[i]));
                let j = choose|j: int|
                    0 <= j < rows.drop_last().len() && rows.drop_last()[j] == rest[i];
                assert(rows[j] == rest[i]);
            }
        }
    }
}

/// A page holds exactly as many items as the scan allows: the page size, or
/// every matching row where fewer match.
pub proof fn lemma_page_len(rows: Seq<Todo>, q: QueryTodos, limit: int)
    requires
        0 <= limit,
    ensures
        spec_page(rows, q, limit).len() == if limit <= spec_match_count(rows, q) {
            limit
        } else {
            spec_match_count(rows, q)
        },
        0 <= spec_match_count(rows, q) <= rows.len(),
    decreases rows.len(),
{
    if rows.len() == 0 {
    } else {
        lemma_page_len(rows.drop_last(), q, limit);
        if limit > 0 && row_matches(rows.last(), q) {
            lemma_page_len(rows.drop_last(), q, limit - 1);
        }
    }
}

/// An unrestricted query matches every row: asking for `limit` rows returns
/// exactly the smaller of `limit` and the number of stored rows.
pub proof fn lemma_unfiltered_page_len(rows: Seq<Todo>, q: QueryTodos, limit: int)
    requires
        0 <= limit,
        q.next is None,
        q.text is None,
    ensures
        spec_page(rows, q, limit).len() == if limit <= rows.len() {
            limit
        } else {
            rows.len() as int
        },
    decreases rows.len(),
{
    lemma_page_len(rows, q, limit);
    lemma_unfiltered_count(rows, q);
}

/// An unrestricted query counts every row.
proof fn lemma_unfiltered_count(rows: Seq<Todo>, q: QueryTodos)
    requires
        q.next is None,
        q.text is None,
    ensures
        spec_match_count(rows, q) == rows.len(),
    decreases rows.len(),
{
    if rows.len() > 0 {
        lemma_unfiltered_count(rows.drop_last(), q);
    }
}

/// Two queries that agree on every scanned row page identically.
pub proof fn lemma_page_congruent(rows: Seq<Todo>, qa: QueryTodos, qb: QueryTodos, limit: int)
    requires
        forall|i: int|
            0 <= i < rows.len() ==> row_matches(#[trigger] rows[i], qa) == row_matches(
                rows[i],
                qb,
            ),
    ensures
        spec_page(rows, qa, limit) == spec_page(rows, qb, limit),
    decreases rows.len(),
{
    if limit <= 0 || rows.len() == 0 {
    } else {
        assert forall|i: int| 0 <= i < rows.drop_last().len() implies row_matches(
            #[trigger] rows.drop_last()[i],
            qa,
        ) == row_matches(rows.drop_last()[i], qb) by {
            assert(rows.drop_last()[i] == rows[i]);
        }
        assert(row_matches(rows.last(), qa) == row_matches(rows.last(), qb)) by {
            assert(rows.last() == rows[rows.len() - 1]);
        }
        lemma_page_congruent(rows.drop_last(), qa, qb, limit - 1);
        lemma_page_congruent(rows.drop_last(), qa, qb, limit);
    }
}

/// Pages descend: within one page, ids strictly fall with position.
pub proof fn lemma_page_descending(rows: Seq<Todo>, q: QueryTodos, limit: int)
    requires
        rows_ascending(rows),
    ensures
        forall|i: int, j: int|
            0 <= i < j < spec_page(rows, q, limit).len() ==> (#[trigger] spec_page(
                rows,
                q,
                limit,
            )[i]).id > (#[trigger] spec_page(rows, q, limit)[j]).id,
    decreases rows.len(),
{
    if limit <= 0 || rows.len() == 0 {
    } else {
        let rest_rows = rows.drop_last();
        assert forall|a: int, b: int| 0 <= a < b < rest_rows.len() implies (
        #[trigger] rest_rows[a]).id < (#[trigger] rest_rows[b]).id by {
            assert(rest_rows[a] == rows[a]);
            assert(rest_rows[b] == rows[b]);
        }
        lemma_page_descending(rest_rows, q, limit - 1);
        lemma_page_descending(rest_rows, q, limit);
        let page = spec_page(rows, q, limit);
        if row_matches(rows.last(), q) {
            let rest = spec_page(rest_rows, q, limit - 1);
            lemma_page_elems(rest_rows, q, limit - 1);
            assert forall|i: int, j: int| 0 <= i < j < page.len() implies (#[trigger] page[i]).id
                > (#[trigger] page[j]).id by {
                if i == 0 {
                    assert(page[0] == rows.last());
                    assert(page[j] == rest[j - 1]);
                    assert(rest_rows.contains(rest[j - 1]));
                    let k = choose|k: int|
                        0 <= k < rest_rows.len() && rest_rows[k] == rest[j - 1];
                    assert(rest_rows[k] == rows[k]);
                    assert(rows[k].id < rows.last().id);
                } else {
                    assert(page[i] == rest[i - 1]);
                    assert(page[j] == rest[j - 1]);
                }
            }
        } else {
            let rest = spec_page(rest_rows, q, limit);
            assert forall|i: int, j: int| 0 <= i < j < page.len() implies (#[trigger] page[i]).id
                > (#[trigger] page[j]).id by {
                assert(page[i] == rest[i]);
                assert(page[j] == rest[j]);
            }
        }
    }
}

/// Paging with the returned cursor neither repeats nor skips a row: a page
/// of size `l1` followed by a page of size `l2` asked with the first page's
/// cursor is exactly the page of size `l1 + l2`.
pub proof fn lemma_pagination_round_trip(
    rows: Seq<Todo>,
    q: QueryTodos,
    q2: QueryTodos,
    l1: int,
    l2: int,
)
    requires
        rows_ascending(rows),
        ids_positive(rows),
        1 <= l1,
        0 <= l2,
        spec_page(rows, q, l1).len() > 0,
        q2.next == Some(spec_page(rows, q, l1).last().id),
        q2.text == q.text,
    ensures
        spec_page(rows, q, l1) + spec_page(rows, q2, l2) == spec_page(rows, q, l1 + l2),
    decreases rows.len(),
{
    let p1 = spec_page(rows, q, l1);
    let cursor = p1.last().id;
    let last = rows.last();
    let rest_rows = rows.drop_last();
    assert(rows.len() > 0);
    assert forall|a: int, b: int| 0 <= a < b < rest_rows.len() implies (
    #[trigger] rest_rows[a]).id < (#[trigger] rest_rows[b]).id by {
        assert(rest_rows[a] == rows[a]);
        assert(rest_rows[b] == rows[b]);
    }
    assert forall|a: int| 0 <= a < rest_rows.len() implies (#[trigger] rest_rows[a]).id >= 1 by {
        assert(rest_rows[a] == rows[a]);
    }
    lemma_page_elems(rows, q, l1);
    assert(rows.contains(p1.last())) by {
        assert(p1.last() == p1[p1.len() - 1]);
    }
    assert(cursor >= 1) by {
        let k = choose|k: int| 0 <= k < rows.len() && rows[k] == p1.last();
    }
    if row_matches(last, q) {
        let rest1 = spec_page(rest_rows, q, l1 - 1);
        assert(p1 == seq![last] + rest1);
        if rest1.len() > 0 {
            // the first page goes on below the newest row; recurse on the rest
            assert(p1.last() == rest1.last()) by {
                assert(p1[p1.len() - 1] == rest1[rest1.len() - 1]);
            }
            lemma_pagination_round_trip(rest_rows, q, q2, l1 - 1, l2);
            assert(!row_matches(last, q2)) by {
                lemma_page_elems(rest_rows, q, l1 - 1);
                assert(rest_rows.contains(rest1.last())) by {
                    assert(rest1.last() == rest1[rest1.len() - 1]);
                }
                let k = choose|k: int| 0 <= k < rest_rows.len() && rest_rows[k] == rest1.last();
                assert(rest_rows[k] == rows[k]);
                assert(rows[k].id < last.id);
            }
            assert(spec_page(rows, q2, l2) == spec_page(rest_rows, q2, l2));
            assert(spec_page(rows, q, l1 + l2) == seq![last] + spec_page(
                rest_rows,
                q,
                l1 + l2 - 1,
            ));
            assert(seq![last] + (rest1 + spec_page(rest_rows, q2, l2)) =~= (seq![last] + rest1)
                + spec_page(rest_rows, q2, l2));
        } else {
            // the newest row is the whole first page; its id is the cursor
            assert(p1 =~= seq![last]);
            assert(p1.last() == last);
            assert(cursor == last.id);
            assert(!row_matches(last, q2));
            assert(spec_page(rows, q2, l2) == spec_page(rest_rows, q2, l2));
            // below the cursor, the old and the new query agree row for row
            assert forall|i: int| 0 <= i < rest_rows.len() implies row_matches(
                #[trigger] rest_rows[i],
                q,
            ) == row_matches(rest_rows[i], q2) by {
                assert(rest_rows[i] == rows[i]);
                assert(rows[i].id < last.id);
                assert(cursor_ok(q2.next, rest_rows[i].id as int));
                assert(cursor_ok(q.next, last.id as int));
                assert(cursor_ok(q.next, rest_rows[i].id as int));
            }
            lemma_page_congruent(rest_rows, q, q2, l2);
            if l1 == 1 {
                assert(spec_page(rows, q, l1 + l2) == seq![last] + spec_page(
                    rest_rows,
                    q,
                    l2,
                ));
                assert(p1 + spec_page(rest_rows, q2, l2) =~= seq![last] + spec_page(
                    rest_rows,
                    q,
                    l2,
                ));
            } else {
                // a bigger first page found nothing more: nothing matches below
                lemma_page_len(rest_rows, q, l1 - 1);
                assert(spec_match_count(rest_rows, q) == 0);
                lemma_page_len(rest_rows, q, l2);
                lemma_page_len(rest_rows, q, l1 + l2 - 1);
                assert(spec_page(rest_rows, q, l1 + l2 - 1) =~= Seq::<Todo>::empty());
                lemma_page_congruent(rest_rows, q, q2, l2);
                assert(spec_page(rest_rows, q2, l2).len() == 0);
                assert(spec_page(rest_rows, q2, l2) =~= Seq::<Todo>::empty());
                assert(p1 + spec_page(rows, q2, l2) =~= p1);
                assert(spec_page(rows, q, l1 + l2) == seq![last] + spec_page(
                    rest_rows,
                    q,
                    l1 + l2 - 1,
                ));
                assert(seq![last] + spec_page(rest_rows, q, l1 + l2 - 1) =~= p1);
            }
        }
    } else {
        // the newest row is filtered out under both cursors
        assert(p1 == spec_page(rest_rows, q, l1));
        lemma_pagination_round_trip(rest_rows, q, q2, l1, l2);
        assert(!row_matches(last, q2)) by {
            lemma_page_elems(rest_rows, q, l1);
            assert(rest_rows.contains(p1.last())) by {
                assert(p1.last() == p1[p1.len() - 1]);
            }
            let k = choose|k: int| 0 <= k < rest_rows.len() && rest_rows[k] == p1.last();
            assert(rest_rows[k] == rows[k]);
            assert(rows[k].id < last.id);
        }
        assert(spec_page(rows, q2, l2) == spec_page(rest_rows, q2, l2));
        assert(spec_page(rows, q, l1 + l2) == spec_page(rest_rows, q, l1 + l2));
    }
}

/// The round trip on a well-formed store, with the page sizes a query
/// actually uses: one page, then the page asked with its returned cursor,
/// together make exactly the combined page — no row repeated, none skipped.
pub proof fn lemma_repo_pagination_round_trip(repo: TodosRepo, q: QueryTodos, q2: QueryTodos)
    requires
        repo.wf(),
        spec_page(repo.rows(), q, spec_effective_limit(q.limit)).len() > 0,
        q2.next == Some(
            spec_page(repo.rows(), q, spec_effective_limit(q.limit)).last().id,
        ),
        q2.text == q.text,
    ensures
        spec_page(repo.rows(), q, spec_effective_limit(q.limit)) + spec_page(
            repo.rows(),
            q2,
            spec_effective_limit(q2.limit),
        ) == spec_page(
            repo.rows(),
            q,
            spec_effective_limit(q.limit) + spec_effective_limit(q2.limit),
        ),
{
    lemma_wf_rows_ordered(repo);
    lemma_pagination_round_trip(
        repo.rows(),
        q,
        q2,
        spec_effective_limit(q.limit),
        spec_effective_limit(q2.limit),
    );
}

} // verus!
