//! The pure parts of persistence: keyset pagination and the reading of update
//! results. The SQL itself is run by the caller.

use vstd::prelude::*;

verus! {

/// Why a persistence operation failed.
#[derive(Debug, PartialEq, Eq, Structural)]
pub enum PersistenceError {
    /// No row matched.
    NotFound,
    /// A unique index rejected the write.
    UniqueViolation,
}

/// Inputs to a keyset-paginated list query.
#[derive(Debug)]
pub struct ListPageQuery {
    /// `(created_at, bare id)` of the last item of the previous page; `None`
    /// asks for the first page. Ordering is `(created_at DESC, id DESC)`.
    pub cursor: Option<(i64, String)>,
    pub limit: u32,
}

/// One page of a list.
#[derive(Debug)]
pub struct ListPage<T> {
    pub items: Vec<T>,
    /// Whether rows follow this page.
    pub has_more: bool,
}

/// How many rows to fetch for a page of `limit` items: one more, to learn
/// whether another page follows.
pub fn fetch_limit(limit: u32) -> (r: i64)
    ensures
        r == limit + 1,
{
    limit as i64 + 1
}

/// Turns the rows fetched for a page of `limit` into the page: more than
/// `limit` rows means another page follows, and the extra row is dropped.
pub fn finish_page<T>(rows: Vec<T>, limit: u32) -> (r: ListPage<T>)
    ensures
        r.has_more == (rows@.len() > limit),
        r.items@ == (if r.has_more { rows@.drop_last() } else { rows@ }),
{
    let mut items = rows;
    let has_more = items.len() > limit as usize;
    if has_more {
        items.pop();
    }
    ListPage { items, has_more }
}

/// A page built from at most `limit + 1` rows holds at most `limit` items, and
/// they are the first rows in order.
pub proof fn lemma_page_bounded<T>(rows: Seq<T>, limit: u32)
    requires
        rows.len() <= limit + 1,
    ensures
        ({
            let has_more = rows.len() > limit;
            let items = if has_more { rows.drop_last() } else { rows };
            &&& items.len() <= limit
            &&& items == rows.take(items.len() as int)
        }),
{
    let has_more = rows.len() > limit;
    let items = if has_more { rows.drop_last() } else { rows };
    assert(items =~= rows.take(items.len() as int));
}

/// The result of a guarded update: no affected row means the row was not there
/// (or no longer in the guarded state).
pub fn require_affected(rows_affected: u64) -> (r: Result<(), PersistenceError>)
    ensures
        r is Ok <==> rows_affected > 0,
        r matches Err(e) ==> e == PersistenceError::NotFound,
{
    if rows_affected == 0 {
        Err(PersistenceError::NotFound)
    } else {
        Ok(())
    }
}

} // verus!
