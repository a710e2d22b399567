//! Look-ahead pagination: a page of `limit` rows is fetched as `limit + 1`
//! rows, and the extra row only tells whether another page follows.

use vstd::prelude::*;

verus! {

/// `a + b`, held at `usize::MAX` when it would not fit.
pub open spec fn sat_add(a: nat, b: nat) -> nat {
    if a + b > usize::MAX {
        usize::MAX as nat
    } else {
        a + b
    }
}

/// The limit handed to the engine for a page of `limit` rows.
pub open spec fn look_ahead(limit: nat) -> nat {
    sat_add(limit, 1)
}

/// How many of `returned` look-ahead rows a page of `limit` rows keeps.
pub open spec fn page_len(returned: nat, limit: nat) -> nat {
    if returned > limit {
        limit
    } else {
        returned
    }
}

/// The offset of the following page, present only when the look-ahead
/// query returned more than `limit` rows.
pub open spec fn page_next(returned: nat, limit: nat, offset: nat) -> Option<usize> {
    if returned > limit {
        Some(sat_add(offset, limit) as usize)
    } else {
        None
    }
}

/// `a + b`, or `usize::MAX` where the sum does not fit.
pub fn saturating_add(a: usize, b: usize) -> (r: usize)
    ensures
        r == sat_add(a as nat, b as nat),
{
    a.checked_add(b).unwrap_or(usize::MAX)
}

/// The limit to ask the engine for, one more than the page holds.
pub fn look_ahead_limit(limit: usize) -> (r: usize)
    ensures
        r == look_ahead(limit as nat),
{
    saturating_add(limit, 1)
}

/// The offset of the page after this one, given how many rows the
/// look-ahead query returned.
pub fn next_page_offset(returned: usize, limit: usize, offset: usize) -> (r: Option<usize>)
    ensures
        r == page_next(returned as nat, limit as nat, offset as nat),
{
    if returned > limit {
        Some(saturating_add(offset, limit))
    } else {
        None
    }
}

/// Cuts the rows of a look-ahead query to the page and reports where the
/// next page starts.
pub fn paginate_rows<R>(rows: Vec<R>, limit: usize, offset: usize) -> (r: (Vec<R>, Option<usize>))
    ensures
        r.0@ == rows@.take(page_len(rows@.len(), limit as nat) as int),
        r.1 == page_next(rows@.len(), limit as nat, offset as nat),
{
    let returned = rows.len();
    let next = next_page_offset(returned, limit, offset);
    let mut page = rows;
    if returned > limit {
        page.truncate(limit);
    }
    proof {
        assert(rows@.take(rows@.len() as int) =~= rows@);
    }
    (page, next)
}

/// The slice `[offset, offset + limit)` of a fully fetched row list, and the
/// offset of the next page when rows remain beyond it.
pub open spec fn window<R>(rows: Seq<R>, limit: nat, offset: nat) -> Seq<R> {
    if offset >= rows.len() {
        Seq::empty()
    } else {
        rows.skip(offset as int).take(page_len((rows.len() - offset) as nat, limit) as int)
    }
}

/// The offset after a client-side window, present when the full list holds
/// more rows than the window reaches.
pub open spec fn window_next(total: nat, limit: nat, offset: nat) -> Option<usize> {
    if total > sat_add(offset, limit) {
        Some(sat_add(offset, limit) as usize)
    } else {
        None
    }
}

/// Client-side pagination: skips `offset` rows, keeps at most `limit`.
pub fn page_window<R>(rows: Vec<R>, limit: usize, offset: usize) -> (r: (Vec<R>, Option<usize>))
    ensures
        r.0@ == window(rows@, limit as nat, offset as nat),
        r.1 == window_next(rows@.len(), limit as nat, offset as nat),
{
    let total = rows.len();
    let end = saturating_add(offset, limit);
    let next = if total > end {
        Some(end)
    } else {
        None
    };
    let mut all = rows;
    if offset >= total {
        return (Vec::new(), next);
    }
    let mut page = all.split_off(offset);
    page.truncate(limit);
    proof {
        let rest = rows@.skip(offset as int);
        assert(rest.take(rest.len() as int) =~= rest);
    }
    (page, next)
}

/// The rows past `offset` of a table of `n` rows, at most `fetch` of them:
/// what the engine returns for a query with that limit and offset.
pub open spec fn engine_rows(n: nat, offset: nat, fetch: nat) -> nat {
    let past = if n > offset {
        (n - offset) as nat
    } else {
        0
    };
    if past < fetch {
        past
    } else {
        fetch
    }
}

/// Look-ahead pagination on a table of `n` rows: a page request
/// `(limit, offset)` yields `clamp(n - offset, 0, limit)` rows, and a next
/// offset of `offset + limit` exactly when `offset + limit < n`.
pub proof fn lemma_page_of_table(n: nat, limit: usize, offset: usize)
    requires
        n <= usize::MAX,
    ensures
        page_len(engine_rows(n, offset as nat, look_ahead(limit as nat)), limit as nat) == engine_rows(
            n,
            offset as nat,
            limit as nat,
        ),
        page_next(engine_rows(n, offset as nat, look_ahead(limit as nat)), limit as nat, offset as nat)
            == (if offset + limit < n {
            Some((offset + limit) as usize)
        } else {
            None
        }),
{
}

} // verus!
