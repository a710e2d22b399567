//! The query-options composer and the cleaning of caller-supplied options.
//!
//! A query is described by a [`QueryPlan`]: its kind (plain scan,
//! nearest-neighbour search, full-text search) and the options every kind
//! shares. The engine adapter turns a plan into the engine's own query.

use vstd::prelude::*;
use vstd::string::*;
use vstd::hash_set::StringHashSet;

use crate::text::{non_blank, trim_of, trim_str};

verus! {

/// The text of an optional string.
pub open spec fn opt_text(o: Option<String>) -> Option<Seq<char>> {
    match o {
        Some(s) => Some(s@),
        None => None,
    }
}

/// The texts of a list of strings.
pub open spec fn texts(v: Seq<String>) -> Seq<Seq<char>> {
    v.map_values(|s: String| s@)
}

/// The texts of an optional list of strings.
pub open spec fn opt_texts(o: Option<Vec<String>>) -> Option<Seq<Seq<char>>> {
    match o {
        Some(v) => Some(texts(v@)),
        None => None,
    }
}

/// Options shared by every query kind: projection, predicate, limit, offset.
pub struct QueryOptions {
    pub projection: Option<Vec<String>>,
    pub filter: Option<String>,
    pub limit: Option<usize>,
    pub offset: Option<usize>,
}

/// The four query kinds differ only in how rows are chosen; a filtered scan
/// is a scan with a predicate.
pub enum QueryKind {
    /// Every row, in storage order.
    Scan,
    /// Nearest neighbours of a query vector, which the engine adapter
    /// supplies; optionally on a named vector column.
    Vector { column: Option<String>, nprobes: Option<usize>, refine_factor: Option<u32> },
    /// Rows matching a full-text query, optionally restricted to columns.
    FullText { query: String, columns: Option<Vec<String>> },
}

/// A backend-agnostic query description.
pub struct QueryPlan {
    pub kind: QueryKind,
    pub filter: Option<String>,
    pub limit: Option<usize>,
    pub offset: Option<usize>,
    pub projection: Option<Vec<String>>,
}

impl QueryPlan {
    /// A query of the given kind with no options applied.
    pub fn new(kind: QueryKind) -> (r: QueryPlan)
        ensures
            r.kind == kind,
            r.filter is None,
            r.limit is None,
            r.offset is None,
            r.projection is None,
    {
        QueryPlan { kind, filter: None, limit: None, offset: None, projection: None }
    }
}

/// Clones a list of strings, text for text.
pub fn clone_texts(v: &Vec<String>) -> (r: Vec<String>)
    ensures
        texts(r@) == texts(v@),
{
    let mut out: Vec<String> = Vec::new();
    let mut i: usize = 0;
    while i < v.len()
        invariant
            i <= v@.len(),
            texts(out@) == texts(v@.take(i as int)),
        decreases v@.len() - i,
    {
        let ghost prev = out@;
        let c = v[i].clone();
        out.push(c);
        assert(texts(out@) =~= texts(prev).push(v@[i as int]@));
        assert(texts(v@.take(i + 1)) =~= texts(v@.take(i as int)).push(v@[i as int]@));
        i += 1;
    }
    assert(v@.take(v@.len() as int) =~= v@);
    out
}

/// Applies an option set to a query of any kind: the predicate, limit and
/// offset where present, and the projection where present and non-empty.
/// The kind is untouched, and no option depends on another.
pub fn apply_query_options(query: QueryPlan, options: &QueryOptions) -> (r: QueryPlan)
    ensures
        r.kind == query.kind,
        opt_text(r.filter) == (if options.filter is Some {
            opt_text(options.filter)
        } else {
            opt_text(query.filter)
        }),
        r.limit == (if options.limit is Some {
            options.limit
        } else {
            query.limit
        }),
        r.offset == (if options.offset is Some {
            options.offset
        } else {
            query.offset
        }),
        opt_texts(r.projection) == (match options.projection {
            Some(p) => if p@.len() > 0 {
                opt_texts(options.projection)
            } else {
                opt_texts(query.projection)
            },
            None => opt_texts(query.projection),
        }),
{
    let mut q = query;
    if let Some(filter) = &options.filter {
        q.filter = Some(filter.clone());
    }
    if let Some(limit) = options.limit {
        q.limit = Some(limit);
    }
    if let Some(offset) = options.offset {
        q.offset = Some(offset);
    }
    if let Some(projection) = &options.projection {
        if projection.len() > 0 {
            q.projection = Some(clone_texts(projection));
        }
    }
    q
}

/// Trims a predicate; a missing or blank one becomes `None`.
pub fn sanitize_filter(filter: Option<String>) -> (r: Option<String>)
    ensures
        opt_text(r) == non_blank(opt_text(filter)),
{
    match filter {
        Some(value) => {
            let trimmed = trim_str(value.as_str());
            if trimmed.unicode_len() == 0 {
                None
            } else {
                Some(String::from_str(trimmed))
            }
        },
        None => None,
    }
}

/// Column names trimmed, blanks dropped, and each name kept only where it
/// first appears (`seen` holds names already taken).
pub open spec fn clean_columns(cols: Seq<Seq<char>>, seen: Set<Seq<char>>) -> Seq<Seq<char>>
    decreases cols.len(),
{
    if cols.len() == 0 {
        Seq::empty()
    } else {
        let t = trim_of(cols[0]);
        if t.len() == 0 || seen.contains(t) {
            clean_columns(cols.skip(1), seen)
        } else {
            seq![t] + clean_columns(cols.skip(1), seen.insert(t))
        }
    }
}

/// A projection as the composer takes it: trimmed, without blanks or
/// repeats, order kept; one that ends up empty means none.
pub open spec fn clean_projection(p: Option<Seq<Seq<char>>>) -> Option<Seq<Seq<char>>> {
    match p {
        Some(cols) => if clean_columns(cols, Set::empty()).len() == 0 {
            None
        } else {
            Some(clean_columns(cols, Set::empty()))
        },
        None => None,
    }
}

/// Trims the names of a column list, drops blanks and repeats.
pub fn clean_column_list(cols: &Vec<String>) -> (r: Vec<String>)
    ensures
        texts(r@) == clean_columns(texts(cols@), Set::empty()),
{
    let ghost all = texts(cols@);
    let mut out: Vec<String> = Vec::new();
    let mut seen = StringHashSet::new();
    let mut i: usize = 0;
    proof {
        assert(all.skip(0) =~= all);
        assert(Seq::<Seq<char>>::empty() + clean_columns(all, Set::empty()) =~= clean_columns(all, Set::empty()));
    }
    while i < cols.len()
        invariant
            i <= cols@.len(),
            all == texts(cols@),
            texts(out@) + clean_columns(all.skip(i as int), seen@) == clean_columns(all, Set::empty()),
        decreases cols@.len() - i,
    {
        let ghost before = texts(out@);
        let ghost seen0 = seen@;
        proof {
            assert(all.skip(i as int).skip(1) =~= all.skip(i + 1));
            assert(all.skip(i as int)[0] == cols@[i as int]@);
        }
        let t = trim_str(cols[i].as_str());
        if t.unicode_len() > 0 && !seen.contains(t) {
            let owned = String::from_str(t);
            seen.insert(String::from_str(t));
            out.push(owned);
            assert(texts(out@) =~= before.push(t@));
            assert(before + (seq![t@] + clean_columns(all.skip(i + 1), seen@)) =~= before.push(t@)
                + clean_columns(all.skip(i + 1), seen@));
        }
        i += 1;
    }
    proof {
        assert(all.skip(cols@.len() as int) =~= Seq::<Seq<char>>::empty());
        assert(texts(out@) + Seq::<Seq<char>>::empty() =~= texts(out@));
    }
    out
}

/// Cleans a projection: names trimmed, blanks and repeats dropped, order
/// kept; a projection that ends up empty becomes `None`.
pub fn sanitize_projection(projection: Option<Vec<String>>) -> (r: Option<Vec<String>>)
    ensures
        opt_texts(r) == clean_projection(opt_texts(projection)),
{
    match projection {
        Some(cols) => {
            let cleaned = clean_column_list(&cols);
            if cleaned.len() == 0 {
                None
            } else {
                Some(cleaned)
            }
        },
        None => None,
    }
}

} // verus!
