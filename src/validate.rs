//! Local checks on caller-supplied values, made before any engine call.

use vstd::prelude::*;
use vstd::string::*;

use arrow_schema::DataType;

use crate::ipc::{ColumnAlterationInput, OptimizeActionV1, UpdateColumnInputV1};
use crate::query::opt_text;
use crate::schema::{to_arrow_data_type, type_error};
use crate::query::{clean_columns, clean_column_list, texts};
use crate::text::{non_blank, trim_of, trim_str};

verus! {

/// The delimiter a caller asked for: the fallback when none or a blank one
/// was given, the byte of a single ASCII character, and an error otherwise.
pub open spec fn delimiter_choice(d: Option<Seq<char>>, fallback: u8) -> Option<u8> {
    match d {
        None => Some(fallback),
        Some(s) => {
            let t = trim_of(s);
            if t.len() == 0 {
                Some(fallback)
            } else if t.len() == 1 && (t[0] as u32) < 128 {
                Some(t[0] as u32 as u8)
            } else {
                None
            }
        },
    }
}

/// Reads a field delimiter: surrounding whitespace is ignored, a missing or
/// blank one gives `fallback`, and anything but a single one-byte
/// character is refused.
pub fn parse_delimiter(delimiter: Option<String>, fallback: u8) -> (r: Result<u8, String>)
    ensures
        match delimiter_choice(crate::query::opt_text(delimiter), fallback) {
            Some(b) => r == Ok::<u8, String>(b),
            None => r matches Err(e) && e@ == "delimiter must be a single character"@,
        },
{
    let value = match delimiter {
        None => return Ok(fallback),
        Some(v) => v,
    };
    let trimmed = trim_str(value.as_str());
    let n = trimmed.unicode_len();
    if n == 0 {
        return Ok(fallback);
    }
    if n == 1 {
        let c = trimmed.get_char(0);
        if (c as u32) < 128 {
            return Ok((c as u32) as u8);
        }
    }
    Err(String::from_str("delimiter must be a single character"))
}

/// Every column name is blank-free once trimmed.
pub open spec fn no_blank_names(cols: Seq<Seq<char>>) -> bool {
    forall|i: int| 0 <= i < cols.len() ==> trim_of(#[trigger] cols[i]).len() > 0
}

/// Cleans the column list of an index: names trimmed, repeats dropped,
/// order kept. An empty list, or one with a blank name, is refused.
pub fn sanitize_index_columns(columns: &Vec<String>) -> (r: Result<Vec<String>, String>)
    ensures
        columns@.len() == 0 ==> (r matches Err(e) && e@ == "columns cannot be empty"@),
        columns@.len() > 0 && !no_blank_names(texts(columns@)) ==> (r matches Err(e) && e@
            == "index column cannot be empty"@),
        columns@.len() > 0 && no_blank_names(texts(columns@)) ==> (r matches Ok(v) && texts(v@)
            == clean_columns(texts(columns@), Set::empty()) && v@.len() > 0),
{
    if columns.len() == 0 {
        return Err(String::from_str("columns cannot be empty"));
    }
    let mut i: usize = 0;
    while i < columns.len()
        invariant
            i <= columns@.len(),
            forall|j: int| 0 <= j < i ==> trim_of(#[trigger] texts(columns@)[j]).len() > 0,
        decreases columns@.len() - i,
    {
        assert(texts(columns@)[i as int] == columns@[i as int]@);
        if trim_str(columns[i].as_str()).unicode_len() == 0 {
            return Err(String::from_str("index column cannot be empty"));
        }
        i += 1;
    }
    let cleaned = clean_column_list(columns);
    proof {
        lemma_clean_keeps_first(texts(columns@), Set::empty());
    }
    Ok(cleaned)
}

/// A list whose first name is not blank and not yet seen keeps that name.
proof fn lemma_clean_keeps_first(cols: Seq<Seq<char>>, seen: Set<Seq<char>>)
    requires
        cols.len() > 0,
        trim_of(cols[0]).len() > 0,
        !seen.contains(trim_of(cols[0])),
    ensures
        clean_columns(cols, seen).len() > 0,
{
}

/// Checks an optional index name: absent stays absent, a given one is
/// trimmed and may not be blank.
pub fn check_index_name(name: &Option<String>) -> (r: Result<Option<String>, String>)
    ensures
        match opt_text(*name) {
            None => r matches Ok(n) && n is None,
            Some(s) => if trim_of(s).len() == 0 {
                r matches Err(e) && e@ == "index name cannot be empty"@
            } else {
                r matches Ok(n) && opt_text(n) == Some(trim_of(s))
            },
        },
{
    match name {
        None => Ok(None),
        Some(n) => {
            let t = trim_str(n.as_str());
            if t.unicode_len() == 0 {
                Err(String::from_str("index name cannot be empty"))
            } else {
                Ok(Some(String::from_str(t)))
            }
        },
    }
}

/// A checked column alteration: the column path, and what changes.
pub struct AlterationPlan {
    pub path: String,
    pub rename: Option<String>,
    pub nullable: Option<bool>,
    pub cast_to: Option<DataType>,
}

/// Why a column alteration is refused, if it is: it needs a column path and
/// at least one change; a type change must be buildable.
pub open spec fn alteration_error(a: ColumnAlterationInput) -> Option<Seq<char>> {
    if trim_of(a.path@).len() == 0 {
        Some("column path cannot be empty"@)
    } else if non_blank(opt_text(a.rename)) is None && a.nullable is None && a.data_type is None {
        Some("column alteration must specify rename, nullable, or data_type"@)
    } else {
        match a.data_type {
            Some(t) => type_error(t, a.vector_length),
            None => None,
        }
    }
}

/// Checks a column alteration and resolves it: the trimmed path, a
/// non-blank trimmed new name, the nullability, and the column type to
/// cast to.
pub fn build_column_alteration(input: &ColumnAlterationInput) -> (r: Result<AlterationPlan, String>)
    ensures
        match alteration_error(*input) {
            Some(e) => r matches Err(m) && m@ == e,
            None => r matches Ok(p) && p.path@ == trim_of(input.path@) && opt_text(p.rename)
                == non_blank(opt_text(input.rename)) && p.nullable == input.nullable && (p.cast_to is Some
                <==> input.data_type is Some),
        },
{
    let path = trim_str(input.path.as_str());
    if path.unicode_len() == 0 {
        return Err(String::from_str("column path cannot be empty"));
    }
    let rename = match &input.rename {
        Some(n) => {
            let t = trim_str(n.as_str());
            if t.unicode_len() > 0 {
                Some(String::from_str(t))
            } else {
                None
            }
        },
        None => None,
    };
    if rename.is_none() && input.nullable.is_none() && input.data_type.is_none() {
        return Err(String::from_str("column alteration must specify rename, nullable, or data_type"));
    }
    let cast_to = match &input.data_type {
        Some(t) => Some(to_arrow_data_type(t, input.vector_length)?),
        None => None,
    };
    Ok(AlterationPlan { path: String::from_str(path), rename, nullable: input.nullable, cast_to })
}

/// Every update names a column and an expression, once trimmed.
pub open spec fn updates_filled(u: Seq<UpdateColumnInputV1>) -> bool {
    forall|i: int| 0 <= i < u.len() ==> trim_of(#[trigger] u[i].column@).len() > 0 && trim_of(u[i].expr@).len() > 0
}

/// Checks the column updates of an update request: at least one, each with
/// a column and an expression. Returns them trimmed, in order.
pub fn check_updates(updates: &Vec<UpdateColumnInputV1>) -> (r: Result<Vec<(String, String)>, String>)
    ensures
        updates@.len() == 0 ==> (r matches Err(e) && e@ == "no updates specified"@),
        updates@.len() > 0 && !updates_filled(updates@) ==> (r matches Err(e) && e@
            == "update column and expression cannot be empty"@),
        updates@.len() > 0 && updates_filled(updates@) ==> (r matches Ok(v) && v@.len() == updates@.len()
            && forall|i: int| 0 <= i < v@.len() ==> #[trigger] v@[i].0@ == trim_of(updates@[i].column@)
                && v@[i].1@ == trim_of(updates@[i].expr@)),
{
    if updates.len() == 0 {
        return Err(String::from_str("no updates specified"));
    }
    let mut out: Vec<(String, String)> = Vec::new();
    let mut i: usize = 0;
    while i < updates.len()
        invariant
            i <= updates@.len(),
            out@.len() == i,
            forall|j: int| 0 <= j < i ==> trim_of(#[trigger] updates@[j].column@).len() > 0 && trim_of(updates@[j].expr@).len() > 0,
            forall|j: int| 0 <= j < i ==> #[trigger] out@[j].0@ == trim_of(updates@[j].column@)
                && out@[j].1@ == trim_of(updates@[j].expr@),
        decreases updates@.len() - i,
    {
        let column = trim_str(updates[i].column.as_str());
        let expr = trim_str(updates[i].expr.as_str());
        if column.unicode_len() == 0 || expr.unicode_len() == 0 {
            return Err(String::from_str("update column and expression cannot be empty"));
        }
        out.push((String::from_str(column), String::from_str(expr)));
        i += 1;
    }
    Ok(out)
}

/// A checked maintenance action.
pub enum OptimizePlan {
    /// Rewrite small fragments, optionally to a target size.
    Compact { target_rows_per_fragment: Option<usize> },
    /// Remove old versions, optionally only those older than some days.
    Vacuum { older_than_days: Option<i64> },
}

/// Checks the parameters of a maintenance action: a compaction target must
/// be positive and fit in a `usize`; a vacuum age must fit in an `i64`.
pub fn plan_optimize(
    action: OptimizeActionV1,
    target_rows_per_fragment: Option<u64>,
    older_than_days: Option<u64>,
) -> (r: Result<OptimizePlan, String>)
    ensures
        action == OptimizeActionV1::Compact ==> match target_rows_per_fragment {
            Some(0) => r matches Err(e) && e@ == "target_rows_per_fragment must be greater than 0"@,
            Some(n) => if n > usize::MAX {
                r matches Err(e) && e@ == "target_rows_per_fragment is too large"@
            } else {
                r matches Ok(OptimizePlan::Compact { target_rows_per_fragment: Some(t) }) && t == n
            },
            None => r matches Ok(OptimizePlan::Compact { target_rows_per_fragment: None }),
        },
        action == OptimizeActionV1::Vacuum ==> match older_than_days {
            Some(d) => if d > i64::MAX {
                r matches Err(e) && e@ == "older_than_days is too large"@
            } else {
                r matches Ok(OptimizePlan::Vacuum { older_than_days: Some(t) }) && t == d
            },
            None => r matches Ok(OptimizePlan::Vacuum { older_than_days: None }),
        },
{
    match action {
        OptimizeActionV1::Compact => match target_rows_per_fragment {
            Some(0) => Err(String::from_str("target_rows_per_fragment must be greater than 0")),
            Some(n) => {
                if n > usize::MAX as u64 {
                    Err(String::from_str("target_rows_per_fragment is too large"))
                } else {
                    Ok(OptimizePlan::Compact { target_rows_per_fragment: Some(n as usize) })
                }
            },
            None => Ok(OptimizePlan::Compact { target_rows_per_fragment: None }),
        },
        OptimizeActionV1::Vacuum => match older_than_days {
            Some(d) => {
                if d > i64::MAX as u64 {
                    Err(String::from_str("older_than_days is too large"))
                } else {
                    Ok(OptimizePlan::Vacuum { older_than_days: Some(d as i64) })
                }
            },
            None => Ok(OptimizePlan::Vacuum { older_than_days: None }),
        },
    }
}

} // verus!
