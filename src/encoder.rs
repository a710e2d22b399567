//! The result encoder: row-exact truncation of a batch list, JSON rows from
//! the JSON array text of the batches, and the base64 transport text of a
//! columnar stream.
//!
//! Batches are described here by their row counts; the engine adapter
//! slices and serialises the batches themselves as the plans here say.

use vstd::prelude::*;
use vstd::string::*;

use base64::Engine;
use serde_json::Value;

use crate::paging::{next_page_offset, page_len, page_next};

verus! {

#[verifier::external_type_specification]
#[verifier::external_body]
pub struct ExValue(Value);

/// The number of elements of the JSON array that a byte string holds, or
/// `None` where it holds no JSON array.
pub uninterp spec fn json_array_len(b: Seq<u8>) -> Option<nat>;

/// The standard base64 text (with padding) of a byte string.
pub uninterp spec fn base64_of(b: Seq<u8>) -> Seq<char>;

/// The number of rows in batches with these row counts.
pub open spec fn sum_rows(counts: Seq<usize>) -> nat
    decreases counts.len(),
{
    if counts.len() == 0 {
        0
    } else {
        (counts[0] + sum_rows(counts.skip(1))) as nat
    }
}

/// How many rows of each batch the first `remaining` rows take, batch by
/// batch: whole batches while they fit, then part of the batch that
/// straddles the limit, then nothing.
pub open spec fn truncation(counts: Seq<usize>, remaining: nat) -> Seq<usize>
    decreases counts.len(),
{
    if counts.len() == 0 || remaining == 0 {
        Seq::empty()
    } else if counts[0] <= remaining {
        seq![counts[0]] + truncation(counts.skip(1), (remaining - counts[0]) as nat)
    } else {
        seq![remaining as usize]
    }
}

/// A truncation keeps exactly the first `limit` rows, or all rows where
/// there are fewer.
pub proof fn lemma_truncation_rows(counts: Seq<usize>, limit: nat)
    requires
        limit <= usize::MAX,
    ensures
        sum_rows(truncation(counts, limit)) == (if sum_rows(counts) < limit {
            sum_rows(counts)
        } else {
            limit
        }),
        truncation(counts, limit).len() <= counts.len(),
    decreases counts.len(),
{
    if counts.len() > 0 && limit > 0 {
        if counts[0] <= limit {
            let rest = truncation(counts.skip(1), (limit - counts[0]) as nat);
            lemma_truncation_rows(counts.skip(1), (limit - counts[0]) as nat);
            assert((seq![counts[0]] + rest)[0] == counts[0]);
            assert((seq![counts[0]] + rest).skip(1) =~= rest);
        } else {
            assert(seq![limit as usize][0] == limit as usize);
            assert(seq![limit as usize].skip(1) =~= Seq::<usize>::empty());
            assert(sum_rows(Seq::<usize>::empty()) == 0);
        }
    }
}

/// The total number of rows, or `None` where it does not fit in a `usize`.
pub fn total_rows(counts: &Vec<usize>) -> (r: Option<usize>)
    ensures
        r == (if sum_rows(counts@) <= usize::MAX {
            Some(sum_rows(counts@) as usize)
        } else {
            None
        }),
{
    let mut total: usize = 0;
    let mut i: usize = 0;
    proof {
        assert(counts@.skip(0) =~= counts@);
    }
    while i < counts.len()
        invariant
            i <= counts@.len(),
            total + sum_rows(counts@.skip(i as int)) == sum_rows(counts@),
        decreases counts@.len() - i,
    {
        proof {
            assert(counts@.skip(i as int).skip(1) =~= counts@.skip(i + 1));
        }
        total = match total.checked_add(counts[i]) {
            Some(t) => t,
            None => return None,
        };
        i += 1;
    }
    Some(total)
}

/// The rows to keep of each batch so that exactly the first `limit` rows
/// remain: whole batches while they fit, then a slice of the batch that
/// straddles the limit. No batch is kept when `limit` is zero.
pub fn truncate_batches(counts: &Vec<usize>, limit: usize) -> (r: Vec<usize>)
    ensures
        r@ == truncation(counts@, limit as nat),
{
    let mut kept: Vec<usize> = Vec::new();
    let mut remaining = limit;
    let mut i: usize = 0;
    proof {
        assert(counts@.skip(0) =~= counts@);
        assert(Seq::<usize>::empty() + truncation(counts@, limit as nat) =~= truncation(counts@, limit as nat));
    }
    while i < counts.len() && remaining > 0
        invariant
            i <= counts@.len(),
            kept@ + truncation(counts@.skip(i as int), remaining as nat) == truncation(counts@, limit as nat),
        decreases counts@.len() - i,
    {
        let ghost before = kept@;
        proof {
            assert(counts@.skip(i as int).skip(1) =~= counts@.skip(i + 1));
            assert(counts@.skip(i as int)[0] == counts@[i as int]);
        }
        let rows = counts[i];
        if rows <= remaining {
            kept.push(rows);
            remaining = remaining - rows;
            assert(before + (seq![rows] + truncation(counts@.skip(i + 1), remaining as nat)) =~= kept@
                + truncation(counts@.skip(i + 1), remaining as nat));
            i += 1;
        } else {
            kept.push(remaining);
            assert(before + seq![remaining] =~= kept@);
            return kept;
        }
    }
    proof {
        assert(truncation(counts@.skip(i as int), remaining as nat) == Seq::<usize>::empty());
        assert(kept@ + Seq::<usize>::empty() =~= kept@);
    }
    kept
}

/// The look-ahead page of a columnar result, given the row counts of the
/// batches the look-ahead query returned: the rows to keep of each batch,
/// and the offset of the next page. When more than `limit` rows came back
/// the batches are cut to `limit` rows; otherwise every batch is kept
/// whole. A total that does not fit in a `usize` counts as `usize::MAX`.
pub fn page_batches(counts: &Vec<usize>, limit: usize, offset: usize) -> (r: (Vec<usize>, Option<usize>))
    ensures
        sum_rows(counts@) <= usize::MAX ==> sum_rows(r.0@) == page_len(sum_rows(counts@), limit as nat)
            && r.1 == page_next(sum_rows(counts@), limit as nat, offset as nat),
        sum_rows(counts@) > limit ==> r.0@ == truncation(counts@, limit as nat),
        sum_rows(counts@) <= limit ==> r.0@ == counts@,
{
    let (total, over) = match total_rows(counts) {
        Some(n) => (n, n > limit),
        None => (usize::MAX, true),
    };
    let next = next_page_offset(total, limit, offset);
    proof {
        lemma_truncation_rows(counts@, limit as nat);
    }
    if over {
        (truncate_batches(counts, limit), next)
    } else {
        (clone_counts(counts), next)
    }
}

/// A copy of a list of counts.
fn clone_counts(counts: &Vec<usize>) -> (r: Vec<usize>)
    ensures
        r@ == counts@,
{
    let mut out: Vec<usize> = Vec::new();
    let mut i: usize = 0;
    while i < counts.len()
        invariant
            i <= counts@.len(),
            out@ == counts@.take(i as int),
        decreases counts@.len() - i,
    {
        out.push(counts[i]);
        assert(out@ =~= counts@.take(i + 1));
        i += 1;
    }
    assert(counts@.take(counts@.len() as int) =~= counts@);
    out
}

/// Relies on `serde_json::from_slice`: parses a JSON array into its values;
/// whether it succeeds, and how many values come out, depends on the bytes
/// alone.
#[verifier::external_body]
fn parse_json_array(bytes: &Vec<u8>) -> (r: Result<Vec<Value>, String>)
    ensures
        r is Ok <==> json_array_len(bytes@) is Some,
        r matches Ok(v) ==> json_array_len(bytes@) == Some(v@.len()),
{
    serde_json::from_slice::<Vec<Value>>(bytes).map_err(|e| e.to_string())
}

/// Relies on `serde_json::to_string`: the compact JSON text of a value,
/// which a `Value` always has.
#[verifier::external_body]
fn json_text(v: &Value) -> (r: Option<String>)
    ensures
        r is Some,
{
    serde_json::to_string(v).ok()
}

/// Relies on base64's `STANDARD` engine `encode`: padded standard base64,
/// four characters for each started group of three bytes.
#[verifier::external_body]
fn encode_base64(bytes: &Vec<u8>) -> (r: String)
    ensures
        r@ == base64_of(bytes@),
        r@.len() == 4 * ((bytes@.len() + 2) / 3),
{
    base64::engine::general_purpose::STANDARD.encode(bytes)
}

/// The row objects of a JSON array text of batches holding `expected` rows.
/// No row expected gives no row; otherwise the rows are given exactly when
/// the text is a JSON array of `expected` elements.
pub fn json_rows_from_array(bytes: &Vec<u8>, expected: usize) -> (r: Result<Vec<Value>, String>)
    ensures
        expected == 0 ==> (r matches Ok(rows) && rows@.len() == 0),
        expected > 0 ==> (r is Ok <==> json_array_len(bytes@) == Some(expected as nat)),
        r matches Ok(rows) ==> rows@.len() == expected,
{
    if expected == 0 {
        return Ok(Vec::new());
    }
    let rows = parse_json_array(bytes)?;
    if rows.len() != expected {
        return Err(String::from_str("JSON rows do not match the batch row count"));
    }
    Ok(rows)
}

/// The transport text of a columnar IPC stream: its standard base64.
pub fn ipc_stream_to_base64(stream: &Vec<u8>) -> (r: String)
    ensures
        r@ == base64_of(stream@),
        r@.len() == 4 * ((stream@.len() + 2) / 3),
{
    encode_base64(stream)
}

/// The canonical text of each row (its compact JSON), row for row.
pub fn row_keys(rows: &Vec<Value>) -> (r: Vec<String>)
    ensures
        r@.len() == rows@.len(),
{
    let mut keys: Vec<String> = Vec::new();
    let mut i: usize = 0;
    while i < rows.len()
        invariant
            i <= rows@.len(),
            keys@.len() == i,
        decreases rows@.len() - i,
    {
        let key = match json_text(&rows[i]) {
            Some(t) => t,
            None => String::new(),
        };
        keys.push(key);
        i += 1;
    }
    keys
}

/// The two result formats agree: for the same look-ahead batches, the
/// columnar page keeps as many rows as the JSON page (whose rows are the
/// batches' rows) and reports the same next offset.
pub proof fn lemma_formats_agree(counts: Seq<usize>, json_rows: nat, limit: usize, offset: usize)
    requires
        sum_rows(counts) <= usize::MAX,
        json_rows == sum_rows(counts),
    ensures
        page_next(json_rows, limit as nat, offset as nat) == page_next(
            sum_rows(counts),
            limit as nat,
            offset as nat,
        ),
        sum_rows(
            if sum_rows(counts) > limit {
                truncation(counts, limit as nat)
            } else {
                counts
            },
        ) == page_len(json_rows, limit as nat),
        page_len(json_rows, limit as nat) == (if sum_rows(counts) > limit {
            limit as nat
        } else {
            sum_rows(counts)
        }),
{
    lemma_truncation_rows(counts, limit as nat);
}

} // verus!
