//! Hybrid search merge: vector hits first, in rank order, then full-text
//! hits, keeping only the first row seen for each canonical row text.
//!
//! This concatenates and deduplicates; it does not re-score rows by a
//! combined relevance.

use vstd::prelude::*;
use vstd::hash_set::StringHashSet;

verus! {

/// The rows of `rows` whose key is neither in `seen` nor the key of an
/// earlier row, in their original order. `keys[i]` is the key of `rows[i]`.
pub open spec fn unique_by_key<R>(rows: Seq<R>, keys: Seq<Seq<char>>, seen: Set<Seq<char>>) -> Seq<R>
    decreases rows.len(),
{
    if rows.len() == 0 || keys.len() == 0 {
        Seq::empty()
    } else if seen.contains(keys[0]) {
        unique_by_key(rows.skip(1), keys.skip(1), seen)
    } else {
        seq![rows[0]] + unique_by_key(rows.skip(1), keys.skip(1), seen.insert(keys[0]))
    }
}

/// The texts of a list of keys.
pub open spec fn key_texts(keys: Seq<String>) -> Seq<Seq<char>> {
    keys.map_values(|k: String| k@)
}

/// The merged hybrid result: vector rows, then full-text rows, each row
/// kept only the first time its key appears.
pub open spec fn merged<R>(
    vector_rows: Seq<R>,
    vector_keys: Seq<Seq<char>>,
    text_rows: Seq<R>,
    text_keys: Seq<Seq<char>>,
) -> Seq<R> {
    unique_by_key(vector_rows + text_rows, vector_keys + text_keys, Set::empty())
}

/// No key occurs twice.
pub open spec fn distinct_keys(keys: Seq<Seq<char>>) -> bool {
    forall|i: int, j: int| 0 <= i < j < keys.len() ==> keys[i] != keys[j]
}

/// Dropping the first `i + 1` rows is dropping the first `i`, then one more.
proof fn lemma_skip_step<T>(s: Seq<T>, i: int)
    requires
        0 <= i < s.len(),
    ensures
        s.skip(i).skip(1) == s.skip(i + 1),
        s.skip(i)[0] == s[i],
{
    assert(s.skip(i).skip(1) =~= s.skip(i + 1));
}

/// Appends to `out` the rows whose key is not yet in `seen`, adding each
/// such key to `seen`.
fn absorb<R>(out: &mut Vec<R>, seen: &mut StringHashSet, rows: Vec<R>, keys: &Vec<String>)
    requires
        rows@.len() == keys@.len(),
    ensures
        final(out)@ == old(out)@ + unique_by_key(rows@, key_texts(keys@), old(seen)@),
        final(seen)@ == old(seen)@ + key_texts(keys@).to_set(),
{
    let ghost ks = key_texts(keys@);
    let ghost out0 = out@;
    let ghost seen0 = seen@;
    let n = rows.len();
    let mut rest = rows;
    let mut i: usize = 0;
    proof {
        assert(rows@.skip(0) =~= rows@);
        assert(ks.skip(0) =~= ks);
        assert(ks.take(0).to_set() =~= Set::empty());
        assert(seen0 + Set::empty() =~= seen0);
    }
    while i < n
        invariant
            n == rows@.len(),
            n == keys@.len(),
            ks == key_texts(keys@),
            i <= n,
            rest@ == rows@.skip(i as int),
            out@ + unique_by_key(rows@.skip(i as int), ks.skip(i as int), seen@)
                == out0 + unique_by_key(rows@, ks, seen0),
            seen@ == seen0 + ks.take(i as int).to_set(),
        decreases n - i,
    {
        let ghost out_i = out@;
        let ghost seen_i = seen@;
        proof {
            lemma_skip_step(rows@, i as int);
            lemma_skip_step(ks, i as int);
            assert(ks[i as int] == keys@[i as int]@);
        }
        let row = rest.remove(0);
        assert(rest@ =~= rows@.skip(i + 1));
        let key = &keys[i];
        let fresh = seen.insert(key.clone());
        let ghost u = unique_by_key(rows@.skip(i + 1), ks.skip(i + 1), seen@);
        if fresh {
            out.push(row);
            assert(out_i + (seq![row] + u) =~= out@ + u);
        } else {
            assert(seen@ =~= seen_i);
        }
        proof {
            assert(ks.take(i + 1) =~= ks.take(i as int).push(ks[i as int]));
            ks.take(i as int).lemma_push_to_set_commute(ks[i as int]);
            assert(seen@ =~= seen0 + ks.take(i + 1).to_set());
        }
        i += 1;
    }
    proof {
        assert(ks.take(n as int) =~= ks);
    }
}

/// The set of a sequence's elements is its tail's set plus its head.
proof fn lemma_to_set_head<T>(s: Seq<T>)
    requires
        s.len() > 0,
    ensures
        s.to_set() == s.skip(1).to_set().insert(s[0]),
{
    assert forall|x: T| s.to_set().contains(x) <==> s.skip(1).to_set().insert(s[0]).contains(x) by {
        if s.contains(x) && x != s[0] {
            let j = choose|j: int| 0 <= j < s.len() && s[j] == x;
            assert(s.skip(1)[j - 1] == x);
        }
        if s.skip(1).contains(x) {
            let j = choose|j: int| 0 <= j < s.skip(1).len() && s.skip(1)[j] == x;
            assert(s[j + 1] == x);
        }
        if x == s[0] {
            assert(s[0] == x);
        }
    }
    assert(s.to_set() =~= s.skip(1).to_set().insert(s[0]));
}

/// Deduplicating a concatenation is deduplicating the first part, then the
/// second part against every key of the first.
pub proof fn lemma_unique_append<R>(
    a: Seq<R>,
    ka: Seq<Seq<char>>,
    b: Seq<R>,
    kb: Seq<Seq<char>>,
    seen: Set<Seq<char>>,
)
    requires
        a.len() == ka.len(),
        b.len() == kb.len(),
    ensures
        unique_by_key(a + b, ka + kb, seen) == unique_by_key(a, ka, seen) + unique_by_key(
            b,
            kb,
            seen + ka.to_set(),
        ),
    decreases a.len(),
{
    if a.len() == 0 {
        assert(a + b =~= b);
        assert(ka + kb =~= kb);
        assert(ka.to_set() =~= Set::empty());
        assert(seen + ka.to_set() =~= seen);
        assert(unique_by_key(a, ka, seen) =~= Seq::empty());
        assert(Seq::<R>::empty() + unique_by_key(b, kb, seen) =~= unique_by_key(b, kb, seen));
    } else {
        assert((a + b).skip(1) =~= a.skip(1) + b);
        assert((ka + kb).skip(1) =~= ka.skip(1) + kb);
        assert((a + b)[0] == a[0]);
        assert((ka + kb)[0] == ka[0]);
        lemma_to_set_head(ka);
        if seen.contains(ka[0]) {
            lemma_unique_append(a.skip(1), ka.skip(1), b, kb, seen);
            assert(seen + ka.skip(1).to_set() =~= seen + ka.to_set());
        } else {
            let s2 = seen.insert(ka[0]);
            lemma_unique_append(a.skip(1), ka.skip(1), b, kb, s2);
            assert(s2 + ka.skip(1).to_set() =~= seen + ka.to_set());
            let x = unique_by_key(a.skip(1), ka.skip(1), s2);
            let y = unique_by_key(b, kb, seen + ka.to_set());
            assert(seq![a[0]] + (x + y) =~= (seq![a[0]] + x) + y);
        }
    }
}

/// Rows whose keys are distinct and unseen all survive deduplication.
pub proof fn lemma_unique_keeps_fresh<R>(a: Seq<R>, ka: Seq<Seq<char>>, seen: Set<Seq<char>>)
    requires
        a.len() == ka.len(),
        distinct_keys(ka),
        forall|i: int| 0 <= i < ka.len() ==> !seen.contains(#[trigger] ka[i]),
    ensures
        unique_by_key(a, ka, seen) == a,
    decreases a.len(),
{
    if a.len() > 0 {
        let s2 = seen.insert(ka[0]);
        assert forall|i: int| 0 <= i < ka.skip(1).len() implies !s2.contains(#[trigger] ka.skip(1)[i]) by {
            assert(ka.skip(1)[i] == ka[i + 1]);
        }
        lemma_unique_keeps_fresh(a.skip(1), ka.skip(1), s2);
        assert(seq![a[0]] + a.skip(1) =~= a);
    }
}

/// The keys that survive deduplication are distinct and none was seen before.
pub proof fn lemma_unique_keys_fresh(k: Seq<Seq<char>>, seen: Set<Seq<char>>)
    ensures
        distinct_keys(unique_by_key(k, k, seen)),
        forall|j: int|
            0 <= j < unique_by_key(k, k, seen).len() ==> !seen.contains(
                #[trigger] unique_by_key(k, k, seen)[j],
            ),
    decreases k.len(),
{
    if k.len() > 0 {
        if seen.contains(k[0]) {
            lemma_unique_keys_fresh(k.skip(1), seen);
        } else {
            let s2 = seen.insert(k[0]);
            lemma_unique_keys_fresh(k.skip(1), s2);
            let rest = unique_by_key(k.skip(1), k.skip(1), s2);
            let out = seq![k[0]] + rest;
            assert(unique_by_key(k, k, seen) == out);
            assert forall|j: int| 0 <= j < out.len() implies !seen.contains(#[trigger] out[j]) by {
                if j > 0 {
                    assert(out[j] == rest[j - 1]);
                }
            }
            assert forall|i: int, j: int| 0 <= i < j < out.len() implies out[i] != out[j] by {
                assert(out[j] == rest[j - 1]);
                if i > 0 {
                    assert(out[i] == rest[i - 1]);
                }
            }
        }
    }
}

/// Merges ranked vector hits with full-text hits: vector rows keep their
/// order, full-text rows follow, and a row is kept only the first time its
/// canonical text (`keys[i]` for `rows[i]`) appears.
pub fn merge_ranked<R>(
    vector_rows: Vec<R>,
    vector_keys: &Vec<String>,
    text_rows: Vec<R>,
    text_keys: &Vec<String>,
) -> (r: Vec<R>)
    requires
        vector_rows@.len() == vector_keys@.len(),
        text_rows@.len() == text_keys@.len(),
    ensures
        r@ == merged(vector_rows@, key_texts(vector_keys@), text_rows@, key_texts(text_keys@)),
{
    let mut out: Vec<R> = Vec::new();
    let mut seen = StringHashSet::new();
    absorb(&mut out, &mut seen, vector_rows, vector_keys);
    absorb(&mut out, &mut seen, text_rows, text_keys);
    proof {
        let vk = key_texts(vector_keys@);
        let tk = key_texts(text_keys@);
        lemma_unique_append(vector_rows@, vk, text_rows@, tk, Set::empty());
        assert(Set::<Seq<char>>::empty() + vk.to_set() =~= vk.to_set());
        assert(Seq::<R>::empty() + unique_by_key(vector_rows@, vk, Set::empty())
            =~= unique_by_key(vector_rows@, vk, Set::empty()));
    }
    out
}

/// Hybrid merge keeps vector rank and drops repeats: when the vector hits
/// have distinct row texts, the merged list starts with exactly the vector
/// hits in their order, and the text of each vector hit occurs only once in
/// the merged list, even where the full-text hits hold the same row.
pub proof fn lemma_hybrid_merge_keeps_vector_rank<R>(
    vector_rows: Seq<R>,
    vector_keys: Seq<Seq<char>>,
    text_rows: Seq<R>,
    text_keys: Seq<Seq<char>>,
    i: int,
)
    requires
        vector_rows.len() == vector_keys.len(),
        text_rows.len() == text_keys.len(),
        distinct_keys(vector_keys),
        0 <= i < vector_keys.len(),
    ensures
        merged(vector_rows, vector_keys, text_rows, text_keys)[i] == vector_rows[i],
        merged(vector_keys, vector_keys, text_keys, text_keys)[i] == vector_keys[i],
        forall|j: int|
            0 <= j < merged(vector_keys, vector_keys, text_keys, text_keys).len() && j != i
                ==> merged(vector_keys, vector_keys, text_keys, text_keys)[j] != vector_keys[i],
{
    let vk = vector_keys;
    let tk = text_keys;
    let none = Set::<Seq<char>>::empty();
    assert forall|k: int| 0 <= k < vk.len() implies !none.contains(#[trigger] vk[k]) by {}
    lemma_unique_append(vector_rows, vk, text_rows, tk, none);
    lemma_unique_keeps_fresh(vector_rows, vk, none);
    lemma_unique_append(vk, vk, tk, tk, none);
    lemma_unique_keeps_fresh(vk, vk, none);
    let seen = none + vk.to_set();
    lemma_unique_keys_fresh(tk, seen);
    let rest = unique_by_key(tk, tk, seen);
    let m = merged(vk, vk, tk, tk);
    assert(m == vk + rest);
    assert forall|j: int| 0 <= j < m.len() && j != i implies m[j] != vk[i] by {
        if j >= vk.len() {
            assert(m[j] == rest[j - vk.len()]);
            assert(seen.contains(vk[i]));
        }
    }
}

/// Hybrid merge for any ranked lists: the merged list is the vector hits,
/// each kept where its text first appears in vector rank order, followed by
/// the full-text hits whose texts appear in neither list before them. So no
/// row text occurs twice in the merge, and a row text that both lists hold
/// occurs only within the vector part, at the place its first vector hit
/// takes there.
pub proof fn lemma_hybrid_merge_shape<R>(
    vector_rows: Seq<R>,
    vector_keys: Seq<Seq<char>>,
    text_rows: Seq<R>,
    text_keys: Seq<Seq<char>>,
)
    requires
        vector_rows.len() == vector_keys.len(),
        text_rows.len() == text_keys.len(),
    ensures
        merged(vector_rows, vector_keys, text_rows, text_keys) == unique_by_key(
            vector_rows,
            vector_keys,
            Set::empty(),
        ) + unique_by_key(text_rows, text_keys, vector_keys.to_set()),
        merged(vector_keys, vector_keys, text_keys, text_keys) == unique_by_key(
            vector_keys,
            vector_keys,
            Set::empty(),
        ) + unique_by_key(text_keys, text_keys, vector_keys.to_set()),
        distinct_keys(merged(vector_keys, vector_keys, text_keys, text_keys)),
        forall|j: int|
            0 <= j < unique_by_key(text_keys, text_keys, vector_keys.to_set()).len()
                ==> !vector_keys.contains(
                #[trigger] unique_by_key(text_keys, text_keys, vector_keys.to_set())[j],
            ),
{
    let none = Set::<Seq<char>>::empty();
    assert(none + vector_keys.to_set() =~= vector_keys.to_set());
    lemma_unique_append(vector_rows, vector_keys, text_rows, text_keys, none);
    lemma_unique_append(vector_keys, vector_keys, text_keys, text_keys, none);
    lemma_unique_keys_fresh(vector_keys + text_keys, none);
    let rest = unique_by_key(text_keys, text_keys, vector_keys.to_set());
    lemma_unique_keys_fresh(text_keys, vector_keys.to_set());
    assert forall|j: int| 0 <= j < rest.len() implies !vector_keys.contains(#[trigger] rest[j]) by {
        if vector_keys.contains(rest[j]) {
            assert(vector_keys.to_set().contains(rest[j]));
        }
    }
}

} // verus!
