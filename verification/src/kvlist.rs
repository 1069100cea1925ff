//! Ghost model of an insertion-ordered association list whose keys are
//! unique and whose insertion is last-write-wins: the shared vocabulary for
//! the merged configuration map and for the schema and path registries.

use vstd::prelude::*;

verus! {

/// No two entries of the list share a key.
pub open spec fn unique_keys<K, V>(s: Seq<(K, V)>) -> bool {
    forall|i: int, j: int| 0 <= i < j < s.len() ==> s[i].0 != s[j].0
}

/// Some entry of the list carries key `k`.
pub open spec fn has_key<K, V>(s: Seq<(K, V)>, k: K) -> bool {
    exists|i: int| 0 <= i < s.len() && s[i].0 == k
}

/// Last-write-wins insertion: an existing key keeps its position and takes
/// the new value; a new key is appended at the end.
pub open spec fn insert_keyed<K, V>(s: Seq<(K, V)>, k: K, v: V) -> Seq<(K, V)>
    decreases s.len(),
{
    if s.len() == 0 {
        seq![(k, v)]
    } else if s[0].0 == k {
        seq![(k, v)] + s.drop_first()
    } else {
        seq![s[0]] + insert_keyed(s.drop_first(), k, v)
    }
}

/// The value stored under `k`: the value of the first entry with that key
/// (the only such entry, once keys are unique).
pub open spec fn lookup_keyed<K, V>(s: Seq<(K, V)>, k: K) -> Option<V>
    decreases s.len(),
{
    if s.len() == 0 {
        None
    } else if s[0].0 == k {
        Some(s[0].1)
    } else {
        lookup_keyed(s.drop_first(), k)
    }
}

/// Fold a whole batch of entries into the list, front entry first.
pub open spec fn insert_all<K, V>(s: Seq<(K, V)>, batch: Seq<(K, V)>) -> Seq<(K, V)>
    decreases batch.len(),
{
    if batch.len() == 0 {
        s
    } else {
        insert_all(insert_keyed(s, batch[0].0, batch[0].1), batch.drop_first())
    }
}

/// The value a batch by itself assigns to `k`: its last entry with that key.
pub open spec fn batch_value<K, V>(batch: Seq<(K, V)>, k: K) -> Option<V>
    decreases batch.len(),
{
    if batch.len() == 0 {
        None
    } else if batch.last().0 == k {
        Some(batch.last().1)
    } else {
        batch_value(batch.drop_last(), k)
    }
}

pub proof fn lemma_insert_lookup_same<K, V>(s: Seq<(K, V)>, k: K, v: V)
    ensures
        lookup_keyed(insert_keyed(s, k, v), k) == Some(v),
    decreases s.len(),
{
    if s.len() == 0 {
        assert(insert_keyed(s, k, v)[0] == (k, v));
    } else if s[0].0 == k {
        assert(insert_keyed(s, k, v)[0] == (k, v));
    } else {
        lemma_insert_lookup_same(s.drop_first(), k, v);
        let t = insert_keyed(s, k, v);
        assert(t[0] == s[0]);
        assert(t.drop_first() =~= insert_keyed(s.drop_first(), k, v));
    }
}

pub proof fn lemma_insert_lookup_other<K, V>(s: Seq<(K, V)>, k: K, v: V, k2: K)
    requires
        k2 != k,
    ensures
        lookup_keyed(insert_keyed(s, k, v), k2) == lookup_keyed(s, k2),
    decreases s.len(),
{
    let t = insert_keyed(s, k, v);
    if s.len() == 0 {
        assert(t[0] == (k, v));
        assert(t.drop_first() =~= Seq::<(K, V)>::empty());
        assert(lookup_keyed(t, k2) == lookup_keyed(t.drop_first(), k2));
        assert(lookup_keyed(Seq::<(K, V)>::empty(), k2) is None);
    } else if s[0].0 == k {
        assert(t[0] == (k, v));
        assert(t.drop_first() =~= s.drop_first());
        assert(lookup_keyed(t, k2) == lookup_keyed(t.drop_first(), k2));
        assert(lookup_keyed(s, k2) == lookup_keyed(s.drop_first(), k2));
    } else {
        lemma_insert_lookup_other(s.drop_first(), k, v, k2);
        assert(t[0] == s[0]);
        assert(t.drop_first() =~= insert_keyed(s.drop_first(), k, v));
        if s[0].0 == k2 {
            assert(lookup_keyed(t, k2) == Some(t[0].1));
            assert(lookup_keyed(s, k2) == Some(s[0].1));
        } else {
            assert(lookup_keyed(t, k2) == lookup_keyed(t.drop_first(), k2));
            assert(lookup_keyed(s, k2) == lookup_keyed(s.drop_first(), k2));
        }
    }
}

pub proof fn lemma_insert_has_key<K, V>(s: Seq<(K, V)>, k: K, v: V, k2: K)
    ensures
        has_key(insert_keyed(s, k, v), k2) <==> (has_key(s, k2) || k2 == k),
    decreases s.len(),
{
    let t = insert_keyed(s, k, v);
    if s.len() == 0 {
        assert(t[0] == (k, v));
        if k2 == k {
            assert(has_key(t, k2));
        }
        if has_key(t, k2) {
            let i = choose|i: int| 0 <= i < t.len() && t[i].0 == k2;
            assert(i == 0);
        }
        assert(!has_key(s, k2));
    } else if s[0].0 == k {
        assert(t[0] == (k, v));
        assert(t.drop_first() =~= s.drop_first());
        if k2 == k {
            assert(has_key(t, k2));
        }
        if has_key(t, k2) && k2 != k {
            let i = choose|i: int| 0 <= i < t.len() && t[i].0 == k2;
            assert(i > 0);
            assert(s[i] == t[i]);
            assert(has_key(s, k2));
        }
        if has_key(s, k2) && k2 != k {
            let i = choose|i: int| 0 <= i < s.len() && s[i].0 == k2;
            assert(i > 0);
            assert(t[i] == s[i]);
            assert(has_key(t, k2));
        }
    } else {
        lemma_insert_has_key(s.drop_first(), k, v, k2);
        assert(t[0] == s[0]);
        assert(t.drop_first() =~= insert_keyed(s.drop_first(), k, v));
        if has_key(t, k2) {
            let i = choose|i: int| 0 <= i < t.len() && t[i].0 == k2;
            if i == 0 {
                assert(s[0].0 == k2);
                assert(has_key(s, k2));
            } else {
                assert(t.drop_first()[i - 1].0 == k2);
                assert(has_key(t.drop_first(), k2));
                if k2 != k {
                    let j = choose|j: int| 0 <= j < s.drop_first().len() && s.drop_first()[j].0 == k2;
                    assert(s[j + 1].0 == k2);
                    assert(has_key(s, k2));
                }
            }
        }
        if has_key(s, k2) {
            let i = choose|i: int| 0 <= i < s.len() && s[i].0 == k2;
            if i == 0 {
                assert(t[0].0 == k2);
                assert(has_key(t, k2));
            } else {
                assert(s.drop_first()[i - 1].0 == k2);
                assert(has_key(s.drop_first(), k2));
                assert(has_key(insert_keyed(s.drop_first(), k, v), k2));
                let j = choose|j: int|
                    0 <= j < insert_keyed(s.drop_first(), k, v).len() && insert_keyed(
                        s.drop_first(),
                        k,
                        v,
                    )[j].0 == k2;
                assert(t[j + 1].0 == k2);
                assert(has_key(t, k2));
            }
        }
        if k2 == k {
            assert(has_key(insert_keyed(s.drop_first(), k, v), k2));
            let j = choose|j: int|
                0 <= j < insert_keyed(s.drop_first(), k, v).len() && insert_keyed(
                    s.drop_first(),
                    k,
                    v,
                )[j].0 == k2;
            assert(t[j + 1].0 == k2);
            assert(has_key(t, k2));
        }
    }
}

#[verifier::rlimit(50)]
pub proof fn lemma_insert_unique<K, V>(s: Seq<(K, V)>, k: K, v: V)
    requires
        unique_keys(s),
    ensures
        unique_keys(insert_keyed(s, k, v)),
    decreases s.len(),
{
    let t = insert_keyed(s, k, v);
    if s.len() == 0 {
        assert(t.len() == 1);
    } else if s[0].0 == k {
        assert(t[0] == (k, v));
        assert(t.drop_first() =~= s.drop_first());
        assert forall|i: int, j: int| 0 <= i < j < t.len() implies t[i].0 != t[j].0 by {
            if i == 0 {
                assert(t[j] == s[j]);
                assert(s[0].0 != s[j].0);
            } else {
                assert(t[i] == s[i] && t[j] == s[j]);
            }
        }
    } else {
        assert(unique_keys(s.drop_first())) by {
            assert forall|i: int, j: int|
                0 <= i < j < s.drop_first().len() implies s.drop_first()[i].0
                != s.drop_first()[j].0 by {
                assert(s.drop_first()[i] == s[i + 1] && s.drop_first()[j] == s[j + 1]);
            }
        }
        lemma_insert_unique(s.drop_first(), k, v);
        let r = insert_keyed(s.drop_first(), k, v);
        assert(t[0] == s[0]);
        assert(t.drop_first() =~= r);
        assert(!has_key(s.drop_first(), s[0].0)) by {
            if has_key(s.drop_first(), s[0].0) {
                let i = choose|i: int|
                    0 <= i < s.drop_first().len() && s.drop_first()[i].0 == s[0].0;
                assert(s[i + 1].0 == s[0].0);
            }
        }
        lemma_insert_has_key(s.drop_first(), k, v, s[0].0);
        assert(!has_key(r, s[0].0));
        assert forall|i: int, j: int| 0 <= i < j < t.len() implies t[i].0 != t[j].0 by {
            if i == 0 {
                assert(t[j] == r[j - 1]);
                if t[0].0 == r[j - 1].0 {
                    assert(has_key(r, s[0].0));
                }
            } else {
                assert(t[i] == r[i - 1] && t[j] == r[j - 1]);
            }
        }
    }
}

/// In a list with unique keys, every entry that carries key `k` holds the
/// value `lookup_keyed` reports.
pub proof fn lemma_unique_lookup_index<K, V>(s: Seq<(K, V)>, k: K, i: int)
    requires
        unique_keys(s),
        0 <= i < s.len(),
        s[i].0 == k,
    ensures
        lookup_keyed(s, k) == Some(s[i].1),
    decreases s.len(),
{
    if i == 0 {
    } else {
        assert(s[0].0 != k);
        assert(unique_keys(s.drop_first())) by {
            assert forall|x: int, y: int|
                0 <= x < y < s.drop_first().len() implies s.drop_first()[x].0
                != s.drop_first()[y].0 by {
                assert(s.drop_first()[x] == s[x + 1] && s.drop_first()[y] == s[y + 1]);
            }
        }
        assert(s.drop_first()[i - 1] == s[i]);
        lemma_unique_lookup_index(s.drop_first(), k, i - 1);
    }
}

pub proof fn lemma_lookup_some_has_key<K, V>(s: Seq<(K, V)>, k: K)
    ensures
        lookup_keyed(s, k) is Some <==> has_key(s, k),
    decreases s.len(),
{
    if s.len() == 0 {
    } else if s[0].0 == k {
        assert(has_key(s, k));
    } else {
        lemma_lookup_some_has_key(s.drop_first(), k);
        if has_key(s, k) {
            let i = choose|i: int| 0 <= i < s.len() && s[i].0 == k;
            assert(i > 0);
            assert(s.drop_first()[i - 1].0 == k);
            assert(has_key(s.drop_first(), k));
        }
        if has_key(s.drop_first(), k) {
            let i = choose|i: int| 0 <= i < s.drop_first().len() && s.drop_first()[i].0 == k;
            assert(s[i + 1].0 == k);
            assert(has_key(s, k));
        }
    }
}

/// When the first entry carrying key `k` stands at index `i`, insertion
/// updates exactly that index.
pub proof fn lemma_insert_at_index<K, V>(s: Seq<(K, V)>, k: K, v: V, i: int)
    requires
        0 <= i < s.len(),
        s[i].0 == k,
        forall|j: int| 0 <= j < i ==> s[j].0 != k,
    ensures
        insert_keyed(s, k, v) =~= s.update(i, (k, v)),
    decreases s.len(),
{
    if i == 0 {
        assert(insert_keyed(s, k, v) =~= seq![(k, v)] + s.drop_first());
    } else {
        assert(s[0].0 != k);
        assert(s.drop_first()[i - 1] == s[i]);
        assert(forall|j: int| 0 <= j < i - 1 ==> s.drop_first()[j] == s[j + 1]);
        lemma_insert_at_index(s.drop_first(), k, v, i - 1);
        assert(insert_keyed(s, k, v) =~= seq![s[0]] + s.drop_first().update(i - 1, (k, v)));
    }
}

/// When no entry carries key `k`, insertion appends at the end.
pub proof fn lemma_insert_append<K, V>(s: Seq<(K, V)>, k: K, v: V)
    requires
        !has_key(s, k),
    ensures
        insert_keyed(s, k, v) =~= s.push((k, v)),
    decreases s.len(),
{
    if s.len() == 0 {
    } else {
        assert(s[0].0 != k);
        assert(!has_key(s.drop_first(), k)) by {
            if has_key(s.drop_first(), k) {
                let i = choose|i: int| 0 <= i < s.drop_first().len() && s.drop_first()[i].0 == k;
                assert(s[i + 1].0 == k);
            }
        }
        lemma_insert_append(s.drop_first(), k, v);
        assert(insert_keyed(s, k, v) =~= seq![s[0]] + s.drop_first().push((k, v)));
    }
}

/// Inserting over a list with unique keys leaves exactly one entry at the
/// inserted key, and that entry holds the inserted value.
pub proof fn lemma_insert_exactly_one<K, V>(s: Seq<(K, V)>, k: K, v: V)
    requires
        unique_keys(s),
    ensures
        unique_keys(insert_keyed(s, k, v)),
        has_key(insert_keyed(s, k, v), k),
        lookup_keyed(insert_keyed(s, k, v), k) == Some(v),
        forall|i: int|
            0 <= i < insert_keyed(s, k, v).len() && insert_keyed(s, k, v)[i].0 == k
                ==> insert_keyed(s, k, v)[i].1 == v,
{
    let t = insert_keyed(s, k, v);
    lemma_insert_unique(s, k, v);
    lemma_insert_lookup_same(s, k, v);
    lemma_lookup_some_has_key(t, k);
    assert forall|i: int| 0 <= i < t.len() && t[i].0 == k implies t[i].1 == v by {
        lemma_unique_lookup_index(t, k, i);
    }
}

/// Folding a batch that ends in `p` is folding the shorter batch, then
/// inserting `p`.
pub proof fn lemma_insert_all_push<K, V>(s: Seq<(K, V)>, batch: Seq<(K, V)>, p: (K, V))
    ensures
        insert_all(s, batch.push(p)) == insert_keyed(insert_all(s, batch), p.0, p.1),
    decreases batch.len(),
{
    if batch.len() == 0 {
        assert(batch.push(p)[0] == p);
        assert(batch.push(p).drop_first() =~= Seq::<(K, V)>::empty());
        assert(insert_all(s, batch.push(p)) == insert_all(
            insert_keyed(s, p.0, p.1),
            batch.push(p).drop_first(),
        ));
        assert(insert_all(insert_keyed(s, p.0, p.1), Seq::<(K, V)>::empty()) == insert_keyed(
            s,
            p.0,
            p.1,
        ));
    } else {
        assert(batch.push(p)[0] == batch[0]);
        assert(batch.push(p).drop_first() =~= batch.drop_first().push(p));
        assert(insert_all(s, batch.push(p)) == insert_all(
            insert_keyed(s, batch[0].0, batch[0].1),
            batch.drop_first().push(p),
        ));
        lemma_insert_all_push(insert_keyed(s, batch[0].0, batch[0].1), batch.drop_first(), p);
        assert(insert_all(s, batch) == insert_all(
            insert_keyed(s, batch[0].0, batch[0].1),
            batch.drop_first(),
        ));
    }
}

/// What a fold assigns to `k`: the batch's own last value for `k` when the
/// batch mentions `k` at all, else whatever the base list held.
pub proof fn lemma_insert_all_lookup<K, V>(s: Seq<(K, V)>, batch: Seq<(K, V)>, k: K)
    ensures
        lookup_keyed(insert_all(s, batch), k) == (match batch_value(batch, k) {
            Some(v) => Some(v),
            None => lookup_keyed(s, k),
        }),
    decreases batch.len(),
{
    if batch.len() == 0 {
    } else {
        let shorter = batch.drop_last();
        let p = batch.last();
        assert(batch =~= shorter.push(p));
        lemma_insert_all_push(s, shorter, p);
        lemma_insert_all_lookup(s, shorter, k);
        if p.0 == k {
            lemma_insert_lookup_same(insert_all(s, shorter), k, p.1);
        } else {
            lemma_insert_lookup_other(insert_all(s, shorter), p.0, p.1, k);
        }
    }
}

pub proof fn lemma_insert_all_unique<K, V>(s: Seq<(K, V)>, batch: Seq<(K, V)>)
    requires
        unique_keys(s),
    ensures
        unique_keys(insert_all(s, batch)),
    decreases batch.len(),
{
    if batch.len() == 0 {
    } else {
        lemma_insert_unique(s, batch[0].0, batch[0].1);
        lemma_insert_all_unique(insert_keyed(s, batch[0].0, batch[0].1), batch.drop_first());
    }
}

} // verus!
