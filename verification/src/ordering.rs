//! Stable sorting by integer-sequence keys.
//!
//! A key is a sequence of integers compared lexicographically. A text key is
//! the sequence of its characters' code points: `String`'s `Ord` compares
//! UTF-8 bytes, and UTF-8 preserves code point order, so both orders agree.
//! A numeric key is a one-element sequence.
use vstd::prelude::*;
use vstd::set_lib::{lemma_int_range, lemma_subset_equality, set_int_range};

verus! {

/// Lexicographic order on integer sequences (a prefix comes first).
pub open spec fn seq_le(a: Seq<i64>, b: Seq<i64>) -> bool
    decreases a.len(),
{
    if a.len() == 0 {
        true
    } else if b.len() == 0 {
        false
    } else if a[0] != b[0] {
        a[0] < b[0]
    } else {
        seq_le(a.drop_first(), b.drop_first())
    }
}

/// Key of a text: its code points.
pub open spec fn text_key(s: Seq<char>) -> Seq<i64> {
    s.map_values(|c: char| (c as u32) as i64)
}

/// `a` may stand before `b` in a sequence ordered ascending, or descending
/// when `descending` holds.
pub open spec fn in_order(a: Seq<i64>, b: Seq<i64>, descending: bool) -> bool {
    if descending {
        seq_le(b, a)
    } else {
        seq_le(a, b)
    }
}

pub proof fn lemma_seq_le_total(a: Seq<i64>, b: Seq<i64>)
    ensures
        seq_le(a, b) || seq_le(b, a),
    decreases a.len(),
{
    if a.len() > 0 && b.len() > 0 && a[0] == b[0] {
        lemma_seq_le_total(a.drop_first(), b.drop_first());
    }
}

pub proof fn lemma_seq_le_antisymmetric(a: Seq<i64>, b: Seq<i64>)
    requires
        seq_le(a, b),
        seq_le(b, a),
    ensures
        a == b,
    decreases a.len(),
{
    if a.len() > 0 {
        lemma_seq_le_antisymmetric(a.drop_first(), b.drop_first());
        assert(a =~= seq![a[0]] + a.drop_first());
        assert(b =~= seq![b[0]] + b.drop_first());
    } else {
        assert(b.len() == 0);
        assert(a =~= b);
    }
}

pub proof fn lemma_seq_le_transitive(a: Seq<i64>, b: Seq<i64>, c: Seq<i64>)
    requires
        seq_le(a, b),
        seq_le(b, c),
    ensures
        seq_le(a, c),
    decreases a.len(),
{
    if a.len() > 0 && b.len() > 0 && c.len() > 0 && a[0] == b[0] && b[0] == c[0] {
        lemma_seq_le_transitive(a.drop_first(), b.drop_first(), c.drop_first());
    }
}

pub proof fn lemma_seq_le_reflexive(a: Seq<i64>)
    ensures
        seq_le(a, a),
    decreases a.len(),
{
    if a.len() > 0 {
        lemma_seq_le_reflexive(a.drop_first());
    }
}

/// Exec comparison `a <= b` in the lexicographic order.
pub fn key_le(a: &Vec<i64>, b: &Vec<i64>) -> (r: bool)
    ensures
        r == seq_le(a@, b@),
{
    let mut i: usize = 0;
    assert(a@.skip(0) =~= a@);
    assert(b@.skip(0) =~= b@);
    while i < a.len() && i < b.len()
        invariant
            i <= a@.len(),
            i <= b@.len(),
            seq_le(a@, b@) == seq_le(a@.skip(i as int), b@.skip(i as int)),
        decreases a.len() - i,
    {
        if a[i] != b[i] {
            return a[i] < b[i];
        }
        assert(a@.skip(i as int).drop_first() =~= a@.skip(i + 1));
        assert(b@.skip(i as int).drop_first() =~= b@.skip(i + 1));
        i = i + 1;
    }
    i == a.len()
}

/// `order` lists each index below `n` once, keys follow each other in order,
/// and equal keys keep their relative order from the input.
pub open spec fn is_stable_order(order: Seq<int>, keys: Seq<Seq<i64>>, descending: bool) -> bool {
    &&& order.len() == keys.len()
    &&& forall|i: int| 0 <= i < order.len() ==> 0 <= #[trigger] order[i] < keys.len()
    &&& forall|i: int, j: int| 0 <= i < j < order.len() ==> order[i] != order[j]
    &&& forall|i: int, j: int|
        0 <= i < j < order.len() ==> in_order(
            #[trigger] keys[order[i]],
            #[trigger] keys[order[j]],
            descending,
        )
    &&& forall|i: int, j: int|
        0 <= i < j < order.len() && keys[order[i]] == keys[order[j]] ==> order[i] < order[j]
}

/// The views of a vector of keys.
pub open spec fn key_views(keys: Seq<Vec<i64>>) -> Seq<Seq<i64>> {
    keys.map_values(|k: Vec<i64>| k@)
}

/// `items` rearranged by a stable order of `keys`.
pub open spec fn stably_sorted<T>(r: Seq<T>, items: Seq<T>, keys: Seq<Seq<i64>>, descending: bool) -> bool {
    exists|order: Seq<int>|
        #[trigger] is_stable_order(order, keys, descending) && r == order.map_values(|i: int| items[i])
}

proof fn lemma_in_order_total(a: Seq<i64>, b: Seq<i64>, d: bool)
    ensures
        in_order(a, b, d) || in_order(b, a, d),
{
    lemma_seq_le_total(a, b);
}

proof fn lemma_in_order_transitive(a: Seq<i64>, b: Seq<i64>, c: Seq<i64>, d: bool)
    requires
        in_order(a, b, d),
        in_order(b, c, d),
    ensures
        in_order(a, c, d),
{
    if d {
        lemma_seq_le_transitive(c, b, a);
    } else {
        lemma_seq_le_transitive(a, b, c);
    }
}

/// Sorts `items` by `keys` (one key per item), ascending or descending, and
/// keeps items with equal keys in their input order (as `sort_by` with a
/// possibly reversed comparison does).
pub fn stable_sort_by_keys<T>(items: Vec<T>, keys: Vec<Vec<i64>>, descending: bool) -> (r: Vec<T>)
    requires
        items@.len() == keys@.len(),
    ensures
        r@.len() == items@.len(),
        stably_sorted(r@, items@, key_views(keys@), descending),
{
    let ghost items0 = items@;
    let ghost ks = key_views(keys@);
    let n = items.len();
    let mut items = items;
    let mut keys = keys;
    let mut out: Vec<T> = Vec::new();
    let mut out_keys: Vec<Vec<i64>> = Vec::new();
    let ghost mut order: Seq<int> = Seq::empty();
    let mut k: usize = 0;
    while k < n
        invariant
            n == items0.len(),
            ks.len() == n,
            k <= n,
            items@ == items0.skip(k as int),
            key_views(keys@) == ks.skip(k as int),
            keys@.len() == n - k,
            order.len() == k,
            out_keys@.len() == k,
            out@ == order.map_values(|i: int| items0[i]),
            key_views(out_keys@) == order.map_values(|i: int| ks[i]),
            forall|i: int| 0 <= i < order.len() ==> 0 <= #[trigger] order[i] < k,
            forall|i: int, j: int| 0 <= i < j < order.len() ==> order[i] != order[j],
            forall|i: int, j: int|
                0 <= i < j < order.len() ==> in_order(
                    #[trigger] ks[order[i]],
                    #[trigger] ks[order[j]],
                    descending,
                ),
            forall|i: int, j: int|
                0 <= i < j < order.len() && ks[order[i]] == ks[order[j]] ==> order[i] < order[j],
        decreases n - k,
    {
        proof {
            assert(key_views(keys@)[0] == keys@[0]@);
            assert(ks.skip(k as int)[0] == ks[k as int]);
        }
        let ghost keys_before = keys@;
        let item = items.remove(0);
        let key = keys.remove(0);
        proof {
            assert forall|i: int| 0 <= i < keys@.len() implies #[trigger] key_views(keys@)[i] == ks.skip(k + 1)[i] by {
                assert(keys@[i] == keys_before[i + 1]);
                assert(key_views(keys_before)[i + 1] == keys_before[i + 1]@);
            }
            assert(key_views(keys@) =~= ks.skip(k + 1));
        }
        let mut p = out_keys.len();
        while p > 0 && !may_precede(&out_keys[p - 1], &key, descending)
            invariant
                p <= out_keys@.len(),
                out_keys@.len() == order.len(),
                key_views(out_keys@) == order.map_values(|i: int| ks[i]),
                k < ks.len(),
                key@ == ks[k as int],
                forall|q: int| p <= q < order.len() ==> !in_order(#[trigger] ks[order[q]], ks[k as int], descending),
            decreases p,
        {
            proof {
                let kv = key_views(out_keys@);
                assert(kv[p - 1] == out_keys@[p - 1]@);
            }
            p = p - 1;
        }
        proof {
            if p > 0 {
                let kv = key_views(out_keys@);
                assert(kv[p - 1] == out_keys@[p - 1]@);
            }
        }
        let ghost old_order = order;
        let ghost old_out_keys = out_keys@;
        out.insert(p, item);
        out_keys.insert(p, key);
        proof {
            order = old_order.insert(p as int, k as int);
            assert(out@ =~= order.map_values(|i: int| items0[i]));
            assert forall|i: int| 0 <= i < order.len() implies #[trigger] key_views(out_keys@)[i] == ks[order[i]] by {
                if i < p {
                    assert(out_keys@[i] == old_out_keys[i]);
                    assert(key_views(old_out_keys)[i] == old_out_keys[i]@);
                } else if i > p {
                    assert(out_keys@[i] == old_out_keys[i - 1]);
                    assert(key_views(old_out_keys)[i - 1] == old_out_keys[i - 1]@);
                }
            }
            assert(key_views(out_keys@) =~= order.map_values(|i: int| ks[i]));
            assert forall|i: int, j: int| 0 <= i < j < order.len() implies order[i] != order[j] by {
                if i < p && j > p {
                    assert(order[j] == old_order[j - 1]);
                } else if j == p {
                    assert(order[i] < k);
                } else if i == p {
                    assert(order[j] == old_order[j - 1]);
                } else if j < p {
                } else {
                    assert(order[i] == old_order[i - 1]);
                    assert(order[j] == old_order[j - 1]);
                }
            }
            assert forall|i: int, j: int| 0 <= i < j < order.len() implies in_order(
                #[trigger] ks[order[i]],
                #[trigger] ks[order[j]],
                descending,
            ) by {
                let kk = ks[k as int];
                if j == p {
                    // everything before p may precede the new key
                    if p > 0 {
                        assert(in_order(ks[old_order[p - 1]], kk, descending));
                        if i < p - 1 {
                            lemma_in_order_transitive(ks[old_order[i]], ks[old_order[p - 1]], kk, descending);
                        }
                    }
                } else if i == p {
                    assert(order[j] == old_order[j - 1]);
                    assert(!in_order(ks[old_order[j - 1]], kk, descending));
                    lemma_in_order_total(ks[old_order[j - 1]], kk, descending);
                } else if i < p && j > p {
                    assert(order[j] == old_order[j - 1]);
                } else if j < p {
                } else {
                    assert(order[i] == old_order[i - 1]);
                    assert(order[j] == old_order[j - 1]);
                }
            }
            assert forall|i: int, j: int|
                0 <= i < j < order.len() && ks[order[i]] == ks[order[j]] implies order[i] < order[j] by {
                let kk = ks[k as int];
                if j == p {
                    assert(order[i] < k);
                } else if i == p {
                    assert(order[j] == old_order[j - 1]);
                    assert(!in_order(ks[old_order[j - 1]], kk, descending));
                    lemma_seq_le_reflexive(kk);
                } else if i < p && j > p {
                    assert(order[j] == old_order[j - 1]);
                } else if j < p {
                } else {
                    assert(order[i] == old_order[i - 1]);
                    assert(order[j] == old_order[j - 1]);
                }
            }
            assert(items@ =~= items0.skip(k + 1));
        }
        k = k + 1;
    }
    proof {
        assert(is_stable_order(order, ks, descending));
    }
    out
}

/// Exec test of `in_order`.
pub fn may_precede(a: &Vec<i64>, b: &Vec<i64>, descending: bool) -> (r: bool)
    ensures
        r == in_order(a@, b@, descending),
{
    if descending {
        key_le(b, a)
    } else {
        key_le(a, b)
    }
}

/// Sorting only rearranges: the result is as long as the input, each of its
/// items comes from the input, and each input item is in it.
pub proof fn lemma_stably_sorted_rearranges<T>(r: Seq<T>, items: Seq<T>, keys: Seq<Seq<i64>>, descending: bool)
    requires
        stably_sorted(r, items, keys, descending),
        keys.len() == items.len(),
    ensures
        r.len() == items.len(),
        forall|j: int| 0 <= j < r.len() ==> items.contains(#[trigger] r[j]),
        forall|i: int| 0 <= i < items.len() ==> r.contains(#[trigger] items[i]),
{
    let order = choose|order: Seq<int>|
        #[trigger] is_stable_order(order, keys, descending) && r == order.map_values(|i: int| items[i]);
    let n = items.len() as int;
    assert forall|j: int| 0 <= j < r.len() implies items.contains(#[trigger] r[j]) by {
        assert(r[j] == items[order[j]]);
    }
    assert(order.no_duplicates());
    order.unique_seq_to_set();
    lemma_int_range(0, n);
    assert(order.to_set().subset_of(set_int_range(0, n))) by {
        assert forall|x: int| order.to_set().contains(x) implies set_int_range(0, n).contains(x) by {
            let j = choose|j: int| 0 <= j < order.len() && order[j] == x;
            assert(0 <= order[j] < keys.len());
        }
    }
    lemma_subset_equality(order.to_set(), set_int_range(0, n));
    assert forall|i: int| 0 <= i < items.len() implies r.contains(#[trigger] items[i]) by {
        assert(set_int_range(0, n).contains(i));
        assert(order.to_set().contains(i));
        let j = choose|j: int| 0 <= j < order.len() && order[j] == i;
        assert(r[j] == items[i]);
    }
}

} // verus!
