//! Association lists keyed by strings: the shape shared by the members of a
//! JSON object, the pairs of a query string and the entries of a route table.

use crate::text::same_text;
use vstd::prelude::*;

verus! {

/// What `pairs` associates with `key`: the value of the last pair with that key.
pub open spec fn assoc<V>(pairs: Seq<(Seq<char>, V)>, key: Seq<char>) -> Option<V>
    decreases pairs.len(),
{
    if pairs.len() == 0 {
        None
    } else if pairs.last().0 == key {
        Some(pairs.last().1)
    } else {
        assoc(pairs.drop_last(), key)
    }
}

/// The finite map that `pairs` denotes, later pairs overriding earlier ones.
pub open spec fn assoc_map<V>(pairs: Seq<(Seq<char>, V)>) -> Map<Seq<char>, V>
    decreases pairs.len(),
{
    if pairs.len() == 0 {
        Map::empty()
    } else {
        assoc_map(pairs.drop_last()).insert(pairs.last().0, pairs.last().1)
    }
}

/// The index of the last pair of `pairs` whose key is `key`, or -1 when no
/// pair has it.
pub open spec fn last_index<V>(pairs: Seq<(Seq<char>, V)>, key: Seq<char>) -> int
    decreases pairs.len(),
{
    if pairs.len() == 0 {
        -1
    } else if pairs.last().0 == key {
        pairs.len() - 1
    } else {
        last_index(pairs.drop_last(), key)
    }
}

/// `pairs` with `key` set to `value`: in the place of the pair that has the
/// key, or at the end where there is none.
pub open spec fn put<V>(pairs: Seq<(Seq<char>, V)>, key: Seq<char>, value: V) -> Seq<
    (Seq<char>, V),
> {
    let at = last_index(pairs, key);
    if at >= 0 {
        pairs.update(at, (key, value))
    } else {
        pairs.push((key, value))
    }
}

/// The pairs of `pairs` that count: those whose key no later pair has, in
/// their order.
pub open spec fn last_wins<V>(pairs: Seq<(Seq<char>, V)>) -> Seq<(Seq<char>, V)>
    decreases pairs.len(),
{
    if pairs.len() == 0 {
        Seq::empty()
    } else {
        let rest = last_wins(pairs.drop_first());
        if has_key(pairs.drop_first(), pairs[0].0) {
            rest
        } else {
            seq![pairs[0]] + rest
        }
    }
}

/// Some pair of `pairs` has the key `key`.
pub open spec fn has_key<V>(pairs: Seq<(Seq<char>, V)>, key: Seq<char>) -> bool {
    exists|i: int| 0 <= i < pairs.len() && (#[trigger] pairs[i]).0 == key
}

/// No key occurs twice in `pairs`.
pub open spec fn distinct_keys<V>(pairs: Seq<(Seq<char>, V)>) -> bool {
    forall|i: int, j: int| 0 <= i < j < pairs.len() ==> pairs[i].0 != pairs[j].0
}

/// `assoc` reads the map that `assoc_map` builds.
pub proof fn lemma_assoc_reads_map<V>(pairs: Seq<(Seq<char>, V)>, key: Seq<char>)
    ensures
        assoc(pairs, key) == (if assoc_map(pairs).dom().contains(key) {
            Some(assoc_map(pairs)[key])
        } else {
            None
        }),
    decreases pairs.len(),
{
    if pairs.len() > 0 {
        lemma_assoc_reads_map(pairs.drop_last(), key);
    }
}

/// Pairs from the index `from` on do not bear on `key` when none of them has it.
pub proof fn lemma_assoc_prefix<V>(pairs: Seq<(Seq<char>, V)>, key: Seq<char>, from: int)
    requires
        0 <= from <= pairs.len(),
        forall|k: int| from <= k < pairs.len() ==> pairs[k].0 != key,
    ensures
        assoc(pairs, key) == assoc(pairs.subrange(0, from), key),
    decreases pairs.len(),
{
    if from < pairs.len() {
        lemma_assoc_prefix(pairs.drop_last(), key, from);
        assert(pairs.drop_last().subrange(0, from) =~= pairs.subrange(0, from));
    } else {
        assert(pairs.subrange(0, from) =~= pairs);
    }
}

/// The pair at `at` decides `key` when it has the key and no later pair has.
pub proof fn lemma_assoc_at<V>(pairs: Seq<(Seq<char>, V)>, key: Seq<char>, at: int)
    requires
        0 <= at < pairs.len(),
        pairs[at].0 == key,
        forall|k: int| at < k < pairs.len() ==> pairs[k].0 != key,
    ensures
        assoc(pairs, key) == Some(pairs[at].1),
{
    lemma_assoc_prefix(pairs, key, at + 1);
    assert(pairs.subrange(0, at + 1).last() == pairs[at]);
}

/// `last_index` is the index of the pair that decides `key`.
pub proof fn lemma_last_index_at<V>(pairs: Seq<(Seq<char>, V)>, key: Seq<char>, at: int)
    requires
        0 <= at < pairs.len(),
        pairs[at].0 == key,
        forall|k: int| at < k < pairs.len() ==> pairs[k].0 != key,
    ensures
        last_index(pairs, key) == at,
    decreases pairs.len(),
{
    if at < pairs.len() - 1 {
        lemma_last_index_at(pairs.drop_last(), key, at);
    }
}

/// `last_index` is -1 where no pair has the key.
pub proof fn lemma_last_index_none<V>(pairs: Seq<(Seq<char>, V)>, key: Seq<char>)
    requires
        forall|k: int| 0 <= k < pairs.len() ==> pairs[k].0 != key,
    ensures
        last_index(pairs, key) == -1,
    decreases pairs.len(),
{
    if pairs.len() > 0 {
        lemma_last_index_none(pairs.drop_last(), key);
    }
}

/// What `last_index` returns: -1, or the index of a pair with the key after
/// which no pair has it.
pub proof fn lemma_last_index<V>(pairs: Seq<(Seq<char>, V)>, key: Seq<char>)
    ensures
        -1 <= last_index(pairs, key) < pairs.len(),
        last_index(pairs, key) >= 0 ==> pairs[last_index(pairs, key)].0 == key,
        forall|k: int| last_index(pairs, key) < k < pairs.len() ==> pairs[k].0 != key,
        assoc(pairs, key) == (if last_index(pairs, key) >= 0 {
            Some(pairs[last_index(pairs, key)].1)
        } else {
            None
        }),
    decreases pairs.len(),
{
    if pairs.len() > 0 && pairs.last().0 != key {
        let init = pairs.drop_last();
        lemma_last_index(init, key);
        assert forall|k: int| last_index(pairs, key) < k < pairs.len() implies pairs[k].0
            != key by {
            if k < init.len() {
                assert(init[k].0 != key);
            }
        }
    }
}

/// After `put`, `key` has `value` and every other key has what it had.
pub proof fn lemma_put_assoc<V>(
    pairs: Seq<(Seq<char>, V)>,
    key: Seq<char>,
    value: V,
    other: Seq<char>,
)
    ensures
        assoc(put(pairs, key, value), other) == (if other == key {
            Some(value)
        } else {
            assoc(pairs, other)
        }),
{
    let after = put(pairs, key, value);
    lemma_last_index(pairs, key);
    lemma_last_index(pairs, other);
    let at = last_index(pairs, key);
    if at >= 0 {
        if other == key {
            lemma_assoc_at(after, other, at);
        } else {
            let o = last_index(pairs, other);
            if o >= 0 {
                lemma_assoc_at(after, other, o);
            } else {
                lemma_assoc_prefix(after, other, 0);
            }
        }
    } else {
        if other != key {
            assert(after.drop_last() =~= pairs);
        }
    }
}

/// `put` keeps the keys distinct.
pub proof fn lemma_put_distinct<V>(pairs: Seq<(Seq<char>, V)>, key: Seq<char>, value: V)
    requires
        distinct_keys(pairs),
    ensures
        distinct_keys(put(pairs, key, value)),
{
    lemma_last_index(pairs, key);
    let at = last_index(pairs, key);
    let after = put(pairs, key, value);
    if at < 0 {
        assert forall|i: int, j: int| 0 <= i < j < after.len() implies after[i].0 != after[j].0 by {
            if j == pairs.len() {
                if pairs[i].0 == key {
                    lemma_assoc_has_key(pairs, key);
                    assert(has_key(pairs, key));
                    lemma_last_index_has_key(pairs, key);
                }
            }
        }
    }
}

/// `last_index` finds an index exactly for the keys that occur.
pub proof fn lemma_last_index_has_key<V>(pairs: Seq<(Seq<char>, V)>, key: Seq<char>)
    ensures
        last_index(pairs, key) >= 0 <==> has_key(pairs, key),
{
    lemma_last_index(pairs, key);
    lemma_assoc_has_key(pairs, key);
}

/// `assoc` finds a value exactly for the keys that occur.
pub proof fn lemma_assoc_has_key<V>(pairs: Seq<(Seq<char>, V)>, key: Seq<char>)
    ensures
        assoc(pairs, key) is Some <==> has_key(pairs, key),
    decreases pairs.len(),
{
    if pairs.len() > 0 {
        let init = pairs.drop_last();
        lemma_assoc_has_key(init, key);
        if pairs.last().0 == key {
            assert(pairs[pairs.len() - 1].0 == key);
        } else if has_key(init, key) {
            let i = choose|i: int| 0 <= i < init.len() && (#[trigger] init[i]).0 == key;
            assert(pairs[i].0 == key);
        } else if has_key(pairs, key) {
            let i = choose|i: int| 0 <= i < pairs.len() && (#[trigger] pairs[i]).0 == key;
            assert(init[i].0 == key);
        }
    }
}

/// A pair in front counts only for a key that no pair after it has.
pub proof fn lemma_assoc_front<V>(first: (Seq<char>, V), rest: Seq<(Seq<char>, V)>, key: Seq<char>)
    ensures
        assoc(seq![first] + rest, key) == (match assoc(rest, key) {
            Some(v) => Some(v),
            None => if first.0 == key {
                Some(first.1)
            } else {
                None
            },
        }),
    decreases rest.len(),
{
    let all = seq![first] + rest;
    if rest.len() == 0 {
        assert(all.last() == first);
        assert(all.drop_last() =~= rest);
        assert(assoc(rest, key) is None);
        assert(assoc(all.drop_last(), key) is None);
    } else {
        assert(all.last() == rest.last());
        assert(all.drop_last() =~= seq![first] + rest.drop_last());
        lemma_assoc_front(first, rest.drop_last(), key);
    }
}

/// `last_wins` keeps what every key is associated with, and has each key once.
pub proof fn lemma_last_wins<V>(pairs: Seq<(Seq<char>, V)>)
    ensures
        distinct_keys(last_wins(pairs)),
        forall|key: Seq<char>| #[trigger] assoc(last_wins(pairs), key) == assoc(pairs, key),
    decreases pairs.len(),
{
    if pairs.len() > 0 {
        let first = pairs[0];
        let rest = pairs.drop_first();
        let kept = last_wins(rest);
        lemma_last_wins(rest);
        assert(pairs =~= seq![first] + rest);
        assert forall|key: Seq<char>| #[trigger]
            assoc(last_wins(pairs), key) == assoc(pairs, key) by {
            assert(assoc(kept, key) == assoc(rest, key));
            lemma_assoc_front(first, rest, key);
            lemma_assoc_front(first, kept, key);
            lemma_assoc_has_key(rest, first.0);
            lemma_assoc_has_key(rest, key);
        }
        if !has_key(rest, first.0) {
            let all = seq![first] + kept;
            assert forall|i: int, j: int| 0 <= i < j < all.len() implies all[i].0 != all[j].0 by {
                if i == 0 {
                    assert(all[j] == kept[j - 1]);
                    if kept[j - 1].0 == first.0 {
                        assert(has_key(kept, first.0));
                        lemma_assoc_has_key(kept, first.0);
                        lemma_assoc_has_key(rest, first.0);
                        assert(assoc(kept, first.0) == assoc(rest, first.0));
                    }
                } else {
                    assert(all[i] == kept[i - 1]);
                    assert(all[j] == kept[j - 1]);
                }
            }
        }
    }
}

/// The index of the last pair of `pairs` whose key is `key`.
pub fn find_last<V>(pairs: &Vec<(String, V)>, key: &str) -> (found: Option<usize>)
    ensures
        match found {
            Some(i) => i < pairs.len() && pairs@[i as int].0@ == key@ && forall|k: int|
                i < k < pairs.len() ==> pairs@[k].0@ != key@,
            None => forall|k: int| 0 <= k < pairs.len() ==> pairs@[k].0@ != key@,
        },
{
    let mut i: usize = pairs.len();
    while i > 0
        invariant
            i <= pairs.len(),
            forall|k: int| i <= k < pairs.len() ==> pairs@[k].0@ != key@,
        decreases i,
    {
        i -= 1;
        if same_text(pairs[i].0.as_str(), key) {
            return Some(i);
        }
    }
    None
}

/// The value of the last pair of `pairs` whose key is `key`.
pub fn find_value<'a, V: DeepView>(pairs: &'a Vec<(String, V)>, key: &str) -> (found: Option<
    &'a V,
>)
    ensures
        match found {
            Some(v) => assoc(pairs.deep_view(), key@) == Some(v.deep_view()),
            None => assoc(pairs.deep_view(), key@) is None,
        },
{
    match find_last(pairs, key) {
        Some(i) => {
            proof {
                lemma_assoc_at(pairs.deep_view(), key@, i as int);
            }
            Some(&pairs[i].1)
        },
        None => {
            proof {
                lemma_assoc_prefix(pairs.deep_view(), key@, 0);
            }
            None
        },
    }
}

/// Sets `key` to `value`: in the place of the pair that has the key, or at
/// the end where there is none. Keys that were distinct stay distinct, and
/// every other key keeps what it had.
pub fn set_value<V: DeepView>(pairs: &mut Vec<(String, V)>, key: &str, value: V)
    ensures
        final(pairs).deep_view() == put(old(pairs).deep_view(), key@, value.deep_view()),
        distinct_keys(old(pairs).deep_view()) ==> distinct_keys(final(pairs).deep_view()),
        forall|other: Seq<char>| #[trigger]
            assoc(final(pairs).deep_view(), other) == (if other == key@ {
                Some(value.deep_view())
            } else {
                assoc(old(pairs).deep_view(), other)
            }),
{
    let ghost before = pairs.deep_view();
    let ghost data = value.deep_view();
    proof {
        if distinct_keys(before) {
            lemma_put_distinct(before, key@, data);
        }
        assert forall|other: Seq<char>| #[trigger]
            assoc(put(before, key@, data), other) == (if other == key@ {
                Some(data)
            } else {
                assoc(before, other)
            }) by {
            lemma_put_assoc(before, key@, data, other);
        }
    }
    match find_last(pairs, key) {
        Some(i) => {
            proof {
                lemma_last_index_at(before, key@, i as int);
            }
            pairs[i] = (key.to_owned(), value);
            assert(pairs.deep_view() =~= before.update(i as int, (key@, data)));
        },
        None => {
            proof {
                lemma_last_index_none(before, key@);
            }
            pairs.push((key.to_owned(), value));
            assert(pairs.deep_view() =~= before.push((key@, data)));
        },
    }
}

} // verus!
