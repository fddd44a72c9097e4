use vstd::prelude::*;
use vstd::utf8::encode_utf8;

use crate::order::{
    bytes_le, bytes_less_than, bytes_lt, lemma_bytes_le_transitive, lemma_bytes_lt_irreflexive,
    lemma_bytes_lt_total, lemma_bytes_lt_transitive,
};

verus! {

/// An amount of one denomination, as the test chain's bank module counts it.
#[derive(Debug)]
pub struct Coin {
    pub denom: String,
    pub amount: u128,
}

impl Coin {
    /// A coin of `amount` units of `denom`.
    pub fn new(amount: u128, denom: String) -> (coin: Coin)
        ensures
            coin.amount == amount,
            coin.denom@ == denom@,
    {
        Coin { denom, amount }
    }
}

impl Clone for Coin {
    fn clone(&self) -> (copy: Coin)
        ensures
            copy == *self,
    {
        Coin { denom: self.denom.clone(), amount: self.amount }
    }
}

/// The key by which coins are ordered: the UTF-8 bytes of the denomination.
pub open spec fn denom_key(c: Coin) -> Seq<u8> {
    encode_utf8(c.denom@)
}

/// Compares two coins by denomination, as `String` compares.
pub fn denom_less_than(a: &Coin, b: &Coin) -> (lt: bool)
    ensures
        lt == bytes_lt(denom_key(*a), denom_key(*b)),
{
    bytes_less_than(a.denom.as_str().as_bytes(), b.denom.as_str().as_bytes())
}

/// Places `c` after every coin of `s` whose denomination does not come after
/// its own, and before the rest.
pub open spec fn insert_by_denom(s: Seq<Coin>, c: Coin) -> Seq<Coin>
    decreases s.len(),
{
    if s.len() == 0 {
        seq![c]
    } else if bytes_lt(denom_key(c), denom_key(s.last())) {
        insert_by_denom(s.drop_last(), c).push(s.last())
    } else {
        s.push(c)
    }
}

/// The coins of `s`, sorted by denomination; coins of one denomination keep
/// the order they had in `s`.
pub open spec fn sort_by_denom(s: Seq<Coin>) -> Seq<Coin>
    decreases s.len(),
{
    if s.len() == 0 {
        s
    } else {
        insert_by_denom(sort_by_denom(s.drop_last()), s.last())
    }
}

/// No coin of `s` has a denomination that comes before that of an earlier coin.
pub open spec fn is_sorted_by_denom(s: Seq<Coin>) -> bool {
    forall|i: int, j: int|
        0 <= i < j < s.len() ==> bytes_le(#[trigger] denom_key(s[i]), #[trigger] denom_key(s[j]))
}

/// The coins of `s` whose denomination is `key`, in their order in `s`.
pub open spec fn with_denom(s: Seq<Coin>, key: Seq<u8>) -> Seq<Coin> {
    s.filter(|c: Coin| denom_key(c) == key)
}

/// Sorts coins by denomination, keeping coins of equal denomination in their
/// order of the input (the order that the chain's bank module expects).
pub fn sort_coins_by_denom(coins: &[Coin]) -> (sorted: Vec<Coin>)
    ensures
        sorted@ == sort_by_denom(coins@),
        is_sorted_by_denom(sorted@),
        sorted@.to_multiset() == coins@.to_multiset(),
        forall|key: Seq<u8>| with_denom(sorted@, key) == with_denom(coins@, key),
{
    let mut out: Vec<Coin> = Vec::new();
    assert(coins@.take(0) =~= Seq::<Coin>::empty());
    for i in 0..coins.len()
        invariant
            out@ == sort_by_denom(coins@.take(i as int)),
    {
        let c = coins[i].clone();
        let mut j: usize = out.len();
        assert(out@.take(j as int) =~= out@);
        assert(out@.skip(j as int) =~= Seq::<Coin>::empty());
        while j > 0 && denom_less_than(&c, &out[j - 1])
            invariant
                j <= out.len(),
                insert_by_denom(out@, c) == insert_by_denom(out@.take(j as int), c) + out@.skip(
                    j as int,
                ),
            decreases j,
        {
            let ghost t = out@.take(j as int);
            assert(t.drop_last() =~= out@.take(j - 1));
            assert(t.last() == out@[j - 1]);
            assert(out@.skip(j - 1) =~= seq![out@[j - 1]] + out@.skip(j as int));
            assert(insert_by_denom(t, c) + out@.skip(j as int) =~= insert_by_denom(
                out@.take(j - 1),
                c,
            ) + out@.skip(j - 1));
            j = j - 1;
        }
        proof {
            let t = out@.take(j as int);
            if j > 0 {
                assert(t.last() == out@[j - 1]);
            }
            assert(insert_by_denom(t, c) =~= t.push(c));
            assert(out@.insert(j as int, c) =~= t.push(c) + out@.skip(j as int));
            assert(coins@.take(i + 1).drop_last() =~= coins@.take(i as int));
        }
        out.insert(j, c);
    }
    assert(coins@.take(coins.len() as int) =~= coins@);
    proof {
        lemma_sort_sorted(coins@);
        lemma_sort_permutation(coins@);
        assert forall|key: Seq<u8>| with_denom(out@, key) == with_denom(coins@, key) by {
            lemma_sort_stable(coins@, key);
        }
    }
    out
}

proof fn lemma_insert_bounded(s: Seq<Coin>, c: Coin, b: Seq<u8>)
    requires
        forall|i: int| 0 <= i < s.len() ==> bytes_le(#[trigger] denom_key(s[i]), b),
        bytes_le(denom_key(c), b),
    ensures
        forall|i: int|
            0 <= i < insert_by_denom(s, c).len() ==> bytes_le(
                #[trigger] denom_key(insert_by_denom(s, c)[i]),
                b,
            ),
    decreases s.len(),
{
    let r = insert_by_denom(s, c);
    if s.len() == 0 {
        assert(r[0] == c);
    } else if bytes_lt(denom_key(c), denom_key(s.last())) {
        let t = s.drop_last();
        assert forall|i: int| 0 <= i < t.len() implies bytes_le(#[trigger] denom_key(t[i]), b) by {
            assert(t[i] == s[i]);
        }
        lemma_insert_bounded(t, c, b);
        assert forall|i: int| 0 <= i < r.len() implies bytes_le(#[trigger] denom_key(r[i]), b) by {
            if i < r.len() - 1 {
                assert(r[i] == insert_by_denom(t, c)[i]);
            } else {
                assert(r[i] == s[s.len() - 1]);
            }
        }
    } else {
        assert forall|i: int| 0 <= i < r.len() implies bytes_le(#[trigger] denom_key(r[i]), b) by {
            if i < s.len() {
                assert(r[i] == s[i]);
            }
        }
    }
}

proof fn lemma_insert_sorted(s: Seq<Coin>, c: Coin)
    requires
        is_sorted_by_denom(s),
    ensures
        is_sorted_by_denom(insert_by_denom(s, c)),
    decreases s.len(),
{
    if s.len() == 0 {
    } else if bytes_lt(denom_key(c), denom_key(s.last())) {
        let t = s.drop_last();
        lemma_insert_sorted(t, c);
        lemma_bytes_lt_total(denom_key(c), denom_key(s.last()));
        lemma_bytes_lt_irreflexive(denom_key(s.last()));
        assert forall|i: int| 0 <= i < t.len() implies bytes_le(
            #[trigger] denom_key(t[i]),
            denom_key(s.last()),
        ) by {
            assert(s[i] == t[i]);
        }
        assert(bytes_le(denom_key(c), denom_key(s.last()))) by {
            if bytes_lt(denom_key(s.last()), denom_key(c)) {
                lemma_bytes_lt_transitive(denom_key(c), denom_key(s.last()), denom_key(c));
                lemma_bytes_lt_irreflexive(denom_key(c));
            }
        }
        lemma_insert_bounded(t, c, denom_key(s.last()));
    } else {
        assert forall|i: int, j: int| 0 <= i < j < s.len() + 1 implies bytes_le(
            #[trigger] denom_key(s.push(c)[i]),
            #[trigger] denom_key(s.push(c)[j]),
        ) by {
            if j == s.len() {
                if i < s.len() - 1 {
                    lemma_bytes_le_transitive(
                        denom_key(s[i]),
                        denom_key(s.last()),
                        denom_key(c),
                    );
                }
            }
        }
    }
}

/// Sorting by denomination yields coins in denomination order.
pub proof fn lemma_sort_sorted(s: Seq<Coin>)
    ensures
        is_sorted_by_denom(sort_by_denom(s)),
    decreases s.len(),
{
    if s.len() > 0 {
        lemma_sort_sorted(s.drop_last());
        lemma_insert_sorted(sort_by_denom(s.drop_last()), s.last());
    }
}

proof fn lemma_insert_multiset(s: Seq<Coin>, c: Coin)
    ensures
        insert_by_denom(s, c).to_multiset() == s.to_multiset().insert(c),
    decreases s.len(),
{
    broadcast use vstd::seq_lib::group_to_multiset_ensures;

    if s.len() == 0 {
        assert(seq![c] =~= Seq::<Coin>::empty().push(c));
    } else if bytes_lt(denom_key(c), denom_key(s.last())) {
        let t = s.drop_last();
        lemma_insert_multiset(t, c);
        assert(s =~= t.push(s.last()));
        assert(insert_by_denom(s, c).to_multiset() =~= s.to_multiset().insert(c));
    }
}

/// Sorting by denomination neither adds, drops nor changes a coin.
pub proof fn lemma_sort_permutation(s: Seq<Coin>)
    ensures
        sort_by_denom(s).to_multiset() == s.to_multiset(),
    decreases s.len(),
{
    broadcast use vstd::seq_lib::group_to_multiset_ensures;

    if s.len() > 0 {
        lemma_sort_permutation(s.drop_last());
        lemma_insert_multiset(sort_by_denom(s.drop_last()), s.last());
        assert(s =~= s.drop_last().push(s.last()));
    }
}

proof fn lemma_insert_filter(s: Seq<Coin>, c: Coin, key: Seq<u8>)
    requires
        is_sorted_by_denom(s),
    ensures
        with_denom(insert_by_denom(s, c), key) == if denom_key(c) == key {
            with_denom(s, key).push(c)
        } else {
            with_denom(s, key)
        },
    decreases s.len(),
{
    let p = |x: Coin| denom_key(x) == key;
    reveal_with_fuel(Seq::filter, 2);
    if s.len() == 0 {
        assert(seq![c].drop_last() =~= Seq::<Coin>::empty());
    } else if bytes_lt(denom_key(c), denom_key(s.last())) {
        let t = s.drop_last();
        assert(is_sorted_by_denom(t)) by {
            assert forall|i: int, j: int| 0 <= i < j < t.len() implies bytes_le(
                #[trigger] denom_key(t[i]),
                #[trigger] denom_key(t[j]),
            ) by {
                assert(t[i] == s[i] && t[j] == s[j]);
            }
        }
        lemma_insert_filter(t, c, key);
        let ins = insert_by_denom(t, c);
        assert(ins.push(s.last()).drop_last() =~= ins);
        assert(s.drop_last() =~= t);
        if denom_key(c) == key {
            lemma_bytes_lt_irreflexive(key);
            assert(denom_key(s.last()) != key);
        }
    } else {
        assert(s.push(c).drop_last() =~= s);
    }
}

/// Sorting by denomination is stable: the coins of any one denomination come
/// out in the order they went in.
pub proof fn lemma_sort_stable(s: Seq<Coin>, key: Seq<u8>)
    ensures
        with_denom(sort_by_denom(s), key) == with_denom(s, key),
    decreases s.len(),
{
    reveal_with_fuel(Seq::filter, 2);
    if s.len() > 0 {
        let t = s.drop_last();
        lemma_sort_stable(t, key);
        lemma_sort_sorted(t);
        lemma_insert_filter(sort_by_denom(t), s.last(), key);
    } else {
        assert(with_denom(s, key) =~= Seq::<Coin>::empty());
    }
}

/// Coins already in denomination order are left as they are.
pub proof fn lemma_sort_of_sorted(s: Seq<Coin>)
    requires
        is_sorted_by_denom(s),
    ensures
        sort_by_denom(s) == s,
    decreases s.len(),
{
    if s.len() > 0 {
        let t = s.drop_last();
        assert(is_sorted_by_denom(t)) by {
            assert forall|i: int, j: int| 0 <= i < j < t.len() implies bytes_le(
                #[trigger] denom_key(t[i]),
                #[trigger] denom_key(t[j]),
            ) by {
                assert(t[i] == s[i] && t[j] == s[j]);
            }
        }
        lemma_sort_of_sorted(t);
        if t.len() > 0 {
            assert(t.last() == s[s.len() - 2]);
            assert(bytes_le(denom_key(s[s.len() - 2]), denom_key(s[s.len() - 1])));
        }
        assert(t.push(s.last()) =~= s);
    }
}

/// Sorting twice gives what sorting once gives.
pub proof fn lemma_sort_idempotent(s: Seq<Coin>)
    ensures
        sort_by_denom(sort_by_denom(s)) == sort_by_denom(s),
{
    lemma_sort_sorted(s);
    lemma_sort_of_sorted(sort_by_denom(s));
}

} // verus!
