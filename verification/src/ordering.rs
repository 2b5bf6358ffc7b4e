//! A stable sort by composite keys, shared by the queries that return rows in
//! a stated order.

use vstd::prelude::*;

verus! {

/// A key to sort by: `rank` first, then `text` in dictionary order of its
/// characters, then `tie`.
pub struct SortKey {
    pub rank: u64,
    pub text: Vec<char>,
    pub tie: u64,
}

/// Whether `a` comes before `b` in dictionary order, or equals it.
pub open spec fn text_le(a: Seq<char>, b: Seq<char>) -> bool
    decreases a.len(),
{
    if a.len() == 0 {
        true
    } else if b.len() == 0 {
        false
    } else if a[0] != b[0] {
        a[0] < b[0]
    } else {
        text_le(a.drop_first(), b.drop_first())
    }
}

/// What a key holds: the model of `SortKey`.
pub struct Key {
    pub rank: u64,
    pub text: Seq<char>,
    pub tie: u64,
}

impl View for SortKey {
    type V = Key;

    open spec fn view(&self) -> Key {
        Key { rank: self.rank, text: self.text@, tie: self.tie }
    }
}

/// The models of the keys of `v`.
pub open spec fn key_views(v: Seq<SortKey>) -> Seq<Key> {
    v.map_values(|k: SortKey| k@)
}

/// Whether key `a` comes before key `b`, or equals it.
pub open spec fn key_le(a: Key, b: Key) -> bool {
    if a.rank != b.rank {
        a.rank < b.rank
    } else if a.text != b.text {
        text_le(a.text, b.text)
    } else {
        a.tie <= b.tie
    }
}

/// `sorted` with the index `x` put behind the last index whose key is not
/// greater than the key of `x`.
pub open spec fn insert_index(keys: Seq<Key>, sorted: Seq<int>, x: int) -> Seq<int>
    decreases sorted.len(),
{
    if sorted.len() == 0 {
        seq![x]
    } else if key_le(keys[sorted.last()], keys[x]) {
        sorted.push(x)
    } else {
        insert_index(keys, sorted.drop_last(), x).push(sorted.last())
    }
}

/// The indices `0..n` in the order of their keys; indices with equal keys
/// keep their own order.
pub open spec fn sorted_prefix(keys: Seq<Key>, n: int) -> Seq<int>
    decreases n,
{
    if n <= 0 {
        Seq::empty()
    } else {
        insert_index(keys, sorted_prefix(keys, n - 1), n - 1)
    }
}

/// The indices of `keys` in the order of their keys; indices with equal keys
/// keep their own order.
pub open spec fn sorted_indices(keys: Seq<Key>) -> Seq<int> {
    sorted_prefix(keys, keys.len() as int)
}

/// `items` rearranged by `order`.
pub open spec fn arranged<T>(items: Seq<T>, order: Seq<int>) -> Seq<T> {
    Seq::new(order.len(), |i: int| items[order[i]])
}

/// The indices of a vector, as integers.
pub open spec fn as_ints(v: Seq<usize>) -> Seq<int> {
    v.map_values(|x: usize| x as int)
}

/// Tests dictionary order.
pub fn text_before_or_equal(a: &Vec<char>, b: &Vec<char>) -> (r: bool)
    ensures
        r == text_le(a@, b@),
{
    let mut i: usize = 0;
    assert(a@.skip(0) =~= a@);
    assert(b@.skip(0) =~= b@);
    loop
        invariant
            i <= a.len(),
            i <= b.len(),
            text_le(a@, b@) == text_le(a@.skip(i as int), b@.skip(i as int)),
        decreases a.len() - i,
    {
        if i == a.len() {
            return true;
        }
        if i == b.len() {
            return false;
        }
        if a[i] != b[i] {
            return a[i] < b[i];
        }
        assert(a@.skip(i as int).drop_first() =~= a@.skip(i + 1));
        assert(b@.skip(i as int).drop_first() =~= b@.skip(i + 1));
        i += 1;
    }
}

/// Tests the order of two keys.
pub fn key_before_or_equal(a: &SortKey, b: &SortKey) -> (r: bool)
    ensures
        r == key_le(a@, b@),
{
    if a.rank != b.rank {
        a.rank < b.rank
    } else if !crate::text::same(&a.text, &b.text) {
        text_before_or_equal(&a.text, &b.text)
    } else {
        a.tie <= b.tie
    }
}

/// Putting `x` into `sorted` places it behind position `p - 1`, if the key
/// there is not greater than that of `x` and all keys from `p` on are.
proof fn lemma_insert_at(keys: Seq<Key>, sorted: Seq<int>, x: int, p: int)
    requires
        0 <= p <= sorted.len(),
        p > 0 ==> key_le(keys[sorted[p - 1]], keys[x]),
        forall|j: int| p <= j < sorted.len() ==> !key_le(keys[#[trigger] sorted[j]], keys[x]),
    ensures
        insert_index(keys, sorted, x) == sorted.take(p) + seq![x] + sorted.skip(p),
    decreases sorted.len() - p,
{
    if p == sorted.len() {
        assert(sorted.take(p) =~= sorted);
        assert(sorted.skip(p) =~= Seq::<int>::empty());
        if sorted.len() > 0 {
            assert(sorted.last() == sorted[p - 1]);
        }
        assert(sorted.take(p) + seq![x] + sorted.skip(p) =~= sorted.push(x));
    } else {
        let shorter = sorted.drop_last();
        assert(!key_le(keys[sorted[sorted.len() - 1]], keys[x]));
        assert forall|j: int| p <= j < shorter.len() implies !key_le(
            keys[#[trigger] shorter[j]],
            keys[x],
        ) by {
            assert(shorter[j] == sorted[j]);
        }
        lemma_insert_at(keys, shorter, x, p);
        assert((shorter.take(p) + seq![x] + shorter.skip(p)).push(sorted.last()) =~= sorted.take(
            p,
        ) + seq![x] + sorted.skip(p));
    }
}

/// The indices of `keys`, sorted by key; equal keys keep their order.
pub fn sort_indices(keys: &Vec<SortKey>) -> (order: Vec<usize>)
    ensures
        as_ints(order@) == sorted_indices(key_views(keys@)),
        order.len() == keys.len(),
        forall|i: int| 0 <= i < order.len() ==> 0 <= #[trigger] order@[i] < keys.len(),
{
    let mut order: Vec<usize> = Vec::new();
    let mut n: usize = 0;
    let ghost kv = key_views(keys@);
    assert(as_ints(order@) =~= sorted_prefix(kv, 0));
    while n < keys.len()
        invariant
            n <= keys.len(),
            order.len() == n,
            kv == key_views(keys@),
            as_ints(order@) == sorted_prefix(kv, n as int),
            forall|i: int| 0 <= i < order.len() ==> 0 <= #[trigger] order@[i] < n,
        decreases keys.len() - n,
    {
        let mut p: usize = order.len();
        while p > 0 && !key_before_or_equal(&keys[order[p - 1]], &keys[n])
            invariant
                p <= order.len(),
                n < keys.len(),
                kv == key_views(keys@),
                forall|i: int| 0 <= i < order.len() ==> 0 <= #[trigger] order@[i] < n,
                forall|j: int|
                    p <= j < order.len() ==> !key_le(kv[#[trigger] order@[j] as int], kv[n as int]),
            decreases p,
        {
            p -= 1;
        }
        proof {
            let sorted = as_ints(order@);
            assert forall|j: int| p <= j < sorted.len() implies !key_le(
                kv[#[trigger] sorted[j]],
                kv[n as int],
            ) by {
                assert(sorted[j] == order@[j] as int);
            }
            if p > 0 {
                assert(sorted[p - 1] == order@[p - 1] as int);
            }
            lemma_insert_at(kv, sorted, n as int, p as int);
        }
        let ghost before = order@;
        order.insert(p, n);
        assert(as_ints(order@) =~= as_ints(before).take(p as int) + seq![n as int] + as_ints(
            before,
        ).skip(p as int));
        n += 1;
    }
    order
}


/// Of two texts one comes before the other, or they are equal.
pub proof fn lemma_text_le_total(a: Seq<char>, b: Seq<char>)
    ensures
        text_le(a, b) || text_le(b, a),
    decreases a.len(),
{
    if a.len() > 0 && b.len() > 0 && a[0] == b[0] {
        lemma_text_le_total(a.drop_first(), b.drop_first());
    }
}

/// Two texts that come before each other are equal.
pub proof fn lemma_text_le_antisymmetric(a: Seq<char>, b: Seq<char>)
    requires
        text_le(a, b),
        text_le(b, a),
    ensures
        a == b,
    decreases a.len(),
{
    if a.len() == 0 || b.len() == 0 {
        assert(a =~= b);
    } else {
        lemma_text_le_antisymmetric(a.drop_first(), b.drop_first());
        assert(a =~= seq![a[0]] + a.drop_first());
        assert(b =~= seq![b[0]] + b.drop_first());
    }
}

/// The order of texts is transitive.
pub proof fn lemma_text_le_transitive(a: Seq<char>, b: Seq<char>, c: Seq<char>)
    requires
        text_le(a, b),
        text_le(b, c),
    ensures
        text_le(a, c),
    decreases a.len(),
{
    if a.len() > 0 && b.len() > 0 && c.len() > 0 && a[0] == b[0] && b[0] == c[0] {
        lemma_text_le_transitive(a.drop_first(), b.drop_first(), c.drop_first());
    }
}

/// Of two keys one comes before the other, or they are equal in order.
pub proof fn lemma_key_le_total(a: Key, b: Key)
    ensures
        key_le(a, b) || key_le(b, a),
{
    lemma_text_le_total(a.text, b.text);
}

/// The order of keys is transitive.
pub proof fn lemma_key_le_transitive(a: Key, b: Key, c: Key)
    requires
        key_le(a, b),
        key_le(b, c),
    ensures
        key_le(a, c),
{
    if a.rank == b.rank && b.rank == c.rank {
        if a.text == b.text || b.text == c.text {
        } else {
            lemma_text_le_transitive(a.text, b.text, c.text);
            if a.text == c.text {
                lemma_text_le_antisymmetric(a.text, b.text);
            }
        }
    }
}

/// Whether `order` holds each of the indices `0..n` once, in the order of
/// their keys, indices with keys of one rank in the order keeping their
/// own order.
pub open spec fn is_stable_order(keys: Seq<Key>, n: int, order: Seq<int>) -> bool {
    &&& order.len() == n
    &&& forall|a: int| 0 <= a < n ==> 0 <= #[trigger] order[a] < n
    &&& forall|a: int, b: int| 0 <= a < b < n ==> #[trigger] order[a] != #[trigger] order[b]
    &&& forall|i: int| 0 <= i < n ==> #[trigger] order.contains(i)
    &&& forall|a: int, b: int|
        0 <= a < b < n ==> key_le(keys[#[trigger] order[a]], keys[#[trigger] order[b]])
    &&& forall|a: int, b: int|
        0 <= a < b < n && key_le(keys[#[trigger] order[b]], keys[#[trigger] order[a]])
            ==> order[a] < order[b]
}

/// Where `x` goes in `sorted`: behind the last index whose key is not
/// greater than the key of `x`.
pub open spec fn insert_position(keys: Seq<Key>, sorted: Seq<int>, x: int) -> int
    decreases sorted.len(),
{
    if sorted.len() == 0 {
        0
    } else if key_le(keys[sorted.last()], keys[x]) {
        sorted.len() as int
    } else {
        insert_position(keys, sorted.drop_last(), x)
    }
}

/// What the place of an insertion is like.
pub proof fn lemma_insert_position(keys: Seq<Key>, sorted: Seq<int>, x: int)
    ensures
        0 <= insert_position(keys, sorted, x) <= sorted.len(),
        insert_position(keys, sorted, x) > 0 ==> key_le(
            keys[sorted[insert_position(keys, sorted, x) - 1]],
            keys[x],
        ),
        forall|j: int|
            insert_position(keys, sorted, x) <= j < sorted.len() ==> !key_le(
                keys[#[trigger] sorted[j]],
                keys[x],
            ),
        insert_index(keys, sorted, x) == sorted.take(insert_position(keys, sorted, x)) + seq![x]
            + sorted.skip(insert_position(keys, sorted, x)),
    decreases sorted.len(),
{
    let p = insert_position(keys, sorted, x);
    if sorted.len() > 0 && !key_le(keys[sorted.last()], keys[x]) {
        let shorter = sorted.drop_last();
        lemma_insert_position(keys, shorter, x);
        assert forall|j: int| p <= j < sorted.len() implies !key_le(
            keys[#[trigger] sorted[j]],
            keys[x],
        ) by {
            if j < shorter.len() {
                assert(shorter[j] == sorted[j]);
            }
        }
        if p > 0 {
            assert(shorter[p - 1] == sorted[p - 1]);
        }
    }
    lemma_insert_at(keys, sorted, x, p);
}

/// Sorting gives a stable order: the sorted indices hold each index once,
/// their keys never fall, and indices whose keys are equal in order keep
/// their own order.
pub proof fn lemma_sorted_prefix_is_stable(keys: Seq<Key>, n: int)
    requires
        0 <= n <= keys.len(),
    ensures
        is_stable_order(keys, n, sorted_prefix(keys, n)),
    decreases n,
{
    if n > 0 {
        lemma_sorted_prefix_is_stable(keys, n - 1);
        let s = sorted_prefix(keys, n - 1);
        let x = n - 1;
        let p = insert_position(keys, s, x);
        lemma_insert_position(keys, s, x);
        let r = sorted_prefix(keys, n);
        assert(r == s.take(p) + seq![x] + s.skip(p));
        assert(r.len() == n);
        assert forall|a: int| 0 <= a < n implies (if a < p {
            r[a] == s[a]
        } else if a == p {
            r[a] == x
        } else {
            r[a] == s[a - 1]
        }) by {}
        assert forall|a: int| 0 <= a < n implies 0 <= #[trigger] r[a] < n by {}
        assert forall|a: int, b: int| 0 <= a < b < n implies #[trigger] r[a] != #[trigger] r[b] by {
            let ia = if a < p { a } else { a - 1 };
            let ib = if b < p { b } else { b - 1 };
            if a != p && b != p {
                assert(s[ia] != s[ib]);
            }
        }
        assert forall|i: int| 0 <= i < n implies #[trigger] r.contains(i) by {
            if i == x {
                assert(r[p] == x);
            } else {
                assert(s.contains(i));
                let k = choose|k: int| 0 <= k < s.len() && s[k] == i;
                if k < p {
                    assert(r[k] == i);
                } else {
                    assert(r[k + 1] == i);
                }
            }
        }
        assert forall|a: int, b: int| 0 <= a < b < n implies key_le(
            keys[#[trigger] r[a]],
            keys[#[trigger] r[b]],
        ) by {
            if b == p {
                if a < p - 1 {
                    assert(key_le(keys[s[a]], keys[s[p - 1]]));
                    lemma_key_le_transitive(keys[s[a]], keys[s[p - 1]], keys[x]);
                }
            } else if a == p {
                assert(!key_le(keys[s[b - 1]], keys[x]));
                lemma_key_le_total(keys[s[b - 1]], keys[x]);
            } else {
                let ia = if a < p { a } else { a - 1 };
                let ib = if b < p { b } else { b - 1 };
                assert(key_le(keys[s[ia]], keys[s[ib]]));
            }
        }
        assert forall|a: int, b: int|
            0 <= a < b < n && key_le(
                keys[#[trigger] r[b]],
                keys[#[trigger] r[a]],
            ) implies r[a] < r[b] by {
            if b == p {
                assert(r[a] == s[a]);
            } else if a == p {
                assert(!key_le(keys[s[b - 1]], keys[x]));
            } else {
                let ia = if a < p { a } else { a - 1 };
                let ib = if b < p { b } else { b - 1 };
                assert(key_le(keys[s[ib]], keys[s[ia]]));
                assert(s[ia] < s[ib]);
            }
        }
    }
}

/// Sorting rearranges: each of the items stands in the sorted sequence.
pub proof fn lemma_arranged_holds_each<T>(items: Seq<T>, keys: Seq<Key>, i: int)
    requires
        items.len() == keys.len(),
        0 <= i < items.len(),
    ensures
        arranged(items, sorted_indices(keys)).contains(items[i]),
        arranged(items, sorted_indices(keys)).len() == items.len(),
{
    lemma_sorted_prefix_is_stable(keys, keys.len() as int);
    let order = sorted_indices(keys);
    assert(order.contains(i));
    let k = choose|k: int| 0 <= k < order.len() && order[k] == i;
    assert(arranged(items, order)[k] == items[i]);
}

} // verus!
