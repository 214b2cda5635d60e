//! Lists in an order: stable sorting, and lists that hold one item for each key.
use crate::text::{lemma_text_lt_total, lemma_text_lt_trans, less, same, text_lt};
use vstd::prelude::*;

verus! {

/// A type whose values have a model and are put in an order by it.
pub trait Ranked: Sized {
    /// The model of a value.
    type Model;

    /// What the value is.
    spec fn model(&self) -> Self::Model;

    /// The first comes before the second.
    spec fn precedes(a: Self::Model, b: Self::Model) -> bool;

    /// The value comes before the other.
    fn is_before(&self, other: &Self) -> (r: bool)
        ensures
            r == Self::precedes(self.model(), other.model()),
    ;
}

/// A type whose values have a model and are told apart by a text in it.
pub trait Keyed: Sized {
    /// The model of a value.
    type Model;

    /// What the value is.
    spec fn entry(&self) -> Self::Model;

    /// The text that tells the values apart.
    spec fn key_of(m: Self::Model) -> Seq<char>;

    /// The value's key.
    fn key(&self) -> (r: &str)
        ensures
            r@ == Self::key_of(self.entry()),
    ;
}

/// The models of a list.
pub open spec fn models<T: Ranked>(items: Seq<T>) -> Seq<T::Model> {
    items.map_values(|x: T| x.model())
}

/// The models of a keyed list.
pub open spec fn entries<T: Keyed>(items: Seq<T>) -> Seq<T::Model> {
    items.map_values(|x: T| x.entry())
}

/// `s` with `x` behind the last item that it does not precede.
pub open spec fn insert_ranked<M>(s: Seq<M>, x: M, precedes: spec_fn(M, M) -> bool) -> Seq<M>
    decreases s.len(),
{
    if s.len() == 0 || !precedes(x, s.last()) {
        s.push(x)
    } else {
        insert_ranked(s.drop_last(), x, precedes).push(s.last())
    }
}

/// `s` sorted; items of which neither precedes the other keep their places.
pub open spec fn sorted_by<M>(s: Seq<M>, precedes: spec_fn(M, M) -> bool) -> Seq<M>
    decreases s.len(),
{
    if s.len() == 0 {
        Seq::empty()
    } else {
        insert_ranked(sorted_by(s.drop_last(), precedes), s.last(), precedes)
    }
}

/// No item of `s` precedes one before it.
pub open spec fn is_sorted<M>(s: Seq<M>, precedes: spec_fn(M, M) -> bool) -> bool {
    forall|i: int, j: int| 0 <= i < j < s.len() ==> !precedes(#[trigger] s[j], #[trigger] s[i])
}

/// An order by which a list can be sorted: items that neither precedes the other are alike.
pub open spec fn is_order<M>(precedes: spec_fn(M, M) -> bool) -> bool {
    &&& forall|a: M, b: M| #[trigger] precedes(a, b) ==> !precedes(b, a)
    &&& forall|a: M, b: M, c: M|
        !#[trigger] precedes(b, a) && !#[trigger] precedes(c, b) ==> !precedes(c, a)
}

/// Inserting adds the item and takes none away.
proof fn lemma_insert_multiset<M>(s: Seq<M>, x: M, precedes: spec_fn(M, M) -> bool)
    ensures
        insert_ranked(s, x, precedes).to_multiset() == s.to_multiset().insert(x),
        insert_ranked(s, x, precedes).len() == s.len() + 1,
    decreases s.len(),
{
    broadcast use vstd::seq_lib::group_to_multiset_ensures;

    if s.len() > 0 && precedes(x, s.last()) {
        lemma_insert_multiset(s.drop_last(), x, precedes);
        assert(s.drop_last().push(s.last()) =~= s);
        assert(s.to_multiset() =~= s.drop_last().to_multiset().insert(s.last()));
        assert(insert_ranked(s, x, precedes).to_multiset() =~= s.to_multiset().insert(x));
    }
}

/// Sorting adds no item and takes none away.
pub proof fn law_sorting_keeps_items<M>(s: Seq<M>, precedes: spec_fn(M, M) -> bool)
    ensures
        sorted_by(s, precedes).to_multiset() == s.to_multiset(),
        sorted_by(s, precedes).len() == s.len(),
    decreases s.len(),
{
    broadcast use vstd::seq_lib::group_to_multiset_ensures;

    if s.len() > 0 {
        law_sorting_keeps_items(s.drop_last(), precedes);
        lemma_insert_multiset(sorted_by(s.drop_last(), precedes), s.last(), precedes);
        assert(s.drop_last().push(s.last()) =~= s);
    }
}

proof fn lemma_insert_items<M>(s: Seq<M>, x: M, precedes: spec_fn(M, M) -> bool)
    ensures
        forall|i: int|
            0 <= i < insert_ranked(s, x, precedes).len() ==> #[trigger] insert_ranked(
                s,
                x,
                precedes,
            )[i] == x || s.contains(insert_ranked(s, x, precedes)[i]),
    decreases s.len(),
{
    let r = insert_ranked(s, x, precedes);
    if s.len() == 0 || !precedes(x, s.last()) {
        assert forall|i: int| 0 <= i < r.len() implies #[trigger] r[i] == x || s.contains(r[i]) by {
            if i < s.len() {
                assert(s[i] == r[i]);
            }
        }
    } else {
        let front = s.drop_last();
        let t = insert_ranked(front, x, precedes);
        lemma_insert_items(front, x, precedes);
        assert forall|i: int| 0 <= i < r.len() implies #[trigger] r[i] == x || s.contains(r[i]) by {
            if i < t.len() {
                assert(r[i] == t[i]);
                if t[i] != x {
                    let k = choose|k: int| 0 <= k < front.len() && front[k] == t[i];
                    assert(s[k] == r[i]);
                }
            } else {
                assert(s[s.len() - 1] == r[i]);
            }
        }
    }
}

proof fn lemma_insert_sorted<M>(s: Seq<M>, x: M, precedes: spec_fn(M, M) -> bool)
    requires
        is_order(precedes),
        is_sorted(s, precedes),
    ensures
        is_sorted(insert_ranked(s, x, precedes), precedes),
    decreases s.len(),
{
    let r = insert_ranked(s, x, precedes);
    if s.len() == 0 || !precedes(x, s.last()) {
        assert forall|i: int, j: int| 0 <= i < j < r.len() implies !precedes(
            #[trigger] r[j],
            #[trigger] r[i],
        ) by {
            if j == s.len() && i < s.len() - 1 {
                assert(!precedes(s[s.len() - 1], s[i]));
            }
        }
    } else {
        let front = s.drop_last();
        let t = insert_ranked(front, x, precedes);
        let y = s.last();
        lemma_insert_sorted(front, x, precedes);
        lemma_insert_items(front, x, precedes);
        assert(!precedes(y, x));
        assert forall|i: int, j: int| 0 <= i < j < r.len() implies !precedes(
            #[trigger] r[j],
            #[trigger] r[i],
        ) by {
            assert(r[i] == t[i]);
            if j < t.len() {
                assert(r[j] == t[j]);
            } else if t[i] != x {
                let k = choose|k: int| 0 <= k < front.len() && front[k] == t[i];
                assert(s[k] == t[i]);
                assert(!precedes(s[s.len() - 1], s[k]));
            }
        }
    }
}

/// What sorting gives is in order.
pub proof fn law_sorted_in_order<M>(s: Seq<M>, precedes: spec_fn(M, M) -> bool)
    requires
        is_order(precedes),
    ensures
        is_sorted(sorted_by(s, precedes), precedes),
    decreases s.len(),
{
    if s.len() > 0 {
        law_sorted_in_order(s.drop_last(), precedes);
        lemma_insert_sorted(sorted_by(s.drop_last(), precedes), s.last(), precedes);
    }
}

/// Puts `x` behind the last item that it does not precede.
fn insert_in_order<T: Ranked>(v: &mut Vec<T>, x: T)
    ensures
        models(final(v)@) == insert_ranked(
            models(old(v)@),
            x.model(),
            |a: T::Model, b: T::Model| T::precedes(a, b),
        ),
{
    let ghost precedes = |a: T::Model, b: T::Model| T::precedes(a, b);
    let ghost all = models(v@);
    let ghost xm = x.model();
    let mut i: usize = v.len();
    assert(all.take(i as int) =~= all);
    assert(insert_ranked(all, xm, precedes) =~= insert_ranked(all.take(i as int), xm, precedes)
        + all.skip(i as int));
    while i > 0 && x.is_before(&v[i - 1])
        invariant
            i <= v@.len(),
            all == models(v@),
            xm == x.model(),
            precedes == (|a: T::Model, b: T::Model| T::precedes(a, b)),
            insert_ranked(all, xm, precedes) == insert_ranked(all.take(i as int), xm, precedes)
                + all.skip(i as int),
        decreases i,
    {
        proof {
            let s = all.take(i as int);
            assert(s.last() == all[i - 1]);
            assert(s.drop_last() =~= all.take(i - 1));
            assert(insert_ranked(s, xm, precedes) + all.skip(i as int) =~= insert_ranked(
                all.take(i - 1),
                xm,
                precedes,
            ) + all.skip(i - 1));
        }
        i = i - 1;
    }
    proof {
        let s = all.take(i as int);
        assert(insert_ranked(s, xm, precedes) == s.push(xm)) by {
            if i > 0 {
                assert(s.last() == all[i - 1]);
            }
        }
    }
    v.insert(i, x);
    assert(models(v@) =~= all.take(i as int).push(xm) + all.skip(i as int));
}

/// The list sorted; items of which neither precedes the other keep their places.
pub fn stable_sort<T: Ranked>(v: Vec<T>) -> (r: Vec<T>)
    ensures
        models(r@) == sorted_by(models(v@), |a: T::Model, b: T::Model| T::precedes(a, b)),
{
    let ghost precedes = |a: T::Model, b: T::Model| T::precedes(a, b);
    let ghost all = models(v@);
    let mut v = v;
    let mut r: Vec<T> = Vec::new();
    let ghost mut done: int = 0;
    assert(all.skip(0) =~= all);
    assert(models(r@) =~= sorted_by(all.take(0), precedes));
    while v.len() > 0
        invariant
            0 <= done <= all.len(),
            precedes == (|a: T::Model, b: T::Model| T::precedes(a, b)),
            models(v@) == all.skip(done),
            models(r@) == sorted_by(all.take(done), precedes),
        decreases v@.len(),
    {
        let ghost rest = models(v@);
        assert(rest.len() == v@.len());
        let x = v.remove(0);
        proof {
            assert(rest[0] == x.model());
            assert(all[done] == rest[0]);
            assert(models(v@) =~= rest.skip(1));
            assert(rest.skip(1) =~= all.skip(done + 1));
            assert(all.take(done + 1).drop_last() =~= all.take(done));
            assert(all.take(done + 1).last() == x.model());
        }
        insert_in_order(&mut r, x);
        proof {
            done = done + 1;
        }
    }
    assert(all.skip(done).len() == 0);
    assert(all.take(done) =~= all);
    r
}

/// `s`, a list in the order of its keys, with `x` in its place there; an item with the same key
/// gives way.
pub open spec fn insert_keyed<M>(s: Seq<M>, x: M, key: spec_fn(M) -> Seq<char>) -> Seq<M>
    decreases s.len(),
{
    if s.len() == 0 {
        seq![x]
    } else if key(s[0]) == key(x) {
        seq![x] + s.skip(1)
    } else if text_lt(key(x), key(s[0])) {
        seq![x] + s
    } else {
        seq![s[0]] + insert_keyed(s.skip(1), x, key)
    }
}

/// The list is in the order of its keys, and holds each of them once.
pub open spec fn is_keyed<M>(s: Seq<M>, key: spec_fn(M) -> Seq<char>) -> bool {
    forall|i: int, j: int| 0 <= i < j < s.len() ==> text_lt(key(#[trigger] s[i]), key(#[trigger] s[j]))
}

/// Inserting keeps the order of the keys, and each of them once.
pub proof fn law_insert_keyed<M>(s: Seq<M>, x: M, key: spec_fn(M) -> Seq<char>)
    requires
        is_keyed(s, key),
    ensures
        is_keyed(insert_keyed(s, x, key), key),
        insert_keyed(s, x, key).contains(x),
        forall|y: M|
            #[trigger] insert_keyed(s, x, key).contains(y) ==> y == x || s.contains(y),
        forall|y: M|
            #[trigger] s.contains(y) && key(y) != key(x) ==> insert_keyed(s, x, key).contains(y),
    decreases s.len(),
{
    let r = insert_keyed(s, x, key);
    if s.len() == 0 {
        assert(r[0] == x);
    } else if key(s[0]) == key(x) {
        assert(r[0] == x);
        assert forall|i: int, j: int| 0 <= i < j < r.len() implies text_lt(
            key(#[trigger] r[i]),
            key(#[trigger] r[j]),
        ) by {
            assert(r[j] == s[j]);
            if i > 0 {
                assert(r[i] == s[i]);
            } else {
                assert(text_lt(key(s[0]), key(s[j])));
            }
        }
        assert forall|y: M| #[trigger] r.contains(y) implies y == x || s.contains(y) by {
            let i = choose|i: int| 0 <= i < r.len() && r[i] == y;
            if i > 0 {
                assert(s[i] == y);
            }
        }
        assert forall|y: M| #[trigger] s.contains(y) && key(y) != key(x) implies r.contains(y) by {
            let i = choose|i: int| 0 <= i < s.len() && s[i] == y;
            assert(r[i] == y);
        }
    } else if text_lt(key(x), key(s[0])) {
        assert(r[0] == x);
        assert forall|i: int, j: int| 0 <= i < j < r.len() implies text_lt(
            key(#[trigger] r[i]),
            key(#[trigger] r[j]),
        ) by {
            assert(r[j] == s[j - 1]);
            if i > 0 {
                assert(r[i] == s[i - 1]);
            } else if j > 1 {
                lemma_text_lt_trans(key(x), key(s[0]), key(s[j - 1]));
            }
        }
        assert forall|y: M| #[trigger] r.contains(y) implies y == x || s.contains(y) by {
            let i = choose|i: int| 0 <= i < r.len() && r[i] == y;
            if i > 0 {
                assert(s[i - 1] == y);
            }
        }
        assert forall|y: M| #[trigger] s.contains(y) && key(y) != key(x) implies r.contains(y) by {
            let i = choose|i: int| 0 <= i < s.len() && s[i] == y;
            assert(r[i + 1] == y);
        }
    } else {
        let t = s.skip(1);
        assert forall|i: int, j: int| 0 <= i < j < t.len() implies text_lt(
            key(#[trigger] t[i]),
            key(#[trigger] t[j]),
        ) by {
            assert(t[i] == s[i + 1] && t[j] == s[j + 1]);
        }
        law_insert_keyed(t, x, key);
        let rt = insert_keyed(t, x, key);
        lemma_text_lt_total(key(x), key(s[0]));
        assert forall|i: int, j: int| 0 <= i < j < r.len() implies text_lt(
            key(#[trigger] r[i]),
            key(#[trigger] r[j]),
        ) by {
            assert(r[j] == rt[j - 1]);
            if i > 0 {
                assert(r[i] == rt[i - 1]);
            } else {
                assert(rt.contains(rt[j - 1]));
                if rt[j - 1] != x {
                    let k = choose|k: int| 0 <= k < t.len() && t[k] == rt[j - 1];
                    assert(s[k + 1] == rt[j - 1]);
                    assert(text_lt(key(s[0]), key(s[k + 1])));
                }
            }
        }
        let k = choose|k: int| 0 <= k < rt.len() && rt[k] == x;
        assert(r[k + 1] == x);
        assert forall|y: M| #[trigger] r.contains(y) implies y == x || s.contains(y) by {
            let i = choose|i: int| 0 <= i < r.len() && r[i] == y;
            if i > 0 {
                assert(rt[i - 1] == y);
                assert(rt.contains(y));
                if y != x {
                    let m = choose|m: int| 0 <= m < t.len() && t[m] == y;
                    assert(s[m + 1] == y);
                }
            } else {
                assert(s[0] == y);
            }
        }
        assert forall|y: M| #[trigger] s.contains(y) && key(y) != key(x) implies r.contains(y) by {
            let i = choose|i: int| 0 <= i < s.len() && s[i] == y;
            if i > 0 {
                assert(t[i - 1] == y);
                assert(t.contains(y));
                assert(rt.contains(y));
                let m = choose|m: int| 0 <= m < rt.len() && rt[m] == y;
                assert(r[m + 1] == y);
            } else {
                assert(r[0] == y);
            }
        }
    }
}

/// Puts `x` into a list in the order of its keys; an item with the same key gives way.
pub fn insert_by_key<T: Keyed>(v: &mut Vec<T>, x: T)
    ensures
        entries(final(v)@) == insert_keyed(
            entries(old(v)@),
            x.entry(),
            |m: T::Model| T::key_of(m),
        ),
{
    let ghost key = |m: T::Model| T::key_of(m);
    let ghost all = entries(v@);
    let ghost xm = x.entry();
    let mut i: usize = 0;
    assert(all.skip(0) =~= all);
    assert(insert_keyed(all, xm, key) =~= all.take(0) + insert_keyed(all.skip(0), xm, key));
    while i < v.len()
        invariant
            i <= v@.len(),
            all == entries(v@),
            all == entries(old(v)@),
            xm == x.entry(),
            key == (|m: T::Model| T::key_of(m)),
            insert_keyed(all, xm, key) == all.take(i as int) + insert_keyed(
                all.skip(i as int),
                xm,
                key,
            ),
        decreases v@.len() - i,
    {
        let ghost rest = all.skip(i as int);
        assert(rest[0] == v@[i as int].entry());
        if same(v[i].key(), x.key()) {
            proof {
                assert(insert_keyed(rest, xm, key) == seq![xm] + rest.skip(1));
            }
            v.set(i, x);
            assert(entries(v@) =~= all.take(i as int) + (seq![xm] + rest.skip(1)));
            return;
        }
        if less(x.key(), v[i].key()) {
            v.insert(i, x);
            assert(entries(v@) =~= all.take(i as int) + (seq![xm] + rest));
            return;
        }
        proof {
            assert(rest.skip(1) =~= all.skip(i as int + 1));
            assert(all.take(i as int) + insert_keyed(rest, xm, key) =~= all.take(i as int + 1)
                + insert_keyed(all.skip(i as int + 1), xm, key));
        }
        i = i + 1;
    }
    v.push(x);
    proof {
        assert(all.skip(i as int).len() == 0);
        assert(entries(v@) =~= all.take(i as int) + seq![xm]);
    }
}

/// The items that are wanted, in their order.
pub open spec fn kept<T>(all: Seq<T>, wanted: spec_fn(T) -> bool) -> Seq<T>
    decreases all.len(),
{
    if all.len() == 0 {
        Seq::empty()
    } else {
        let before = kept(all.drop_last(), wanted);
        if wanted(all.last()) {
            before.push(all.last())
        } else {
            before
        }
    }
}

/// What is kept is exactly what is wanted.
pub proof fn lemma_kept<T>(all: Seq<T>, wanted: spec_fn(T) -> bool, x: T)
    ensures
        kept(all, wanted).contains(x) <==> all.contains(x) && wanted(x),
    decreases all.len(),
{
    if all.len() > 0 {
        let front = all.drop_last();
        let last = all.last();
        lemma_kept(front, wanted, x);
        let before = kept(front, wanted);
        let r = kept(all, wanted);
        if before.contains(x) {
            let i = choose|i: int| 0 <= i < before.len() && before[i] == x;
            assert(r[i] == x);
        }
        if front.contains(x) {
            let i = choose|i: int| 0 <= i < front.len() && front[i] == x;
            assert(all[i] == x);
        }
        if all.contains(x) && !front.contains(x) {
            let i = choose|i: int| 0 <= i < all.len() && all[i] == x;
            if i < front.len() {
                assert(front[i] == x);
            }
            assert(last == x);
        }
        assert(all.contains(last));
        if wanted(last) {
            assert(r.last() == last);
            assert(r.contains(last));
            if r.contains(x) && !before.contains(x) {
                let i = choose|i: int| 0 <= i < r.len() && r[i] == x;
                if i < before.len() {
                    assert(before[i] == x);
                }
            }
        }
    }
}

} // verus!
