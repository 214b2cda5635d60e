//! Values with a model, and lists of them.
use vstd::prelude::*;

verus! {

/// A type whose values have a model, can be copied and can be compared by it.
pub trait Modeled: Sized {
    /// The model of a value.
    type Model;

    /// What the value is.
    spec fn content(&self) -> Self::Model;

    /// A copy of the value.
    fn copy(&self) -> (r: Self)
        ensures
            r.content() == self.content(),
    ;

    /// The two values are alike.
    fn same_content(&self, other: &Self) -> (r: bool)
        ensures
            r == (self.content() == other.content()),
    ;
}

/// The models of a list.
pub open spec fn contents<T: Modeled>(items: Seq<T>) -> Seq<T::Model> {
    items.map_values(|x: T| x.content())
}

/// A copy of a list.
pub fn copy_all<T: Modeled>(items: &Vec<T>) -> (r: Vec<T>)
    ensures
        contents(r@) == contents(items@),
        r@.len() == items@.len(),
{
    let ghost all = contents(items@);
    let mut r: Vec<T> = Vec::new();
    let mut i: usize = 0;
    while i < items.len()
        invariant
            i <= items@.len(),
            all == contents(items@),
            r@.len() == i,
            contents(r@) == all.take(i as int),
        decreases items@.len() - i,
    {
        let ghost done = contents(r@);
        r.push(items[i].copy());
        proof {
            assert(contents(r@) =~= done.push(all[i as int]));
            assert(all.take(i as int + 1) =~= done.push(all[i as int]));
        }
        i = i + 1;
    }
    assert(all.take(i as int) =~= all);
    r
}

/// The two lists are alike.
pub fn same_all<T: Modeled>(a: &Vec<T>, b: &Vec<T>) -> (r: bool)
    ensures
        r == (contents(a@) == contents(b@)),
{
    let ghost x = contents(a@);
    let ghost y = contents(b@);
    assert(x.len() == a@.len());
    assert(y.len() == b@.len());
    if a.len() != b.len() {
        return false;
    }
    let mut i: usize = 0;
    while i < a.len()
        invariant
            i <= a@.len(),
            a@.len() == b@.len(),
            x == contents(a@),
            y == contents(b@),
            forall|j: int| 0 <= j < i ==> x[j] == y[j],
        decreases a@.len() - i,
    {
        assert(x[i as int] == a@[i as int].content());
        assert(y[i as int] == b@[i as int].content());
        if !a[i].same_content(&b[i]) {
            return false;
        }
        i = i + 1;
    }
    assert(x =~= y);
    true
}

/// The model of an optional value.
pub open spec fn opt_content<T: Modeled>(value: Option<T>) -> Option<T::Model> {
    match value {
        Some(value) => Some(value.content()),
        None => None,
    }
}

/// The model of an optional borrowed value.
pub open spec fn opt_ref_content<T: Modeled>(value: Option<&T>) -> Option<T::Model> {
    match value {
        Some(value) => Some(value.content()),
        None => None,
    }
}

} // verus!
