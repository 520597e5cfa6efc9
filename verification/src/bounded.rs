//! A vector whose length never exceeds a bound fixed at construction.

use vstd::prelude::*;

verus! {

/// A value that can be copied field by field, keeping its view.
pub trait Duplicate: View + Sized {
    /// A copy with the same view.
    fn duplicate(&self) -> (r: Self)
        ensures
            r@ == self@,
    ;
}

impl Duplicate for u8 {
    fn duplicate(&self) -> (r: Self) {
        *self
    }
}

/// The views of the items of `s`, in the same order.
pub open spec fn views<T: View>(s: Seq<T>) -> Seq<T::V> {
    Seq::new(s.len(), |i: int| s[i]@)
}

/// Copies a vector item by item.
pub fn duplicate_vec<T: Duplicate>(v: &Vec<T>) -> (r: Vec<T>)
    ensures
        views(r@) == views(v@),
{
    let mut out: Vec<T> = Vec::new();
    let mut i: usize = 0;
    while i < v.len()
        invariant
            i <= v@.len(),
            out@.len() == i,
            forall|j: int| 0 <= j < i ==> out@[j]@ == v@[j]@,
        decreases v@.len() - i,
    {
        out.push(v[i].duplicate());
        i = i + 1;
    }
    assert(views(out@) =~= views(v@));
    out
}

/// An ordered list of at most `bound` items.
#[derive(Clone, Debug, PartialEq, Eq)]
pub struct BoundedVec<T> {
    items: Vec<T>,
    bound: u32,
}

impl<T> BoundedVec<T> {
    /// The items, in insertion order.
    pub closed spec fn items(&self) -> Seq<T> {
        self.items@
    }

    /// The largest length the list may reach.
    pub closed spec fn spec_bound(&self) -> u32 {
        self.bound
    }

    /// The length never exceeds the bound.
    pub open spec fn wf(&self) -> bool {
        self.items().len() <= self.spec_bound()
    }

    /// An empty list with the given bound.
    pub fn new(bound: u32) -> (r: Self)
        ensures
            r.wf(),
            r.items() == Seq::<T>::empty(),
            r.spec_bound() == bound,
    {
        BoundedVec { items: Vec::new(), bound }
    }

    /// Wraps `v` when it holds at most `bound` items, and hands it back
    /// untouched otherwise.
    pub fn try_from_vec(v: Vec<T>, bound: u32) -> (r: Result<Self, Vec<T>>)
        ensures
            v@.len() <= bound ==> r is Ok && r->Ok_0.wf() && r->Ok_0.items() == v@
                && r->Ok_0.spec_bound() == bound,
            v@.len() > bound ==> r == Err::<Self, Vec<T>>(v),
    {
        if v.len() <= bound as usize {
            Ok(BoundedVec { items: v, bound })
        } else {
            Err(v)
        }
    }

    /// Appends `item` when there is room, and hands it back otherwise,
    /// leaving the list as it was.
    pub fn try_push(&mut self, item: T) -> (r: Result<(), T>)
        requires
            old(self).wf(),
        ensures
            final(self).wf(),
            final(self).spec_bound() == old(self).spec_bound(),
            old(self).items().len() < old(self).spec_bound() ==> r is Ok && final(self).items()
                == old(self).items().push(item),
            old(self).items().len() >= old(self).spec_bound() ==> r == Err::<(), T>(item)
                && *final(self) == *old(self),
    {
        if self.items.len() < self.bound as usize {
            self.items.push(item);
            Ok(())
        } else {
            Err(item)
        }
    }

    /// The number of items held.
    pub fn len(&self) -> (r: usize)
        ensures
            r == self.items().len(),
    {
        self.items.len()
    }

    /// Whether the list holds no item.
    pub fn is_empty(&self) -> (r: bool)
        ensures
            r == (self.items().len() == 0),
    {
        self.items.len() == 0
    }

    /// The largest length the list may reach.
    pub fn bound(&self) -> (r: u32)
        ensures
            r == self.spec_bound(),
    {
        self.bound
    }

    /// Whether the next append would be refused.
    pub fn is_full(&self) -> (r: bool)
        requires
            self.wf(),
        ensures
            r == (self.items().len() == self.spec_bound()),
    {
        self.items.len() >= self.bound as usize
    }

    /// The item at position `i`, if there is one.
    pub fn get(&self, i: usize) -> (r: Option<&T>)
        ensures
            i < self.items().len() ==> r == Some(&self.items()[i as int]),
            i >= self.items().len() ==> r is None,
    {
        if i < self.items.len() {
            Some(&self.items[i])
        } else {
            None
        }
    }

    /// The items as a plain vector.
    pub fn as_vec(&self) -> (r: &Vec<T>)
        ensures
            r@ == self.items(),
    {
        &self.items
    }

    /// Gives up the bound and returns the items.
    pub fn into_inner(self) -> (r: Vec<T>)
        ensures
            r@ == self.items(),
    {
        self.items
    }
}

impl<T: View> View for BoundedVec<T> {
    type V = Seq<T::V>;

    open spec fn view(&self) -> Seq<T::V> {
        views(self.items())
    }
}

impl<T: Duplicate> Duplicate for BoundedVec<T> {
    fn duplicate(&self) -> (r: Self)
        ensures
            r.wf() == self.wf(),
            r.spec_bound() == self.spec_bound(),
    {
        let items = duplicate_vec(&self.items);
        proof {
            assert(views(items@).len() == items@.len());
            assert(views(self.items@).len() == self.items@.len());
        }
        BoundedVec { items, bound: self.bound }
    }
}

} // verus!
