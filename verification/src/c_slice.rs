//! Views: non-owning windows into foreign memory.

use crate::model::left_after;
use crate::model::read_at;
use crate::model::yielded;
use vstd::prelude::*;
use vstd::std_specs::convert::FromSpecImpl;

verus! {

/// The address of a block of foreign memory. It is never null.
#[derive(Clone, Copy)]
pub(crate) struct Addr {
    raw: usize,
}

impl Addr {
    #[verifier::type_invariant]
    spec fn non_null(&self) -> bool {
        self.raw != 0
    }

    pub(crate) closed spec fn spec_get(&self) -> usize {
        self.raw
    }

    pub(crate) fn new(raw: usize) -> (a: Addr)
        requires
            raw != 0,
        ensures
            a.get() == raw,
    {
        Addr { raw }
    }

    #[verifier::when_used_as_spec(spec_get)]
    pub(crate) fn get(&self) -> (raw: usize)
        ensures
            raw == self.get(),
            raw != 0,
    {
        proof {
            use_type_invariant(self);
        }
        self.raw
    }
}

/// A read-only view of a block of foreign memory.
///
/// Its model is the sequence of the elements it shows (`@`) together with the
/// address of the first of them ([`CSlice::base`]).
pub struct CSlice<'a, T> {
    base: Addr,
    data: &'a [T],
}

impl<'a, T> View for CSlice<'a, T> {
    type V = Seq<T>;

    closed spec fn view(&self) -> Seq<T> {
        self.data@
    }
}

impl<'a, T> CSlice<'a, T> {
    /// The address of the first element.
    pub closed spec fn spec_base(&self) -> usize {
        self.base.get()
    }

    /// A view of the elements `mem`, which live at `base`.
    pub(crate) fn at(base: Addr, mem: &'a [T]) -> (s: CSlice<'a, T>)
        ensures
            s@ == mem@,
            s.base() == base.get(),
    {
        CSlice { base, data: mem }
    }

    /// A view of the elements `mem`, which live at the address `base`.
    ///
    /// The address of foreign memory is never null.
    pub fn new(base: usize, mem: &'a [T]) -> (s: CSlice<'a, T>)
        requires
            base != 0,
        ensures
            s@ == mem@,
            s.base() == base,
    {
        CSlice::at(Addr::new(base), mem)
    }

    /// The address of the first element; never null.
    #[verifier::when_used_as_spec(spec_base)]
    pub fn base(&self) -> (a: usize)
        ensures
            a == self.base(),
            a != 0,
    {
        self.base.get()
    }

    /// The element at `ofs`, or `None` when `ofs` is past the end.
    pub fn get(&'a self, ofs: usize) -> (r: Option<&'a T>)
        ensures
            match r {
                Some(x) => read_at(self@, ofs) == Some(*x),
                None => read_at(self@, ofs) is None,
            },
    {
        if ofs < self.data.len() {
            Some(&self.data[ofs])
        } else {
            None
        }
    }

    /// The element at `ofs`, for a caller who knows that `ofs` is in bounds.
    pub fn get_unchecked(&'a self, ofs: usize) -> (r: &'a T)
        requires
            ofs < self@.len(),
        ensures
            *r == self@[ofs as int],
    {
        &self.data[ofs]
    }

    /// The number of elements.
    pub fn len(&self) -> (n: usize)
        ensures
            n == self@.len(),
    {
        self.data.len()
    }

    /// Whether the view shows no element at all.
    pub fn is_empty(&self) -> (b: bool)
        ensures
            b == (self@.len() == 0),
    {
        self.len() == 0
    }

    /// A fresh iterator: all the elements are still to come.
    pub fn iter<'b>(&'b self) -> (it: CSliceIter<'a, 'b, T>)
        ensures
            it@ == self@,
    {
        let it = CSliceIter { inner: self, pos: 0 };
        assert(it@ =~= self@);
        it
    }
}

/// Iterator over a [`CSlice`], made by [`CSlice::iter`].
///
/// Its model (`@`) is the sequence of the elements still to come.
pub struct CSliceIter<'a, 'b, T> {
    inner: &'b CSlice<'a, T>,
    pos: usize,
}

impl<'a, 'b, T> View for CSliceIter<'a, 'b, T> {
    type V = Seq<T>;

    closed spec fn view(&self) -> Seq<T> {
        self.inner@.skip(self.pos as int)
    }
}

impl<'a, 'b, T> CSliceIter<'a, 'b, T> {
    #[verifier::type_invariant]
    spec fn in_bounds(&self) -> bool {
        self.pos <= self.inner@.len()
    }

    /// The next element in index order, or `None` once all were handed out.
    pub fn next(&mut self) -> (r: Option<&'b T>)
        ensures
            final(self)@ == left_after(old(self)@),
            match r {
                Some(x) => yielded(old(self)@) == Some(*x),
                None => yielded(old(self)@) is None,
            },
    {
        proof {
            use_type_invariant(&*self);
        }
        if self.pos >= self.inner.len() {
            None
        } else {
            self.pos += 1;
            assert(self@ =~= old(self)@.skip(1));
            Some(self.inner.get_unchecked(self.pos - 1))
        }
    }
}

/// A mutable view of a block of foreign memory.
///
/// Its model is the sequence of the elements it shows (`@`), the address of
/// the first of them ([`CSliceMut::base`]) and the memory it has borrowed
/// ([`CSliceMut::mem`]): what the view leaves in its elements is what the
/// lender finds when the borrow ends.
pub struct CSliceMut<'a, T> {
    base: Addr,
    data: &'a mut [T],
}

impl<'a, T> View for CSliceMut<'a, T> {
    type V = Seq<T>;

    closed spec fn view(&self) -> Seq<T> {
        self.data@
    }
}

impl<'a, T> CSliceMut<'a, T> {
    /// The address of the first element.
    pub closed spec fn spec_base(&self) -> usize {
        self.base.get()
    }

    /// The borrowed memory. Its current value holds the elements of the
    /// view; its final value is what the lender gets back.
    pub closed spec fn mem(&self) -> &'a mut [T] {
        self.data
    }

    /// The elements of a view are the current value of its memory.
    pub broadcast proof fn lemma_mem_view(self)
        ensures
            #[trigger] self.mem()@ == self@,
    {
    }

    /// Once a view is no longer used, the lender gets back the elements that
    /// the view shows.
    pub broadcast proof fn lemma_mem_resolved(self)
        requires
            has_resolved(self),
        ensures
            #[trigger] final(self.mem())@ == self@,
    {
    }

    /// A mutable view of the elements `mem`, which live at `base`.
    pub(crate) fn at(base: Addr, mem: &'a mut [T]) -> (s: CSliceMut<'a, T>)
        ensures
            s@ == old(mem)@,
            s.base() == base.get(),
            final(mem)@ == final(s.mem())@,
    {
        CSliceMut { base, data: mem }
    }

    /// A mutable view of the elements `mem`, which live at the address
    /// `base`. When the view ends, `mem` holds what the view left in it.
    ///
    /// The address of foreign memory is never null.
    pub fn new(base: usize, mem: &'a mut [T]) -> (s: CSliceMut<'a, T>)
        requires
            base != 0,
        ensures
            s@ == old(mem)@,
            s.base() == base,
            final(mem)@ == final(s.mem())@,
    {
        CSliceMut::at(Addr::new(base), mem)
    }

    /// The address of the first element; never null.
    #[verifier::when_used_as_spec(spec_base)]
    pub fn base(&self) -> (a: usize)
        ensures
            a == self.base(),
            a != 0,
    {
        self.base.get()
    }

    /// The element at `ofs`, or `None` when `ofs` is past the end.
    pub fn get(&self, ofs: usize) -> (r: Option<&T>)
        ensures
            match r {
                Some(x) => read_at(self@, ofs) == Some(*x),
                None => read_at(self@, ofs) is None,
            },
    {
        if ofs < self.data.len() {
            Some(&self.data[ofs])
        } else {
            None
        }
    }

    /// The element at `ofs`, for a caller who knows that `ofs` is in bounds.
    pub fn get_unchecked(&self, ofs: usize) -> (r: &T)
        requires
            ofs < self@.len(),
        ensures
            *r == self@[ofs as int],
    {
        &self.data[ofs]
    }

    /// The element at `ofs`, open to writing, or `None` when `ofs` is past
    /// the end. The view ends up with whatever the caller leaves in the
    /// element, and is otherwise unchanged.
    pub fn get_mut(&mut self, ofs: usize) -> (r: Option<&mut T>)
        ensures
            final(self).base() == old(self).base(),
            final(final(self).mem())@ == final(old(self).mem())@,
            match r {
                Some(x) => read_at(old(self)@, ofs) == Some(*x) && final(self)@ == old(
                    self,
                )@.update(ofs as int, *final(x)),
                None => read_at(old(self)@, ofs) is None && final(self)@ == old(self)@,
            },
    {
        if ofs < self.data.len() {
            Some(&mut self.data[ofs])
        } else {
            None
        }
    }

    /// The element at `ofs`, open to writing, for a caller who knows that
    /// `ofs` is in bounds.
    pub fn get_unchecked_mut(&mut self, ofs: usize) -> (r: &mut T)
        requires
            ofs < old(self)@.len(),
        ensures
            final(self).base() == old(self).base(),
            final(final(self).mem())@ == final(old(self).mem())@,
            *r == old(self)@[ofs as int],
            final(self)@ == old(self)@.update(ofs as int, *final(r)),
    {
        &mut self.data[ofs]
    }

    /// The number of elements.
    pub fn len(&self) -> (n: usize)
        ensures
            n == self@.len(),
    {
        self.data.len()
    }

    /// Whether the view shows no element at all.
    pub fn is_empty(&self) -> (b: bool)
        ensures
            b == (self@.len() == 0),
    {
        self.len() == 0
    }

    /// A fresh read-only iterator: all the elements are still to come.
    pub fn iter<'b>(&'b self) -> (it: CSliceMutIter<'a, 'b, T>)
        ensures
            it@ == self@,
    {
        let it = CSliceMutIter { inner: self, pos: 0 };
        assert(it@ =~= self@);
        it
    }

    /// A fresh iterator that hands the elements out for writing: all of them
    /// are still to come. The view ends up with whatever the iterator and
    /// the references it handed out leave behind.
    pub fn iter_mut<'b>(&'b mut self) -> (it: CSliceMutIterMut<'b, T>)
        ensures
            it@ == old(self)@,
            final(self)@ == final(it.mem())@,
            final(self).base() == old(self).base(),
            final(final(self).mem())@ == final(old(self).mem())@,
    {
        CSliceMutIterMut { rest: &mut *self.data }
    }

    /// The element at `index`, which has to be in bounds, open to writing.
    pub fn index_mut(&mut self, index: usize) -> (r: &mut T)
        requires
            index < old(self)@.len(),
        ensures
            final(self).base() == old(self).base(),
            final(final(self).mem())@ == final(old(self).mem())@,
            *r == old(self)@[index as int],
            final(self)@ == old(self)@.update(index as int, *final(r)),
    {
        &mut self.data[index]
    }
}

/// Read-only iterator over a [`CSliceMut`], made by [`CSliceMut::iter`].
///
/// Its model (`@`) is the sequence of the elements still to come.
pub struct CSliceMutIter<'a, 'b, T> {
    inner: &'b CSliceMut<'a, T>,
    pos: usize,
}

impl<'a, 'b, T> View for CSliceMutIter<'a, 'b, T> {
    type V = Seq<T>;

    closed spec fn view(&self) -> Seq<T> {
        self.inner@.skip(self.pos as int)
    }
}

impl<'a, 'b, T> CSliceMutIter<'a, 'b, T> {
    #[verifier::type_invariant]
    spec fn in_bounds(&self) -> bool {
        self.pos <= self.inner@.len()
    }

    /// The next element in index order, or `None` once all were handed out.
    pub fn next(&mut self) -> (r: Option<&'b T>)
        ensures
            final(self)@ == left_after(old(self)@),
            match r {
                Some(x) => yielded(old(self)@) == Some(*x),
                None => yielded(old(self)@) is None,
            },
    {
        proof {
            use_type_invariant(&*self);
        }
        if self.pos >= self.inner.len() {
            None
        } else {
            self.pos += 1;
            assert(self@ =~= old(self)@.skip(1));
            Some(self.inner.get_unchecked(self.pos - 1))
        }
    }
}

/// Iterator that hands out the elements of a [`CSliceMut`] for writing, made
/// by [`CSliceMut::iter_mut`].
///
/// Its model is the sequence of the elements still to come (`@`) and the
/// memory it still holds ([`CSliceMutIterMut::mem`]).
pub struct CSliceMutIterMut<'b, T> {
    rest: &'b mut [T],
}

impl<'b, T> View for CSliceMutIterMut<'b, T> {
    type V = Seq<T>;

    closed spec fn view(&self) -> Seq<T> {
        self.rest@
    }
}

impl<'b, T> CSliceMutIterMut<'b, T> {
    /// The memory of the elements still to come. Its final value is what
    /// the iterator leaves in them.
    pub closed spec fn mem(&self) -> &'b mut [T] {
        self.rest
    }

    /// Once an iterator is no longer used, the elements it did not hand out
    /// stay as they are.
    pub broadcast proof fn lemma_mem_resolved(self)
        requires
            has_resolved(self),
        ensures
            #[trigger] final(self.mem())@ == self@,
    {
    }

    /// The next element in index order, open to writing, or `None` once all
    /// were handed out. What the iterator held before is, in the end, what
    /// the caller leaves in the element, followed by what the iterator
    /// leaves in the rest.
    pub fn next(&mut self) -> (r: Option<&'b mut T>)
        ensures
            final(self)@ == left_after(old(self)@),
            match r {
                Some(x) => yielded(old(self)@) == Some(*x) && final(old(self).mem())@
                    == seq![*final(x)] + final(final(self).mem())@,
                None => yielded(old(self)@) is None && final(final(self).mem())@
                    == final(old(self).mem())@,
            },
    {
        if self.rest.len() == 0 {
            None
        } else {
            let mut all: &'b mut [T] = &mut [];
            core::mem::swap(&mut self.rest, &mut all);
            let (head, tail) = all.split_at_mut(1);
            self.rest = tail;
            head.first_mut()
        }
    }
}

impl<'a, T> AsRef<[T]> for CSlice<'a, T> {
    /// The elements as a native slice.
    fn as_ref(&self) -> (r: &[T])
        ensures
            r@ == self@,
    {
        self.data
    }
}

impl<'a, T> core::ops::Index<usize> for CSlice<'a, T> {
    type Output = T;

    /// The element at `index`, which has to be in bounds.
    fn index(&self, index: usize) -> (r: &T)
        ensures
            *r == self@[index as int],
    {
        &self.data[index]
    }
}

impl<'a, T> vstd::std_specs::core::IndexSpecImpl<usize> for CSlice<'a, T> {
    open spec fn index_req(&self, index: &usize) -> bool {
        *index < self@.len()
    }
}

impl<'a, T: Clone> From<CSlice<'a, T>> for Vec<T> {
    /// A snapshot: a new vector that holds a clone of each element, in
    /// order, and has nothing to do with the foreign memory afterwards.
    fn from(s: CSlice<'a, T>) -> (v: Vec<T>)
        ensures
            v@.len() == s@.len(),
            forall|i: int| 0 <= i < s@.len() ==> cloned(s@[i], #[trigger] v@[i]),
    {
        let mut v = Vec::with_capacity(s.len());
        v.extend_from_slice(s.as_ref());
        v
    }
}

impl<'a, T: Clone> FromSpecImpl<CSlice<'a, T>> for Vec<T> {
    /// A clone is not a function of the value it was made from, so the
    /// snapshot is described by the `ensures` of `from` alone.
    open spec fn obeys_from_spec() -> bool {
        false
    }

    open spec fn from_spec(s: CSlice<'a, T>) -> Vec<T> {
        arbitrary()
    }
}

impl<'a, T> AsRef<[T]> for CSliceMut<'a, T> {
    /// The elements as a native slice.
    fn as_ref(&self) -> (r: &[T])
        ensures
            r@ == self@,
    {
        &*self.data
    }
}

impl<'a, T> AsMut<[T]> for CSliceMut<'a, T> {
    /// The elements as a native slice, open to writing. The view ends up
    /// with whatever the caller leaves in the slice.
    fn as_mut(&mut self) -> (r: &mut [T])
        ensures
            r@ == old(self)@,
            final(self)@ == final(r)@,
            final(self).base() == old(self).base(),
            final(final(self).mem())@ == final(old(self).mem())@,
    {
        &mut *self.data
    }
}

impl<'a, T> core::ops::Index<usize> for CSliceMut<'a, T> {
    type Output = T;

    /// The element at `index`, which has to be in bounds.
    fn index(&self, index: usize) -> (r: &T)
        ensures
            *r == self@[index as int],
    {
        &self.data[index]
    }
}

impl<'a, T> vstd::std_specs::core::IndexSpecImpl<usize> for CSliceMut<'a, T> {
    open spec fn index_req(&self, index: &usize) -> bool {
        *index < self@.len()
    }
}

impl<'a, T: Clone> From<CSliceMut<'a, T>> for Vec<T> {
    /// A snapshot: a new vector that holds a clone of each element, in
    /// order, and has nothing to do with the foreign memory afterwards. The
    /// memory is left as the view showed it.
    fn from(s: CSliceMut<'a, T>) -> (v: Vec<T>)
        ensures
            v@.len() == s@.len(),
            forall|i: int| 0 <= i < s@.len() ==> cloned(s@[i], #[trigger] v@[i]),
            final(s.mem())@ == s@,
    {
        let mut v = Vec::with_capacity(s.len());
        v.extend_from_slice(s.as_ref());
        v
    }
}

impl<'a, T: Clone> FromSpecImpl<CSliceMut<'a, T>> for Vec<T> {
    /// A clone is not a function of the value it was made from, so the
    /// snapshot is described by the `ensures` of `from` alone.
    open spec fn obeys_from_spec() -> bool {
        false
    }

    open spec fn from_spec(s: CSliceMut<'a, T>) -> Vec<T> {
        arbitrary()
    }
}

} // verus!
