//! The owning handle.

use crate::c_slice::Addr;
use crate::c_slice::CSlice;
use crate::c_slice::CSliceMut;
use crate::model::left_after;
use crate::model::read_at;
use crate::model::yielded;
use vstd::prelude::*;
use vstd::std_specs::convert::FromSpecImpl;

verus! {

/// A release action: something that gives a block of foreign memory back,
/// and that can do so only once.
trait Release {
    /// What is known once the action has run.
    spec fn released(&self) -> bool;

    /// Runs the action.
    fn run(self: Box<Self>)
        ensures
            self.released(),
    ;
}

/// A callback together with the address it is to be called with.
struct Pending<F: FnOnce(usize)> {
    base: usize,
    callback: F,
}

impl<F: FnOnce(usize)> Pending<F> {
    #[verifier::type_invariant]
    spec fn callable(&self) -> bool {
        call_requires(self.callback, (self.base,))
    }
}

impl<F: FnOnce(usize)> Release for Pending<F> {
    closed spec fn released(&self) -> bool {
        call_ensures(self.callback, (self.base,), ())
    }

    fn run(self: Box<Self>) {
        proof {
            use_type_invariant(&*self);
        }
        let this = *self;
        (this.callback)(this.base)
    }
}

/// The owning handle of a block of foreign memory.
///
/// Its model is the sequence of its elements (`@`), the address of the first
/// of them ([`CVec::base`]), the memory it has borrowed ([`CVec::mem`]) and
/// the release action, if one is still to be run ([`CVec::has_dtor`]).
///
/// The release action is run by [`CVec::release`], at most once, and not at
/// all after [`CVec::into_inner`]. A destructor that runs a caller's closure
/// is beyond what Verus can check, so the handle has none: whoever owns the
/// handle calls `release` when done with it.
pub struct CVec<'a, T> {
    base: Addr,
    data: &'a mut [T],
    dtor: Option<Box<dyn Release>>,
}

impl<'a, T> View for CVec<'a, T> {
    type V = Seq<T>;

    closed spec fn view(&self) -> Seq<T> {
        self.data@
    }
}

impl<'a, T> CVec<'a, T> {
    /// The address of the first element.
    pub closed spec fn spec_base(&self) -> usize {
        self.base.get()
    }

    /// The borrowed memory. Its current value holds the elements of the
    /// handle; its final value is what the lender gets back.
    pub closed spec fn mem(&self) -> &'a mut [T] {
        self.data
    }

    /// Whether a release action is still to be run.
    pub closed spec fn has_dtor(&self) -> bool {
        self.dtor is Some
    }

    /// What the release action of this handle guarantees once it has run on
    /// the base address. It says nothing of a handle without one.
    pub closed spec fn dtor_ensures(&self) -> bool {
        self.dtor is Some && self.dtor->0.released()
    }

    /// Whether `other` is this handle but for its elements: the same
    /// address and the same release action.
    pub open spec fn same_owner(&self, other: &Self) -> bool {
        &&& self.base() == other.base()
        &&& self.has_dtor() == other.has_dtor()
        &&& self.dtor_ensures() == other.dtor_ensures()
    }

    /// The elements of a handle are the current value of its memory.
    pub broadcast proof fn lemma_mem_view(self)
        ensures
            #[trigger] self.mem()@ == self@,
    {
    }

    /// Once a handle is no longer used, the lender gets back the elements
    /// that the handle holds.
    pub broadcast proof fn lemma_mem_resolved(self)
        requires
            has_resolved(self),
        ensures
            #[trigger] final(self.mem())@ == self@,
    {
    }

    /// However many views were taken of a handle and written through, it
    /// stays the same owner: `same_owner` holds of a handle and itself, and
    /// carries over a chain of changes.
    pub proof fn lemma_same_owner(first: Self, second: Self, third: Self)
        ensures
            first.same_owner(&first),
            second.same_owner(&first) && third.same_owner(&second) ==> third.same_owner(&first),
    {
    }

    /// When a mutable view ends, the handle that lent it holds what the view
    /// showed last: a write through the view is read back through the
    /// handle. Here `view` is the view when it was last used, and `handle`
    /// the handle once the view has ended, as `as_cslice_mut` describes it.
    pub proof fn lemma_view_writes_reach_handle(handle: Self, view: CSliceMut<'a, T>)
        requires
            has_resolved(view),
            handle@ == final(view.mem())@,
        ensures
            handle@ == view@,
    {
        view.lemma_mem_resolved();
    }

    /// Giving a handle up returns the address that it was made with,
    /// whatever was done through it in between. Here `made` is the handle as
    /// its constructor returned it for the address `base`, `last` the handle
    /// as it was given up, and `returned` what `into_inner` gave back.
    pub proof fn lemma_into_inner_returns_base(made: Self, last: Self, base: usize, returned: usize)
        requires
            made.base() == base,
            last.same_owner(&made),
            returned == last.base(),
        ensures
            returned == base,
    {
    }

    /// Releasing a handle runs the callback it was made with, on the address
    /// it was made with, whatever views were taken in between; afterwards no
    /// release action is left, so that it cannot run again. Here `made` is
    /// the handle as `new_with_dtor` returned it for `base` and `dtor`,
    /// `last` the handle when `release` was called, and `after` the handle
    /// when `release` returned.
    pub proof fn lemma_release_runs_dtor<F: FnOnce(usize)>(
        made: Self,
        last: Self,
        after: Self,
        base: usize,
        dtor: F,
    )
        requires
            made.base() == base,
            made.has_dtor(),
            made.dtor_ensures() == call_ensures(dtor, (base,), ()),
            last.same_owner(&made),
            !after.has_dtor(),
            after.base() == last.base(),
            last.has_dtor() ==> last.dtor_ensures(),
        ensures
            call_ensures(dtor, (base,), ()),
            after.base() == base,
            !after.has_dtor(),
    {
    }

    /// A handle of the elements `mem`, which live at the address `base`,
    /// with no release action: giving the memory back stays with the caller.
    ///
    /// The address of foreign memory is never null.
    pub fn new(base: usize, mem: &'a mut [T]) -> (v: CVec<'a, T>)
        requires
            base != 0,
        ensures
            v@ == old(mem)@,
            v.base() == base,
            !v.has_dtor(),
            final(mem)@ == final(v.mem())@,
    {
        CVec { base: Addr::new(base), data: mem, dtor: None }
    }

    /// A handle of the elements `mem`, which live at the address `base`,
    /// with `dtor` as its release action: [`CVec::release`] calls it with
    /// `base`.
    ///
    /// The address of foreign memory is never null.
    pub fn new_with_dtor<F>(base: usize, mem: &'a mut [T], dtor: F) -> (v: CVec<'a, T>) where
        F: FnOnce(usize) + 'static,

        requires
            base != 0,
            call_requires(dtor, (base,)),
        ensures
            v@ == old(mem)@,
            v.base() == base,
            v.has_dtor(),
            v.dtor_ensures() == call_ensures(dtor, (base,), ()),
            final(mem)@ == final(v.mem())@,
    {
        let action: Box<dyn Release> = Box::new(Pending { base, callback: dtor });
        assert(action.released() == call_ensures(dtor, (base,), ()));
        let stored = Some(action);
        CVec { base: Addr::new(base), data: mem, dtor: stored }
    }

    /// The address of the first element; never null.
    #[verifier::when_used_as_spec(spec_base)]
    pub fn base(&self) -> (a: usize)
        ensures
            a == self.base(),
            a != 0,
    {
        self.base.get()
    }

    /// The element at `ofs`, or `None` when `ofs` is past the end.
    pub fn get(&self, ofs: usize) -> (r: Option<&T>)
        ensures
            match r {
                Some(x) => read_at(self@, ofs) == Some(*x),
                None => read_at(self@, ofs) is None,
            },
    {
        if ofs < self.data.len() {
            Some(&self.data[ofs])
        } else {
            None
        }
    }

    /// The element at `ofs`, for a caller who knows that `ofs` is in bounds.
    pub fn get_unchecked(&self, ofs: usize) -> (r: &T)
        requires
            ofs < self@.len(),
        ensures
            *r == self@[ofs as int],
    {
        &self.data[ofs]
    }

    /// The element at `ofs`, open to writing, or `None` when `ofs` is past
    /// the end. The handle ends up with whatever the caller leaves in the
    /// element, and is otherwise unchanged.
    pub fn get_mut(&mut self, ofs: usize) -> (r: Option<&mut T>)
        ensures
            final(self).same_owner(old(self)),
            final(final(self).mem())@ == final(old(self).mem())@,
            match r {
                Some(x) => read_at(old(self)@, ofs) == Some(*x) && final(self)@ == old(
                    self,
                )@.update(ofs as int, *final(x)),
                None => read_at(old(self)@, ofs) is None && final(self)@ == old(self)@,
            },
    {
        if ofs < self.data.len() {
            Some(&mut self.data[ofs])
        } else {
            None
        }
    }

    /// The element at `ofs`, open to writing, for a caller who knows that
    /// `ofs` is in bounds.
    pub fn get_unchecked_mut(&mut self, ofs: usize) -> (r: &mut T)
        requires
            ofs < old(self)@.len(),
        ensures
            final(self).same_owner(old(self)),
            final(final(self).mem())@ == final(old(self).mem())@,
            *r == old(self)@[ofs as int],
            final(self)@ == old(self)@.update(ofs as int, *final(r)),
    {
        &mut self.data[ofs]
    }

    /// Gives up the handle without running its release action, and returns
    /// the address of the memory: giving it back is now up to the caller.
    /// The memory is left as the handle held it.
    pub fn into_inner(self) -> (a: usize)
        ensures
            a == self.base(),
            a != 0,
            final(self.mem())@ == self@,
    {
        let mut this = self;
        this.dtor = None;
        this.base.get()
    }

    /// Runs the release action, if one is still to be run, with the base
    /// address, and forgets it: a second call does nothing.
    pub fn release(&mut self)
        ensures
            final(self)@ == old(self)@,
            final(self).base() == old(self).base(),
            final(final(self).mem())@ == final(old(self).mem())@,
            !final(self).has_dtor(),
            old(self).has_dtor() ==> old(self).dtor_ensures(),
    {
        if let Some(f) = self.dtor.take() {
            f.run();
        }
    }

    /// The number of elements.
    pub fn len(&self) -> (n: usize)
        ensures
            n == self@.len(),
    {
        self.data.len()
    }

    /// Whether the handle holds no element at all.
    pub fn is_empty(&self) -> (b: bool)
        ensures
            b == (self@.len() == 0),
    {
        self.len() == 0
    }

    /// A read-only view of all the elements.
    pub fn as_cslice<'b>(&'b self) -> (s: CSlice<'b, T>)
        ensures
            s@ == self@,
            s.base() == self.base(),
    {
        CSlice::at(self.base, &*self.data)
    }

    /// A mutable view of all the elements. The handle ends up with whatever
    /// the view leaves in them.
    pub fn as_cslice_mut<'b>(&'b mut self) -> (s: CSliceMut<'b, T>)
        ensures
            s@ == old(self)@,
            s.base() == old(self).base(),
            final(self)@ == final(s.mem())@,
            final(self).same_owner(old(self)),
            final(final(self).mem())@ == final(old(self).mem())@,
    {
        CSliceMut::at(self.base, &mut *self.data)
    }

    /// The element at `index`, which has to be in bounds, open to writing.
    pub fn index_mut(&mut self, index: usize) -> (r: &mut T)
        requires
            index < old(self)@.len(),
        ensures
            final(self).same_owner(old(self)),
            final(final(self).mem())@ == final(old(self).mem())@,
            *r == old(self)@[index as int],
            final(self)@ == old(self)@.update(index as int, *final(r)),
    {
        &mut self.data[index]
    }

    /// A fresh iterator: all the elements are still to come.
    pub fn iter<'b>(&'b self) -> (it: CVecIter<'b, T>)
        ensures
            it@ == self@,
    {
        let it = CVecIter { inner: &*self.data, pos: 0 };
        assert(it@ =~= self@);
        it
    }

    /// A fresh iterator that hands the elements out for writing: all of them
    /// are still to come. The handle ends up with whatever the iterator and
    /// the references it handed out leave behind.
    pub fn iter_mut<'b>(&'b mut self) -> (it: CVecIterMut<'b, T>)
        ensures
            it@ == old(self)@,
            final(self)@ == final(it.mem())@,
            final(self).same_owner(old(self)),
            final(final(self).mem())@ == final(old(self).mem())@,
    {
        CVecIterMut { rest: &mut *self.data }
    }
}

/// Iterator over a [`CVec`], made by [`CVec::iter`].
///
/// Its model (`@`) is the sequence of the elements still to come.
pub struct CVecIter<'a, T> {
    inner: &'a [T],
    pos: usize,
}

impl<'a, T> View for CVecIter<'a, T> {
    type V = Seq<T>;

    closed spec fn view(&self) -> Seq<T> {
        self.inner@.skip(self.pos as int)
    }
}

impl<'a, T> CVecIter<'a, T> {
    #[verifier::type_invariant]
    spec fn in_bounds(&self) -> bool {
        self.pos <= self.inner@.len()
    }

    /// The next element in index order, or `None` once all were handed out.
    pub fn next(&mut self) -> (r: Option<&'a T>)
        ensures
            final(self)@ == left_after(old(self)@),
            match r {
                Some(x) => yielded(old(self)@) == Some(*x),
                None => yielded(old(self)@) is None,
            },
    {
        proof {
            use_type_invariant(&*self);
        }
        if self.pos >= self.inner.len() {
            None
        } else {
            self.pos += 1;
            assert(self@ =~= old(self)@.skip(1));
            Some(&self.inner[self.pos - 1])
        }
    }
}

/// Iterator that hands out the elements of a [`CVec`] for writing, made by
/// [`CVec::iter_mut`].
///
/// Its model is the sequence of the elements still to come (`@`) and the
/// memory it still holds ([`CVecIterMut::mem`]).
pub struct CVecIterMut<'a, T> {
    rest: &'a mut [T],
}

impl<'a, T> View for CVecIterMut<'a, T> {
    type V = Seq<T>;

    closed spec fn view(&self) -> Seq<T> {
        self.rest@
    }
}

impl<'a, T> CVecIterMut<'a, T> {
    /// The memory of the elements still to come. Its final value is what
    /// the iterator leaves in them.
    pub closed spec fn mem(&self) -> &'a mut [T] {
        self.rest
    }

    /// Once an iterator is no longer used, the elements it did not hand out
    /// stay as they are.
    pub broadcast proof fn lemma_mem_resolved(self)
        requires
            has_resolved(self),
        ensures
            #[trigger] final(self.mem())@ == self@,
    {
    }

    /// The next element in index order, open to writing, or `None` once all
    /// were handed out. What the iterator held before is, in the end, what
    /// the caller leaves in the element, followed by what the iterator
    /// leaves in the rest.
    pub fn next(&mut self) -> (r: Option<&'a mut T>)
        ensures
            final(self)@ == left_after(old(self)@),
            match r {
                Some(x) => yielded(old(self)@) == Some(*x) && final(old(self).mem())@
                    == seq![*final(x)] + final(final(self).mem())@,
                None => yielded(old(self)@) is None && final(final(self).mem())@
                    == final(old(self).mem())@,
            },
    {
        if self.rest.len() == 0 {
            None
        } else {
            let mut all: &'a mut [T] = &mut [];
            core::mem::swap(&mut self.rest, &mut all);
            let (head, tail) = all.split_at_mut(1);
            self.rest = tail;
            head.first_mut()
        }
    }
}

impl<'a, T> AsRef<[T]> for CVec<'a, T> {
    /// The elements as a native slice.
    fn as_ref(&self) -> (r: &[T])
        ensures
            r@ == self@,
    {
        &*self.data
    }
}

impl<'a, T> AsMut<[T]> for CVec<'a, T> {
    /// The elements as a native slice, open to writing. The handle ends up
    /// with whatever the caller leaves in the slice.
    fn as_mut(&mut self) -> (r: &mut [T])
        ensures
            r@ == old(self)@,
            final(self)@ == final(r)@,
            final(self).same_owner(old(self)),
            final(final(self).mem())@ == final(old(self).mem())@,
    {
        &mut *self.data
    }
}

impl<'a, T> core::ops::Index<usize> for CVec<'a, T> {
    type Output = T;

    /// The element at `index`, which has to be in bounds.
    fn index(&self, index: usize) -> (r: &T)
        ensures
            *r == self@[index as int],
    {
        &self.data[index]
    }
}

impl<'a, T> vstd::std_specs::core::IndexSpecImpl<usize> for CVec<'a, T> {
    open spec fn index_req(&self, index: &usize) -> bool {
        *index < self@.len()
    }
}

impl<'a, T: Clone> From<CVec<'a, T>> for Vec<T> {
    /// A snapshot: a new vector that holds a clone of each element, in
    /// order, and has nothing to do with the foreign memory afterwards. The
    /// handle ends here: its release action, if any, is run, and the memory
    /// is left as the handle held it.
    fn from(c: CVec<'a, T>) -> (v: Vec<T>)
        ensures
            v@.len() == c@.len(),
            forall|i: int| 0 <= i < c@.len() ==> cloned(c@[i], #[trigger] v@[i]),
            c.has_dtor() ==> c.dtor_ensures(),
            final(c.mem())@ == c@,
    {
        let mut c = c;
        let v: Vec<T> = c.as_cslice().into();
        c.release();
        v
    }
}

impl<'a, T: Clone> FromSpecImpl<CVec<'a, T>> for Vec<T> {
    /// A clone is not a function of the value it was made from, so the
    /// snapshot is described by the `ensures` of `from` alone.
    open spec fn obeys_from_spec() -> bool {
        false
    }

    open spec fn from_spec(c: CVec<'a, T>) -> Vec<T> {
        arbitrary()
    }
}

} // verus!
