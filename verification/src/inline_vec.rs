//! The container: its model, its constructors and its two views.

use vstd::prelude::*;

verus! {

/// A sequence of at most `LEN` elements, held in an array of exactly `LEN` slots.
///
/// The first `len` slots are live: they are the sequence. The slots behind them
/// are capacity only. They hold values, because an array has no empty slots, but
/// neither view reaches them.
#[derive(Debug)]
pub struct InlineVec<T, const LEN: usize> {
    values: [T; LEN],
    len: usize,
}

impl<T, const LEN: usize> View for InlineVec<T, LEN> {
    type V = Seq<T>;

    /// The sequence that the container stands for: its live slots, in order.
    open spec fn view(&self) -> Seq<T> {
        self.storage().take(self.spec_len() as int)
    }
}

impl<T, const LEN: usize> InlineVec<T, LEN> {
    /// Every slot of the backing array, live or not.
    pub closed spec fn storage(&self) -> Seq<T> {
        self.values@
    }

    /// The number of live slots. Contracts write it as `len()`.
    pub closed spec fn spec_len(&self) -> usize {
        self.len
    }

    /// The invariant of the type: there are `LEN` slots, and the live ones are
    /// among them. Every container that executable code holds meets it.
    #[verifier::type_invariant]
    pub open spec fn wf(&self) -> bool {
        &&& self.storage().len() == LEN
        &&& self.spec_len() <= LEN
    }

    /// The sequence of a valid container is the live prefix of its slots: it has
    /// `len()` elements, never more than `LEN`, and each is the slot at its index.
    pub proof fn lemma_view_is_live_prefix(self)
        requires
            self.wf(),
        ensures
            self@.len() == self.len(),
            self@.len() <= LEN,
            forall|i: int| 0 <= i < self.len() ==> self@[i] == self.storage()[i],
    {
    }

    /// A container is its slots and its live count: two containers that agree on
    /// both are equal.
    pub proof fn lemma_equal_by_parts(a: Self, b: Self)
        requires
            a.storage() == b.storage(),
            a.len() == b.len(),
        ensures
            a == b,
    {
        assert(a.values =~= b.values);
    }

    /// Makes a container of the given slots, of which the first `len` are live.
    ///
    /// A live count beyond the capacity is an error of the caller, and the
    /// precondition rules it out. A caller that cannot show `len <= LEN` goes
    /// through [`InlineVec::try_new`].
    pub fn new(values: [T; LEN], len: usize) -> (made: Self)
        requires
            len <= LEN,
        ensures
            made.storage() == values@,
            made.len() == len,
            made@ == values@.take(len as int),
    {
        InlineVec { values, len }
    }

    /// Makes a container as [`InlineVec::new`] does where the live count fits
    /// the capacity, and nothing where it does not.
    pub fn try_new(values: [T; LEN], len: usize) -> (made: Option<Self>)
        ensures
            made is Some <==> len <= LEN,
            made matches Some(v) ==> v.storage() == values@ && v.len() == len,
    {
        if len <= LEN {
            Some(InlineVec { values, len })
        } else {
            None
        }
    }

    /// The number of live slots, which is the length of both views.
    #[verifier::when_used_as_spec(spec_len)]
    pub fn len(&self) -> (n: usize)
        ensures
            n == self.len(),
            n == self@.len(),
            n <= LEN,
    {
        proof {
            use_type_invariant(self);
        }
        self.len
    }

    /// The live slots, to read: a window into the container's own array, of
    /// `len()` elements.
    pub fn as_view(&self) -> (view: &[T])
        ensures
            view@ == self@,
            view@.len() == self.len(),
    {
        proof {
            use_type_invariant(self);
        }
        &self.values[0..self.len]
    }

    /// The live slots, to write: a window into the container's own array, of
    /// `len()` elements.
    ///
    /// Whatever the caller writes through the window, the container keeps its
    /// live count, has the window's final content as its sequence, and keeps
    /// the slots behind the live ones as they were.
    pub fn as_mut_view(&mut self) -> (view: &mut [T])
        ensures
            view@ == old(self)@,
            view@.len() == old(self).len(),
            final(view)@.len() == view@.len(),
            final(self).len() == old(self).len(),
            final(self)@ == final(view)@,
            final(self).storage() == final(view)@ + old(self).storage().skip(
                old(self).len() as int,
            ),
    {
        proof {
            use_type_invariant(&*self);
        }
        let len = self.len;
        let slots: &mut [T] = &mut self.values;
        let (live, _) = slots.split_at_mut(len);
        live
    }
}

impl<T: Clone, const LEN: usize> Clone for InlineVec<T, LEN> {
    /// Clones every slot, live or not, and keeps the live count.
    fn clone(&self) -> (copy: Self)
        ensures
            copy.len() == self.len(),
            copy.storage().len() == self.storage().len(),
            forall|i: int|
                0 <= i < self.storage().len() ==> cloned::<T>(
                    self.storage()[i],
                    #[trigger] copy.storage()[i],
                ),
    {
        proof {
            use_type_invariant(self);
        }
        InlineVec { values: self.values.clone(), len: self.len }
    }
}

impl<T: Copy, const LEN: usize> Copy for InlineVec<T, LEN> {

}

} // verus!
