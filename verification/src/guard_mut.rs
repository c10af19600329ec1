use vstd::prelude::*;

verus! {

/// A value taken from an option, kept by the guard that borrows the option.
///
/// The guard gives access to the value by [`OptionGuardMut::deref`] and
/// [`OptionGuardMut::deref_mut`]. When it is released, or goes out of scope,
/// whatever it holds goes back into the option. [`OptionGuardMut::into_inner`]
/// takes the value away instead, and the option stays `None`.
///
/// A guard made from an empty option holds nothing: it can be released, and
/// gives the option `None` back, but there is no value to look at or to take.
pub struct OptionGuardMut<'a, T: 'a> {
    origin: Option<&'a mut Option<T>>,
    value: Option<T>,
}

impl<'a, T> View for OptionGuardMut<'a, T> {
    type V = Option<T>;

    /// What the guard holds: the taken value, or nothing.
    closed spec fn view(&self) -> Option<T> {
        self.value
    }
}

impl<'a, T> OptionGuardMut<'a, T> {
    /// The guard still borrows its option. This holds of every guard from
    /// its making until it is consumed.
    pub closed spec fn wf(self) -> bool {
        self.origin is Some
    }

    /// The borrowed option: `*g.slot()` is what it holds now, and
    /// `*final(g.slot())` what it holds when the guard's borrow has ended.
    pub closed spec fn slot(self) -> &'a mut Option<T>
        recommends
            self.wf(),
    {
        self.origin->0
    }

    /// Makes the guard that borrows `origin` and keeps `value`.
    pub(crate) fn new(origin: &'a mut Option<T>, value: Option<T>) -> (guard: OptionGuardMut<'a, T>)
        ensures
            guard.wf(),
            guard@ == value,
            *guard.slot() == *old(origin),
            *final(guard.slot()) == *final(origin),
    {
        OptionGuardMut { origin: Some(origin), value }
    }

    /// Moves what the guard holds into the borrowed option and lets the
    /// borrow go. On a guard that has let go already nothing happens.
    fn give_back(&mut self)
        ensures
            old(self).wf() ==> *final(old(self).slot()) == old(self)@,
            !final(self).wf(),
            final(self)@ is None,
        opens_invariants none
        no_unwind
    {
        let mut origin: Option<&'a mut Option<T>> = None;
        core::mem::swap(&mut self.origin, &mut origin);
        let mut value: Option<T> = None;
        core::mem::swap(&mut self.value, &mut value);
        match origin {
            Some(slot) => {
                *slot = value;
            },
            None => {},
        }
    }

    /// Whether the guard holds a value.
    pub fn is_holding(&self) -> (holding: bool)
        ensures
            holding == (self@ is Some),
    {
        self.value.is_some()
    }

    /// The held value.
    pub fn deref(&self) -> (held: &T)
        requires
            self@ is Some,
        ensures
            self@ == Some(*held),
    {
        self.value.as_ref().unwrap()
    }

    /// The held value, to be changed in place. What is written through the
    /// reference is what the guard holds afterwards; the borrowed option is
    /// not touched.
    pub fn deref_mut(&mut self) -> (held: &mut T)
        requires
            old(self)@ is Some,
        ensures
            old(self)@ == Some(*held),
            final(self)@ == Some(*final(held)),
            final(self).wf() == old(self).wf(),
            final(self).slot() == old(self).slot(),
    {
        self.value.as_mut().unwrap()
    }

    /// Ends the guard as going out of scope does: the borrowed option gets
    /// what the guard holds.
    pub fn release(self)
        requires
            self.wf(),
        ensures
            *final(self.slot()) == self@,
    {
        let mut this = self;
        this.give_back();
    }

    /// Keeps the value taken from the option: it is returned, and the option
    /// is left `None`.
    pub fn into_inner(self) -> (kept: T)
        requires
            self.wf(),
            self@ is Some,
        ensures
            self@ == Some(kept),
            *final(self.slot()) == None::<T>,
    {
        let mut this = self;
        let kept = this.value.take().unwrap();
        this.give_back();
        kept
    }
}

impl<'a, T> Drop for OptionGuardMut<'a, T> {
    /// A guard that goes out of scope gives what it holds back to its option.
    fn drop(&mut self)
        ensures
            old(self).wf() ==> *final(old(self).slot()) == old(self)@,
        opens_invariants none
        no_unwind
    {
        self.give_back();
    }
}

} // verus!
