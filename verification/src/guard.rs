use vstd::prelude::*;

verus! {

/// An option whose value has been taken and is owed back.
///
/// The guard borrows the emptied option and holds no value: the value was
/// handed to the caller when the guard was made. The option is filled again
/// only by [`OptionGuard::restore`]. Where a guard is let go without it, the
/// option stays `None` for good, and a caller that promises a filled option
/// cannot prove its promise.
pub struct OptionGuard<'a, T: 'a> {
    opt: &'a mut Option<T>,
}

impl<'a, T> OptionGuard<'a, T> {
    /// The borrowed option: `*g.slot()` is what it holds now, and
    /// `*final(g.slot())` what it holds when the guard's borrow has ended.
    pub closed spec fn slot(self) -> &'a mut Option<T> {
        self.opt
    }

    /// Wraps a borrowed option, as it is, in a guard.
    pub(crate) fn new(opt: &'a mut Option<T>) -> (guard: OptionGuard<'a, T>)
        ensures
            *guard.slot() == *old(opt),
            *final(guard.slot()) == *final(opt),
    {
        OptionGuard { opt }
    }

    /// Once a guard is used no more, its option keeps what it holds now
    /// until the borrow ends. For a guard that was let go without
    /// [`OptionGuard::restore`] that is `None`.
    pub proof fn lemma_let_go(self)
        requires
            has_resolved(self),
        ensures
            *final(self.slot()) == *self.slot(),
    {
    }

    /// Puts `obj` into the option the value was taken from, and ends the borrow.
    pub fn restore(self, obj: T)
        ensures
            *final(self.slot()) == Some(obj),
    {
        let OptionGuard { opt } = self;
        *opt = Some(obj);
    }
}

} // verus!
