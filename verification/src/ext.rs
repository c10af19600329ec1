use vstd::prelude::*;
use crate::guard::OptionGuard;
use crate::guard_mut::OptionGuardMut;

verus! {

/// Taking the value out of an option, with a guard for the emptied option.
pub trait EmptyOptionExt {
    /// The type of the value in the option.
    type Inner;

    /// What the option holds.
    spec fn content(&self) -> Option<Self::Inner>;

    /// Takes the value out of a filled option and hands it over, with a guard
    /// that borrows the emptied option until a value is restored to it.
    fn steal(&mut self) -> (stolen: (OptionGuard<'_, Self::Inner>, Self::Inner))
        requires
            old(self).content() is Some,
        ensures
            old(self).content() == Some(stolen.1),
            *stolen.0.slot() == None::<Self::Inner>,
            final(self).content() == *final(stolen.0.slot()),
    ;

    /// Empties the option and hands over a guard that keeps what was in it,
    /// and gives it back to the option unless the value is taken away.
    fn steal_mut(&mut self) -> (guard: OptionGuardMut<'_, Self::Inner>)
        ensures
            guard.wf(),
            guard@ == old(self).content(),
            *guard.slot() == None::<Self::Inner>,
            final(self).content() == *final(guard.slot()),
    ;
}

impl<T> EmptyOptionExt for Option<T> {
    type Inner = T;

    open spec fn content(&self) -> Option<T> {
        *self
    }

    fn steal(&mut self) -> (stolen: (OptionGuard<'_, T>, T)) {
        let value = self.take().unwrap();
        (OptionGuard::new(self), value)
    }

    fn steal_mut(&mut self) -> (guard: OptionGuardMut<'_, T>) {
        let value = self.take();
        OptionGuardMut::new(self, value)
    }
}

} // verus!
