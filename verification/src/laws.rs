//! What holds of the guards when their operations follow one another.
//!
//! Each lemma takes the option as it was borrowed, the guards and values that
//! the operations hand on, and what each operation ensures of them.
use vstd::prelude::*;
use crate::guard::OptionGuard;
use crate::guard_mut::OptionGuardMut;

verus! {

/// Round trip. Where `steal` takes the value out of an option that holds `v`,
/// and `restore` then puts `v2` in, the stolen value is `v` and the option
/// ends up holding exactly `v2`.
pub proof fn lemma_steal_restore_round_trip<'a, T>(
    slot: &'a mut Option<T>,
    guard: OptionGuard<'a, T>,
    stolen: T,
    v: T,
    v2: T,
)
    requires
        *slot == Some(v),
        // steal
        *slot == Some(stolen),
        *guard.slot() == None::<T>,
        *final(slot) == *final(guard.slot()),
        // restore
        *final(guard.slot()) == Some(v2),
    ensures
        stolen == v,
        *final(slot) == Some(v2),
{
}

/// Auto-return. Where `steal_mut` empties an option that holds `v`, the guard
/// has a value to give access to; and where `v2` is then written through
/// `deref_mut` and the guard is released, nothing stands in the way of the
/// release and the option ends up holding exactly `v2`.
pub proof fn lemma_steal_mut_write_release<'a, T>(
    slot: &'a mut Option<T>,
    taken: OptionGuardMut<'a, T>,
    written: OptionGuardMut<'a, T>,
    v: T,
    v2: T,
)
    requires
        *slot == Some(v),
        // steal_mut
        taken.wf(),
        taken@ == *slot,
        *taken.slot() == None::<T>,
        *final(slot) == *final(taken.slot()),
        // deref_mut, and `v2` written through the reference
        written@ == Some(v2),
        written.wf() == taken.wf(),
        written.slot() == taken.slot(),
        // release
        *final(written.slot()) == written@,
    ensures
        taken@ is Some,
        written.wf(),
        *final(slot) == Some(v2),
{
}

/// Keeping. Where `steal_mut` empties an option that holds `v`, `into_inner`
/// can be called on the guard; it returns `v`, and the option ends up `None`.
pub proof fn lemma_steal_mut_into_inner<'a, T>(
    slot: &'a mut Option<T>,
    guard: OptionGuardMut<'a, T>,
    kept: T,
    v: T,
)
    requires
        *slot == Some(v),
        // steal_mut
        guard.wf(),
        guard@ == *slot,
        *guard.slot() == None::<T>,
        *final(slot) == *final(guard.slot()),
        // into_inner
        guard@ == Some(kept),
        *final(guard.slot()) == None::<T>,
    ensures
        guard.wf() && guard@ is Some,
        kept == v,
        *final(slot) == None::<T>,
{
}

/// Emptiness. Where `steal_mut` is called on an option that is `None`, the
/// guard holds nothing, and releasing it leaves the option `None`.
pub proof fn lemma_steal_mut_empty_release<'a, T>(
    slot: &'a mut Option<T>,
    guard: OptionGuardMut<'a, T>,
)
    requires
        *slot == None::<T>,
        // steal_mut
        guard.wf(),
        guard@ == *slot,
        *guard.slot() == None::<T>,
        *final(slot) == *final(guard.slot()),
        // release
        *final(guard.slot()) == guard@,
    ensures
        guard@ is None,
        *final(slot) == None::<T>,
{
}

} // verus!
