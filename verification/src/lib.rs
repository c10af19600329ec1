//! Guards for taking the value out of an `Option` for a while.
//!
//! Code that keeps a value in an `Option` only so that it can be moved out
//! and put back wants the option to be `Some` whenever nobody is working on
//! it. The two guards of this crate borrow such an option exclusively while it
//! is empty and say, in their contracts, what it holds once the borrow ends:
//!
//! * [`OptionGuard`] holds no value. The value goes to the caller, and
//!   [`OptionGuard::restore`] is the only way to fill the option again.
//! * [`OptionGuardMut`] keeps the value itself, gives access to it, and hands
//!   it back to the option when it is released or goes out of scope, unless
//!   [`OptionGuardMut::into_inner`] took the value away.
//!
//! Both are made by the methods of [`EmptyOptionExt`] on `Option<T>`.
pub mod guard;
pub mod guard_mut;
pub mod ext;
pub mod laws;

pub use crate::ext::EmptyOptionExt;
pub use crate::guard::OptionGuard;
pub use crate::guard_mut::OptionGuardMut;
