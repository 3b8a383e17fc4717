//! The executable body of a program.

use vstd::prelude::*;

verus! {

/// A unit of work that is started without arguments.
///
/// Every closure without arguments is one. What a program holds is opaque
/// to the library but for two facts: whether the work may be started, and
/// what holds once a call of it has returned.
pub trait Action {
    /// Whether the work may be started.
    spec fn callable(&self) -> bool;

    /// What holds once a call has returned.
    spec fn completed(&self) -> bool;

    /// Starts the work and returns when it is done.
    fn invoke(&self)
        requires
            self.callable(),
        ensures
            self.completed(),
    ;
}

impl<F: Fn()> Action for F {
    open spec fn callable(&self) -> bool {
        call_requires(*self, ())
    }

    open spec fn completed(&self) -> bool {
        call_ensures(*self, (), ())
    }

    fn invoke(&self) {
        self()
    }
}

} // verus!
