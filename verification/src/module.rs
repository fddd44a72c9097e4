use vstd::prelude::*;

verus! {

/// A module of the chain, reached through a runner that it borrows.
pub trait Module<'a, R>: Sized {
    /// The module, reached through `runner`.
    fn new(runner: &'a R) -> Self;
}

} // verus!
