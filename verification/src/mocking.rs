//! Small traits for callers to stand in for, and two functions that call one
//! of them with fixed arguments.

use vstd::prelude::*;

verus! {

/// A service with two operations on numbers.
pub trait MyTrait {
    /// Whether `foo` may return `result` for `x`: any number, unless the
    /// service says more of itself.
    open spec fn foo_may_return(&self, x: u32, result: u32) -> bool {
        true
    }

    /// Whether `bar` may return `result` for `x` and `y`: any number, unless
    /// the service says more of itself.
    open spec fn bar_may_return(&self, x: u32, y: u32, result: u32) -> bool {
        true
    }

    fn foo(&self, x: u32) -> (result: u32)
        ensures
            self.foo_may_return(x, result),
    ;

    fn bar(&self, x: u32, y: u32) -> (result: u32)
        ensures
            self.bar_may_return(x, y, result),
    ;
}

/// A value that cannot be copied: it can be handed over once.
pub struct NonClonable();

/// A service that hands out a value that cannot be copied.
pub trait SecondTrait {
    fn foo(&self) -> NonClonable;
}

/// A service with one operation on numbers.
pub trait ThirdTrait {
    fn foo(&self, x: u32) -> u32;
}

/// Calls `foo` of the service with 4, once, and returns what it gave.
pub fn call_foo_with_four(x: &dyn MyTrait) -> (result: u32)
    ensures
        x.foo_may_return(4, result),
{
    x.foo(4)
}

/// Calls `bar` of the service with 4 and 4, once, and returns what it gave.
pub fn call_bar_with_four(x: &dyn MyTrait) -> (result: u32)
    ensures
        x.bar_may_return(4, 4, result),
{
    x.bar(4, 4)
}

} // verus!
