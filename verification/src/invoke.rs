//! The continuation mechanism: a single-shot callback that a builder invokes
//! exactly once with its finished value.
//!
//! A builder used standalone carries the [`Identity`] continuation and its
//! terminal operation hands the finished value straight back. A sub-builder
//! carries its parent builder as the continuation, so that finishing the
//! sub-builder resumes the parent with the produced value. Each implementor
//! states what its invocation guarantees through the two specification
//! functions [`Invoke::pre`] and [`Invoke::post`].

use vstd::prelude::*;

verus! {

/// A continuation over finished values of type `A`.
pub trait Invoke<A: View>: Sized {
    /// What invoking the continuation yields.
    type Result;

    /// What the continuation demands of the finished value handed to it.
    spec fn pre(self, arg: A::V) -> bool;

    /// How the continuation's result relates to the finished value.
    spec fn post(self, arg: A::V, res: Self::Result) -> bool;

    /// Consumes the continuation, handing it the finished value.
    fn invoke(self, arg: A) -> (res: Self::Result)
        requires
            self.pre(arg@),
        ensures
            self.post(arg@, res),
    ;
}

/// The identity continuation: invoking it returns the finished value itself.
#[derive(Clone, Copy, PartialEq, Eq, Structural)]
pub struct Identity;

impl<A: View> Invoke<A> for Identity {
    type Result = A;

    open spec fn pre(self, arg: A::V) -> bool {
        true
    }

    open spec fn post(self, arg: A::V, res: A) -> bool {
        res@ == arg
    }

    fn invoke(self, arg: A) -> (res: A) {
        arg
    }
}

} // verus!
