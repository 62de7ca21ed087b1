//! Type-level stages of typed builders.
//!
//! A builder carries one type parameter per required method: it is
//! `RequiredMethodNotCalled<M>` until method `M` has been called and `MethodCalled<M>`
//! afterwards. `build` is defined only when every parameter is `MethodCalled`.
use vstd::prelude::*;

use std::marker::PhantomData;

verus! {

/// The stage of a builder in which the required method `M` has been called.
#[derive(Debug)]
pub struct MethodCalled<M>(PhantomData<M>);

/// The stage of a builder in which the required method `M` has not been
/// called yet.
#[derive(Debug)]
pub struct RequiredMethodNotCalled<M>(PhantomData<M>);

/// A builder stage, as seen by proofs.
pub trait Stage {
    /// Whether the required method of this stage has been called.
    spec fn is_set() -> bool;
}

impl<M> Stage for MethodCalled<M> {
    open spec fn is_set() -> bool {
        true
    }
}

impl<M> Stage for RequiredMethodNotCalled<M> {
    open spec fn is_set() -> bool {
        false
    }
}

} // verus!
