//! Signature requests and the sub-builders that compose them.
//!
//! A [`Signature`] is what a caller hands the index resolver: either a fresh
//! function type to be registered inline, or a reference to an existing type
//! index. The sub-builders here accumulate one function type, or an ordered
//! batch of signatures, and hand the finished value to their continuation.

use vstd::prelude::*;

use crate::elements::{FuncBody, FunctionType, ValueType};
use crate::invoke::{Identity, Invoke};

verus! {

/// A signature request, consumed exactly once by the index resolver:
/// register this fresh function type inline, or reuse an existing type index.
pub enum Signature {
    TypeReference(u32),
    Inline(FunctionType),
}

/// An ordered batch of signature requests.
pub type SignatureBindings = Vec<Signature>;

/// A whole function: its signature request paired with its compiled body.
pub struct FunctionDefinition {
    pub signature: Signature,
    pub code: FuncBody,
}

/// Accumulates one function type and hands it to its continuation.
pub struct SignatureBuilder<F = Identity> {
    callback: F,
    signature: FunctionType,
}

impl<F> SignatureBuilder<F> {
    /// The function type accumulated so far.
    pub closed spec fn signature_view(&self) -> FunctionType {
        self.signature
    }

    /// The continuation the builder was bound to.
    pub closed spec fn callback_view(&self) -> F {
        self.callback
    }
}

impl<F> SignatureBuilder<F> where F: Invoke<FunctionType> {
    /// A builder for a fresh, empty function type, bound to a continuation.
    pub fn with_callback(callback: F) -> (r: SignatureBuilder<F>)
        ensures
            r.signature_view().params@ == Seq::<ValueType>::empty(),
            r.signature_view().return_type is None,
            r.callback_view() == callback,
    {
        SignatureBuilder { callback, signature: FunctionType::new() }
    }

    /// Appends one parameter to the function type.
    pub fn with_param(self, value_type: ValueType) -> (r: SignatureBuilder<F>)
        ensures
            r.signature_view().params@ == self.signature_view().params@.push(value_type),
            r.signature_view().return_type == self.signature_view().return_type,
            r.callback_view() == self.callback_view(),
    {
        let mut this = self;
        this.signature.params.push(value_type);
        this
    }

    /// Sets the function type's result.
    pub fn with_return_type(self, return_type: Option<ValueType>) -> (r: SignatureBuilder<F>)
        ensures
            r.signature_view().params@ == self.signature_view().params@,
            r.signature_view().return_type == return_type,
            r.callback_view() == self.callback_view(),
    {
        let mut this = self;
        this.signature.return_type = return_type;
        this
    }

    /// Finishes the function type and hands it to the continuation.
    pub fn build(self) -> (r: F::Result)
        requires
            self.callback_view().pre(self.signature_view()),
        ensures
            self.callback_view().post(self.signature_view(), r),
    {
        self.callback.invoke(self.signature)
    }
}

/// Accumulates an ordered batch of signature requests and hands it to its
/// continuation.
pub struct SignaturesBuilder<F = Identity> {
    callback: F,
    section: Vec<Signature>,
}

impl<F> SignaturesBuilder<F> {
    /// The batch of signature requests accumulated so far, in order.
    pub closed spec fn bindings_view(&self) -> Seq<Signature> {
        self.section@
    }

    /// The continuation the builder was bound to.
    pub closed spec fn callback_view(&self) -> F {
        self.callback
    }
}

impl<F> SignaturesBuilder<F> where F: Invoke<SignatureBindings> {
    /// An empty batch, bound to a continuation.
    pub fn with_callback(callback: F) -> (r: SignaturesBuilder<F>)
        ensures
            r.bindings_view() == Seq::<Signature>::empty(),
            r.callback_view() == callback,
    {
        SignaturesBuilder { callback, section: Vec::new() }
    }

    /// Appends one signature request to the batch.
    pub fn with_signature(self, signature: Signature) -> (r: SignaturesBuilder<F>)
        ensures
            r.bindings_view() == self.bindings_view().push(signature),
            r.callback_view() == self.callback_view(),
    {
        let mut this = self;
        this.section.push(signature);
        this
    }

    /// Appends a reference to an existing type index.
    pub fn type_ref(self, type_ref: u32) -> (r: SignaturesBuilder<F>)
        ensures
            r.bindings_view() == self.bindings_view().push(Signature::TypeReference(type_ref)),
            r.callback_view() == self.callback_view(),
    {
        self.with_signature(Signature::TypeReference(type_ref))
    }

    /// Opens a sub-builder for one inline function type; its terminal
    /// operation appends the finished type to this batch.
    pub fn signature(self) -> (r: SignatureBuilder<SignaturesBuilder<F>>)
        ensures
            r.signature_view().params@ == Seq::<ValueType>::empty(),
            r.signature_view().return_type is None,
            r.callback_view() == self,
    {
        SignatureBuilder::with_callback(self)
    }

    /// Finishes the batch and hands it to the continuation.
    pub fn bind(self) -> (r: F::Result)
        requires
            self.callback_view().pre(self.bindings_view()),
        ensures
            self.callback_view().post(self.bindings_view(), r),
    {
        self.callback.invoke(self.section)
    }
}

impl<F> Invoke<FunctionType> for SignaturesBuilder<F> where F: Invoke<SignatureBindings> {
    type Result = SignaturesBuilder<F>;

    open spec fn pre(self, func_type: FunctionType) -> bool {
        true
    }

    open spec fn post(self, func_type: FunctionType, res: SignaturesBuilder<F>) -> bool {
        &&& res.bindings_view() == self.bindings_view().push(Signature::Inline(func_type))
        &&& res.callback_view() == self.callback_view()
    }

    fn invoke(self, func_type: FunctionType) -> (res: SignaturesBuilder<F>) {
        self.with_signature(Signature::Inline(func_type))
    }
}

} // verus!
