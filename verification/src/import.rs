//! The sub-builder that composes one import entry.

use vstd::prelude::*;

use crate::elements::ImportEntry;
use crate::invoke::{Identity, Invoke};

verus! {

/// Accumulates the two-level path of one import entry and hands the finished
/// entry to its continuation.
pub struct ImportBuilder<F = Identity> {
    callback: F,
    module: String,
    field: String,
}

impl<F> ImportBuilder<F> {
    /// The module part of the path accumulated so far.
    pub closed spec fn module_view(&self) -> String {
        self.module
    }

    /// The field part of the path accumulated so far.
    pub closed spec fn field_view(&self) -> String {
        self.field
    }

    /// The continuation the builder was bound to.
    pub closed spec fn callback_view(&self) -> F {
        self.callback
    }
}

impl<F> ImportBuilder<F> where F: Invoke<ImportEntry> {
    /// A builder for an entry with an empty path, bound to a continuation.
    pub fn with_callback(callback: F) -> (r: ImportBuilder<F>)
        ensures
            r.module_view()@ == Seq::<char>::empty(),
            r.field_view()@ == Seq::<char>::empty(),
            r.callback_view() == callback,
    {
        ImportBuilder { callback, module: String::new(), field: String::new() }
    }

    /// Sets the two-level path the entry is imported from.
    pub fn path(self, module: String, field: String) -> (r: ImportBuilder<F>)
        ensures
            r.module_view() == module,
            r.field_view() == field,
            r.callback_view() == self.callback_view(),
    {
        let mut this = self;
        this.module = module;
        this.field = field;
        this
    }

    /// Finishes the entry and hands it to the continuation.
    pub fn build(self) -> (r: F::Result)
        requires
            self.callback_view().pre(
                (ImportEntry { module: self.module_view(), field: self.field_view() }),
            ),
        ensures
            self.callback_view().post(
                (ImportEntry { module: self.module_view(), field: self.field_view() }),
                r,
            ),
    {
        let entry = ImportEntry { module: self.module, field: self.field };
        self.callback.invoke(entry)
    }
}

} // verus!
