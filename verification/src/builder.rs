//! The module builder: owns a scaffold and a continuation, exposes chained
//! mutation operations that keep the tracked slots consistent, and a terminal
//! build operation that reassembles the scaffold and hands the finished
//! module to the continuation.

use vstd::prelude::*;

use crate::code::{FunctionDefinition, Signature, SignatureBindings, SignaturesBuilder};
use crate::elements::{
    first_functions_entries, first_type_entries, sections_view, Func, FuncBody, FunctionType,
    FunctionsSection, ImportEntry, Module, Section, SectionView, Type,
};
use crate::import::ImportBuilder;
use crate::invoke::{Identity, Invoke};
use crate::scaffold::{empty_scaffold, decompose, reassemble, ModuleScaffold, ScaffoldView};

verus! {

/// The index the resolver assigns to a signature request: a fresh index at
/// the end of the type slot for an inline type, the referenced index —
/// unchecked — for a type reference.
pub open spec fn resolve_index(sc: ScaffoldView, signature: Signature) -> u32 {
    match signature {
        Signature::Inline(_) => sc.types.len() as u32,
        Signature::TypeReference(type_ref) => type_ref,
    }
}

/// The type slot after resolving a signature request: an inline type is
/// appended (never deduplicated), a type reference leaves the slot untouched.
pub open spec fn resolve_types(sc: ScaffoldView, signature: Signature) -> ScaffoldView {
    match signature {
        Signature::Inline(func_type) => ScaffoldView {
            types: sc.types.push(Type::Function(func_type)),
            ..sc
        },
        Signature::TypeReference(_) => sc,
    }
}

/// The scaffold after appending one function declaration for a signature
/// request: the request is resolved, then one entry carrying the resolved
/// index is appended to the function-declarations slot.
pub open spec fn push_signature_spec(sc: ScaffoldView, signature: Signature) -> ScaffoldView {
    let resolved = resolve_types(sc, signature);
    ScaffoldView {
        functions: resolved.functions.push(Func { type_ref: resolve_index(sc, signature) }),
        ..resolved
    }
}

/// The scaffold after appending one function declaration per signature
/// request, in order.
pub open spec fn push_signatures_spec(sc: ScaffoldView, signatures: Seq<Signature>) -> ScaffoldView
    decreases signatures.len(),
{
    if signatures.len() == 0 {
        sc
    } else {
        push_signature_spec(push_signatures_spec(sc, signatures.drop_last()), signatures.last())
    }
}

/// The function indices assigned to a batch of signature requests: one per
/// request, consecutive, starting at the prior length of the
/// function-declarations slot.
pub open spec fn assigned_indices(sc: ScaffoldView, signatures: Seq<Signature>) -> Seq<u32> {
    Seq::new(signatures.len(), |k: int| (sc.functions.len() + k) as u32)
}

/// How many of a batch of signature requests are inline types.
pub open spec fn inline_count(signatures: Seq<Signature>) -> nat
    decreases signatures.len(),
{
    if signatures.len() == 0 {
        0
    } else {
        inline_count(signatures.drop_last()) + (if signatures.last() is Inline {
            1nat
        } else {
            0nat
        })
    }
}

/// The scaffold after appending a whole function: the signature request is
/// resolved, one function declaration carrying the resolved index and the
/// compiled body are appended, advancing the function-declarations slot and
/// the code slot together.
pub open spec fn push_function_spec(
    sc: ScaffoldView,
    signature: Signature,
    body: FuncBody,
) -> ScaffoldView {
    let declared = push_signature_spec(sc, signature);
    ScaffoldView { code: declared.code.push(body), ..declared }
}

/// The scaffold after appending one untracked section verbatim.
pub open spec fn add_section_spec(sc: ScaffoldView, section: SectionView) -> ScaffoldView {
    ScaffoldView { other: sc.other.push(section), ..sc }
}

/// The scaffold after appending one import entry.
pub open spec fn add_import_spec(sc: ScaffoldView, entry: ImportEntry) -> ScaffoldView {
    ScaffoldView { imports: sc.imports.push(entry), ..sc }
}

/// Module builder: a scaffold plus the continuation that receives the
/// reassembled module. Mutation operations keep the slots' index bookkeeping
/// consistent; `build` consumes the builder, so no operation can follow it.
pub struct ModuleBuilder<F = Identity> {
    callback: F,
    module: ModuleScaffold,
}

/// Location of a function appended whole to a module: the index of its
/// declaration in the function-declarations slot, paired with the index of
/// its body in the code slot. The pair stays meaningful only while the two
/// slots are advanced in lockstep.
#[derive(Clone, Copy, Debug, PartialEq, Eq, Structural)]
pub struct CodeLocation {
    /// Location (index in the function-declarations slot) of the signature.
    pub signature: u32,
    /// Location (index in the code slot) of the body.
    pub body: u32,
}

impl<F> ModuleBuilder<F> {
    /// The content of the owned scaffold.
    pub closed spec fn scaffold_view(&self) -> ScaffoldView {
        self.module@
    }

    /// The continuation the builder was bound to.
    pub closed spec fn callback_view(&self) -> F {
        self.callback
    }
}

impl ModuleBuilder<Identity> {
    /// New empty module builder returning the built module itself.
    pub fn new() -> (r: ModuleBuilder<Identity>)
        ensures
            r.scaffold_view() == empty_scaffold(),
            r.callback_view() == Identity,
    {
        ModuleBuilder::with_callback(Identity)
    }
}

impl<F> ModuleBuilder<F> where F: Invoke<Module> {
    /// New module builder with an empty scaffold, bound to a continuation.
    pub fn with_callback(callback: F) -> (r: ModuleBuilder<F>)
        ensures
            r.scaffold_view() == empty_scaffold(),
            r.callback_view() == callback,
    {
        ModuleBuilder { callback, module: ModuleScaffold::default() }
    }

    /// Replaces the scaffold with one decomposed from an existing module,
    /// discarding anything accumulated so far.
    pub fn with_module(self, module: Module) -> (r: ModuleBuilder<F>)
        ensures
            r.scaffold_view() == decompose(module@),
            r.callback_view() == self.callback_view(),
    {
        let mut this = self;
        this.module = ModuleScaffold::from_module(module);
        this
    }

    /// Appends untracked sections verbatim, preserving their order.
    pub fn with_sections(self, sections: Vec<Section>) -> (r: ModuleBuilder<F>)
        ensures
            r.scaffold_view() == (ScaffoldView {
                other: self.scaffold_view().other + sections_view(sections@),
                ..self.scaffold_view()
            }),
            r.callback_view() == self.callback_view(),
    {
        let mut this = self;
        let mut sections = sections;
        let ghost sc = this.module@;
        let ghost added = sections_view(sections@);
        this.module.other.append(&mut sections);
        proof {
            assert(this.module@ =~= (ScaffoldView { other: sc.other + added, ..sc }));
        }
        this
    }

    /// Appends one untracked section verbatim.
    pub fn with_section(self, section: Section) -> (r: ModuleBuilder<F>)
        ensures
            r.scaffold_view() == add_section_spec(self.scaffold_view(), section@),
            r.callback_view() == self.callback_view(),
    {
        let mut this = self;
        let ghost sc = this.module@;
        let ghost added = section@;
        this.module.other.push(section);
        proof {
            assert(this.module@ =~= add_section_spec(sc, added));
        }
        this
    }

    /// Appends one import entry.
    pub fn with_import(self, entry: ImportEntry) -> (r: ModuleBuilder<F>)
        ensures
            r.scaffold_view() == add_import_spec(self.scaffold_view(), entry),
            r.callback_view() == self.callback_view(),
    {
        let mut this = self;
        let ghost sc = this.module@;
        let ghost added = entry;
        this.module.import.entries.push(entry);
        proof {
            assert(this.module@ =~= add_import_spec(sc, added));
        }
        this
    }

    /// Resolves a signature request to a type index: an inline type is
    /// appended to the type slot and assigned the fresh last index; a type
    /// reference is returned unchanged and the type slot is untouched — the
    /// referenced index is not checked to be in range.
    pub fn resolve_type_ref(&mut self, signature: Signature) -> (r: u32)
        requires
            signature is Inline ==> old(self).scaffold_view().types.len() < u32::MAX,
        ensures
            r == resolve_index(old(self).scaffold_view(), signature),
            final(self).scaffold_view() == resolve_types(old(self).scaffold_view(), signature),
            final(self).callback_view() == old(self).callback_view(),
    {
        let ghost sc = self.module@;
        match signature {
            Signature::Inline(func_type) => {
                let index = self.module.types.entries.len() as u32;
                self.module.types.entries.push(Type::Function(func_type));
                proof {
                    assert(self.module@ =~= resolve_types(sc, signature));
                }
                index
            },
            Signature::TypeReference(type_ref) => type_ref,
        }
    }

    /// Appends one function declaration for a signature request, returning
    /// the declaration's index in the function-declarations slot.
    pub fn push_signature(&mut self, signature: Signature) -> (r: u32)
        requires
            signature is Inline ==> old(self).scaffold_view().types.len() < u32::MAX,
            old(self).scaffold_view().functions.len() < u32::MAX,
        ensures
            r == old(self).scaffold_view().functions.len(),
            final(self).scaffold_view() == push_signature_spec(
                old(self).scaffold_view(),
                signature,
            ),
            final(self).callback_view() == old(self).callback_view(),
    {
        let ghost sc = self.module@;
        let type_ref = self.resolve_type_ref(signature);
        let index = self.module.functions.entries.len() as u32;
        self.module.functions.entries.push(Func::new(type_ref));
        proof {
            assert(self.module@ =~= push_signature_spec(sc, signature));
        }
        index
    }

    /// Appends one function declaration per signature request, in order,
    /// returning the assigned function indices, one per request, in the same
    /// order. Inline types are numbered in the order given.
    pub fn push_signatures(&mut self, signatures: SignatureBindings) -> (r: Vec<u32>)
        requires
            old(self).scaffold_view().types.len() + inline_count(signatures@) <= u32::MAX,
            old(self).scaffold_view().functions.len() + signatures@.len() <= u32::MAX,
        ensures
            final(self).scaffold_view() == push_signatures_spec(
                old(self).scaffold_view(),
                signatures@,
            ),
            r@ == assigned_indices(old(self).scaffold_view(), signatures@),
            final(self).callback_view() == old(self).callback_view(),
    {
        let ghost sc0 = self.module@;
        let ghost cb0 = self.callback_view();
        let ghost all = signatures@;
        let mut signatures = signatures;
        let mut result: Vec<u32> = Vec::new();
        let ghost mut k: int = 0;
        proof {
            assert(all.take(0) =~= Seq::<Signature>::empty());
            assert(all.skip(0) =~= all);
            assert(result@ =~= assigned_indices(sc0, all).take(0));
            lemma_inline_count_take_le(all, 0);
        }
        while signatures.len() > 0
            invariant
                0 <= k <= all.len(),
                signatures@ == all.skip(k),
                self.scaffold_view() == push_signatures_spec(sc0, all.take(k)),
                self.scaffold_view().types.len() == sc0.types.len() + inline_count(all.take(k)),
                self.scaffold_view().functions.len() == sc0.functions.len() + k,
                self.callback_view() == cb0,
                result@ == assigned_indices(sc0, all).take(k),
                sc0.types.len() + inline_count(all) <= u32::MAX,
                sc0.functions.len() + all.len() <= u32::MAX,
            decreases signatures.len(),
        {
            proof {
                assert(signatures@[0] == all[k]);
                assert(all.take(k + 1).drop_last() =~= all.take(k));
                assert(all.take(k + 1).last() == all[k]);
                lemma_inline_count_take_le(all, k + 1);
            }
            let ghost prev = signatures@;
            let signature = signatures.remove(0);
            proof {
                assert(signatures@ =~= prev.drop_first());
                assert(signatures@ =~= all.skip(k + 1));
            }
            let index = self.push_signature(signature);
            result.push(index);
            proof {
                k = k + 1;
                assert(result@ =~= assigned_indices(sc0, all).take(k));
            }
        }
        proof {
            assert(all.take(k) =~= all);
            assert(result@ =~= assigned_indices(sc0, all));
        }
        result
    }

    /// Appends function declarations for a batch of signature requests,
    /// keeping the builder chainable.
    pub fn with_signatures(self, bindings: SignatureBindings) -> (r: ModuleBuilder<F>)
        requires
            self.scaffold_view().types.len() + inline_count(bindings@) <= u32::MAX,
            self.scaffold_view().functions.len() + bindings@.len() <= u32::MAX,
        ensures
            r.scaffold_view() == push_signatures_spec(self.scaffold_view(), bindings@),
            r.callback_view() == self.callback_view(),
    {
        let mut this = self;
        let _ = this.push_signatures(bindings);
        this
    }

    /// Appends a whole function: resolves its signature request, appends one
    /// function declaration and its compiled body, and returns the two newly
    /// assigned indices as a [`CodeLocation`]. This is the only operation
    /// that advances the function-declarations slot and the code slot
    /// together.
    pub fn push_function(&mut self, func: FunctionDefinition) -> (r: CodeLocation)
        requires
            func.signature is Inline ==> old(self).scaffold_view().types.len() < u32::MAX,
            old(self).scaffold_view().functions.len() < u32::MAX,
            old(self).scaffold_view().code.len() < u32::MAX,
        ensures
            final(self).scaffold_view() == push_function_spec(
                old(self).scaffold_view(),
                func.signature,
                func.code,
            ),
            r.signature == old(self).scaffold_view().functions.len(),
            r.body == old(self).scaffold_view().code.len(),
            final(self).callback_view() == old(self).callback_view(),
    {
        let ghost sc = self.module@;
        let ghost fsig = func.signature;
        let ghost fbody = func.code;
        let FunctionDefinition { signature, code: body } = func;
        let signature_index = self.push_signature(signature);
        let body_index = self.module.code.bodies.len() as u32;
        self.module.code.bodies.push(body);
        proof {
            assert(self.module@ =~= push_function_spec(sc, fsig, fbody));
        }
        CodeLocation { signature: signature_index, body: body_index }
    }

    /// Opens a sub-builder for a batch of signatures; its terminal `bind`
    /// resumes this builder with the batch appended.
    pub fn functions(self) -> (r: SignaturesBuilder<ModuleBuilder<F>>)
        ensures
            r.bindings_view() == Seq::<Signature>::empty(),
            r.callback_view() == self,
    {
        SignaturesBuilder::with_callback(self)
    }

    /// Opens a sub-builder for one import entry; its terminal `build`
    /// resumes this builder with the entry appended.
    pub fn import(self) -> (r: ImportBuilder<ModuleBuilder<F>>)
        ensures
            r.module_view()@ == Seq::<char>::empty(),
            r.field_view()@ == Seq::<char>::empty(),
            r.callback_view() == self,
    {
        ImportBuilder::with_callback(self)
    }

    /// Builds the module (final step): reassembles the scaffold into an
    /// ordered section list and hands the finished module to the
    /// continuation, consuming the builder.
    pub fn build(self) -> (r: F::Result)
        requires
            self.callback_view().pre(reassemble(self.scaffold_view())),
        ensures
            self.callback_view().post(reassemble(self.scaffold_view()), r),
    {
        let ModuleBuilder { callback, module } = self;
        callback.invoke(module.into_module())
    }
}

/// How many inline requests a prefix of a batch holds: never more than the
/// whole batch.
pub proof fn lemma_inline_count_take_le(signatures: Seq<Signature>, k: int)
    requires
        0 <= k <= signatures.len(),
    ensures
        inline_count(signatures.take(k)) <= inline_count(signatures),
    decreases signatures.len(),
{
    if k == signatures.len() {
        assert(signatures.take(k) =~= signatures);
    } else {
        assert(signatures.drop_last().take(k) =~= signatures.take(k));
        lemma_inline_count_take_le(signatures.drop_last(), k);
    }
}

/// Law: a batch of inline signature requests is assigned strictly
/// consecutive fresh type indices, starting at the prior length of the type
/// slot, and the type slot grows by exactly one entry per request — inline
/// types are never deduplicated.
pub proof fn lemma_inline_signatures_fresh_types(sc: ScaffoldView, signatures: Seq<Signature>)
    requires
        forall|k: int| 0 <= k < signatures.len() ==> #[trigger] signatures[k] is Inline,
        sc.types.len() + signatures.len() <= u32::MAX,
    ensures
        push_signatures_spec(sc, signatures).types.len() == sc.types.len() + signatures.len(),
        forall|k: int| 0 <= k < signatures.len() ==> resolve_index(
            push_signatures_spec(sc, #[trigger] signatures.take(k)),
            signatures[k],
        ) == sc.types.len() + k,
    decreases signatures.len(),
{
    if signatures.len() > 0 {
        let n = signatures.len() as int;
        let head = signatures.drop_last();
        lemma_inline_signatures_fresh_types(sc, head);
        assert forall|k: int| 0 <= k < n implies resolve_index(
            push_signatures_spec(sc, #[trigger] signatures.take(k)),
            signatures[k],
        ) == sc.types.len() + k by {
            assert(signatures.take(k) =~= head.take(k));
            if k < n - 1 {
                assert(head[k] == signatures[k]);
            } else {
                assert(signatures.take(k) =~= head);
            }
        }
    }
}

/// Resuming a module builder with a finished batch of signatures appends
/// the batch, as `with_signatures` does.
impl<F> Invoke<SignatureBindings> for ModuleBuilder<F> where F: Invoke<Module> {
    type Result = ModuleBuilder<F>;

    open spec fn pre(self, bindings: Seq<Signature>) -> bool {
        &&& self.scaffold_view().types.len() + inline_count(bindings) <= u32::MAX
        &&& self.scaffold_view().functions.len() + bindings.len() <= u32::MAX
    }

    open spec fn post(self, bindings: Seq<Signature>, res: ModuleBuilder<F>) -> bool {
        &&& res.scaffold_view() == push_signatures_spec(self.scaffold_view(), bindings)
        &&& res.callback_view() == self.callback_view()
    }

    fn invoke(self, bindings: SignatureBindings) -> (res: ModuleBuilder<F>) {
        self.with_signatures(bindings)
    }
}

/// Resuming a module builder with a finished import entry appends the entry,
/// as `with_import` does.
impl<F> Invoke<ImportEntry> for ModuleBuilder<F> where F: Invoke<Module> {
    type Result = ModuleBuilder<F>;

    open spec fn pre(self, entry: ImportEntry) -> bool {
        true
    }

    open spec fn post(self, entry: ImportEntry, res: ModuleBuilder<F>) -> bool {
        &&& res.scaffold_view() == add_import_spec(self.scaffold_view(), entry)
        &&& res.callback_view() == self.callback_view()
    }

    fn invoke(self, entry: ImportEntry) -> (res: ModuleBuilder<F>) {
        self.with_import(entry)
    }
}

/// Resuming a module builder with a finished function-declarations section
/// appends it verbatim as an untracked section.
impl<F> Invoke<FunctionsSection> for ModuleBuilder<F> where F: Invoke<Module> {
    type Result = ModuleBuilder<F>;

    open spec fn pre(self, section: Seq<Func>) -> bool {
        true
    }

    open spec fn post(self, section: Seq<Func>, res: ModuleBuilder<F>) -> bool {
        &&& res.scaffold_view() == add_section_spec(
            self.scaffold_view(),
            SectionView::Function(section),
        )
        &&& res.callback_view() == self.callback_view()
    }

    fn invoke(self, section: FunctionsSection) -> (res: ModuleBuilder<F>) {
        self.with_section(Section::Function(section))
    }
}

/// Law: seeding a builder from an existing module, appending one more
/// function with an inline signature, and reassembling yields a type section
/// and a function-declarations section that each grew by exactly one entry:
/// the new inline type at the end of the type section, and a declaration
/// referencing it at the end of the function-declarations section.
pub proof fn lemma_seed_then_push_function(
    sections: Seq<SectionView>,
    func_type: FunctionType,
    body: FuncBody,
)
    ensures
        ({
            let seeded = decompose(sections);
            let grown = push_function_spec(seeded, Signature::Inline(func_type), body);
            let out = reassemble(grown);
            &&& grown.types == seeded.types.push(Type::Function(func_type))
            &&& grown.functions == seeded.functions.push(
                (Func { type_ref: resolve_index(seeded, Signature::Inline(func_type)) }),
            )
            &&& first_type_entries(out) == Some(grown.types)
            &&& first_functions_entries(out) == Some(grown.functions)
        }),
{
    let seeded = decompose(sections);
    let grown = push_function_spec(seeded, Signature::Inline(func_type), body);
    let out = reassemble(grown);
    assert(grown.types.len() > 0);
    assert(grown.functions.len() > 0);
    assert(out[0] == SectionView::Type(grown.types));
    assert(out[1] == SectionView::Function(grown.functions));
    assert(first_type_entries(out) == Some(grown.types));
    assert(out.drop_first()[0] == out[1]);
    assert(first_functions_entries(out.drop_first()) == Some(grown.functions));
    assert(first_functions_entries(out) == Some(grown.functions));
}

/// Start new module builder.
pub fn module() -> (r: ModuleBuilder<Identity>)
    ensures
        r.scaffold_view() == empty_scaffold(),
        r.callback_view() == Identity,
{
    ModuleBuilder::new()
}

/// Start builder to extend existing module.
pub fn from_module(module: Module) -> (r: ModuleBuilder<Identity>)
    ensures
        r.scaffold_view() == decompose(module@),
        r.callback_view() == Identity,
{
    ModuleBuilder::new().with_module(module)
}

} // verus!

