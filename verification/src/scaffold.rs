//! The scaffold: the mutable, decomposed working representation of a module.
//!
//! Decomposing a module sorts its sections into four independently mutable
//! slots — types, function declarations, imports, code — and an ordered list
//! of all remaining sections, kept verbatim. Reassembling emits the slots in
//! a fixed order (type, function, import, code, each omitted when empty),
//! followed by the untouched sections in their stored order. The code slot is
//! re-emitted between the import slot and the untouched sections, so that the
//! bodies accumulated during construction end up in the output.

use vstd::prelude::*;

use crate::elements::{
    first_code_bodies, first_functions_entries, first_import_entries, first_type_entries,
    sections_view, CodeSection, Func, FuncBody, FunctionsSection, ImportEntry, ImportSection,
    Module, Section, SectionView, Type, TypeSection,
};

verus! {

/// The mutable intermediate representation of a module under construction.
pub struct ModuleScaffold {
    pub types: TypeSection,
    pub functions: FunctionsSection,
    pub import: ImportSection,
    pub code: CodeSection,
    pub other: Vec<Section>,
}

/// The mathematical content of a scaffold: the entries of the four tracked
/// slots and the content of the untouched sections, in their stored order.
#[verifier::ext_equal]
pub struct ScaffoldView {
    pub types: Seq<Type>,
    pub functions: Seq<Func>,
    pub imports: Seq<ImportEntry>,
    pub code: Seq<FuncBody>,
    pub other: Seq<SectionView>,
}

impl View for ModuleScaffold {
    type V = ScaffoldView;

    open spec fn view(&self) -> ScaffoldView {
        ScaffoldView {
            types: self.types.entries@,
            functions: self.functions.entries@,
            imports: self.import.entries@,
            code: self.code.bodies@,
            other: sections_view(self.other@),
        }
    }
}

/// A scaffold with every slot empty.
pub open spec fn empty_scaffold() -> ScaffoldView {
    ScaffoldView {
        types: Seq::empty(),
        functions: Seq::empty(),
        imports: Seq::empty(),
        code: Seq::empty(),
        other: Seq::empty(),
    }
}

/// Whether a section is of one of the four kinds the scaffold tracks in a
/// slot of its own.
pub open spec fn is_tracked(s: SectionView) -> bool {
    ||| s is Type
    ||| s is Function
    ||| s is Import
    ||| s is Code
}

/// Decomposition of an ordered section list into a scaffold: each tracked
/// section fills its slot (the last section of a kind wins if a kind is
/// repeated, though a well-formed module holds at most one of each); every
/// untracked section is appended to `other`, preserving the original order.
pub open spec fn decompose(sections: Seq<SectionView>) -> ScaffoldView
    decreases sections.len(),
{
    if sections.len() == 0 {
        empty_scaffold()
    } else {
        let prev = decompose(sections.drop_last());
        match sections.last() {
            SectionView::Type(entries) => ScaffoldView { types: entries, ..prev },
            SectionView::Function(entries) => ScaffoldView { functions: entries, ..prev },
            SectionView::Import(entries) => ScaffoldView { imports: entries, ..prev },
            SectionView::Code(bodies) => ScaffoldView { code: bodies, ..prev },
            _ => ScaffoldView { other: prev.other.push(sections.last()), ..prev },
        }
    }
}

/// Reassembly of a scaffold into an ordered section list: type, function,
/// import and code slots in that fixed order, each omitted entirely when
/// empty, followed by the untouched sections in their stored order.
pub open spec fn reassemble(sc: ScaffoldView) -> Seq<SectionView> {
    (if sc.types.len() > 0 {
        seq![SectionView::Type(sc.types)]
    } else {
        Seq::empty()
    }) + (if sc.functions.len() > 0 {
        seq![SectionView::Function(sc.functions)]
    } else {
        Seq::empty()
    }) + (if sc.imports.len() > 0 {
        seq![SectionView::Import(sc.imports)]
    } else {
        Seq::empty()
    }) + (if sc.code.len() > 0 {
        seq![SectionView::Code(sc.code)]
    } else {
        Seq::empty()
    }) + sc.other
}

/// The untracked sections of an ordered section list, in their original
/// relative order.
pub open spec fn untracked(sections: Seq<SectionView>) -> Seq<SectionView>
    decreases sections.len(),
{
    if sections.len() == 0 {
        Seq::empty()
    } else {
        untracked(sections.drop_last()) + (if is_tracked(sections.last()) {
            Seq::empty()
        } else {
            seq![sections.last()]
        })
    }
}

/// Law: decomposition keeps every untracked section, in the original
/// relative order.
pub proof fn lemma_decompose_keeps_untracked(sections: Seq<SectionView>)
    ensures
        decompose(sections).other == untracked(sections),
    decreases sections.len(),
{
    if sections.len() == 0 {
        assert(decompose(sections).other =~= untracked(sections));
    } else {
        lemma_decompose_keeps_untracked(sections.drop_last());
        assert(decompose(sections).other =~= untracked(sections));
    }
}

/// Decomposing a section list that ends in untracked sections fills the
/// slots from the head alone and appends the tail to `other` verbatim.
pub proof fn lemma_decompose_untracked_tail(head: Seq<SectionView>, rest: Seq<SectionView>)
    requires
        forall|i: int| 0 <= i < rest.len() ==> !is_tracked(#[trigger] rest[i]),
    ensures
        decompose(head + rest) == (ScaffoldView {
            other: decompose(head).other + rest,
            ..decompose(head)
        }),
    decreases rest.len(),
{
    if rest.len() == 0 {
        assert(head + rest =~= head);
        assert(decompose(head).other + rest =~= decompose(head).other);
        assert(decompose(head + rest) =~= (ScaffoldView {
            other: decompose(head).other + rest,
            ..decompose(head)
        }));
    } else {
        lemma_decompose_untracked_tail(head, rest.drop_last());
        assert((head + rest).drop_last() =~= head + rest.drop_last());
        assert((head + rest).last() == rest.last());
        assert(!is_tracked(rest[rest.len() - 1]));
        assert(decompose(head + rest) =~= (ScaffoldView {
            other: decompose(head).other + rest,
            ..decompose(head)
        }));
    }
}

/// Every section that `untracked` keeps is itself untracked.
pub proof fn lemma_untracked_elements(sections: Seq<SectionView>)
    ensures
        forall|i: int|
            0 <= i < untracked(sections).len() ==> !is_tracked(
                #[trigger] untracked(sections)[i],
            ),
    decreases sections.len(),
{
    if sections.len() > 0 {
        let prefix = untracked(sections.drop_last());
        lemma_untracked_elements(sections.drop_last());
        assert forall|i: int| 0 <= i < untracked(sections).len() implies !is_tracked(
            untracked(sections)[i],
        ) by {
            if i < prefix.len() {
                assert(untracked(sections)[i] == prefix[i]);
            } else {
                assert(!is_tracked(sections.last()));
                assert(untracked(sections)[i] == sections.last());
            }
        }
    }
}

/// A section list without a type section has no first type section.
proof fn lemma_no_type_section(l: Seq<SectionView>)
    requires
        forall|i: int| 0 <= i < l.len() ==> !(#[trigger] l[i] is Type),
    ensures
        first_type_entries(l) is None,
    decreases l.len(),
{
    if l.len() > 0 {
        lemma_no_type_section(l.drop_first());
    }
}

/// A section list without a function-declarations section has no first one.
proof fn lemma_no_functions_section(l: Seq<SectionView>)
    requires
        forall|i: int| 0 <= i < l.len() ==> !(#[trigger] l[i] is Function),
    ensures
        first_functions_entries(l) is None,
    decreases l.len(),
{
    if l.len() > 0 {
        lemma_no_functions_section(l.drop_first());
    }
}

/// A section list without an import section has no first import section.
proof fn lemma_no_import_section(l: Seq<SectionView>)
    requires
        forall|i: int| 0 <= i < l.len() ==> !(#[trigger] l[i] is Import),
    ensures
        first_import_entries(l) is None,
    decreases l.len(),
{
    if l.len() > 0 {
        lemma_no_import_section(l.drop_first());
    }
}

/// A section list without a code section has no first code section.
proof fn lemma_no_code_section(l: Seq<SectionView>)
    requires
        forall|i: int| 0 <= i < l.len() ==> !(#[trigger] l[i] is Code),
    ensures
        first_code_bodies(l) is None,
    decreases l.len(),
{
    if l.len() > 0 {
        lemma_no_code_section(l.drop_first());
    }
}

/// In a reassembled section list, the first section of each tracked kind is
/// the scaffold's slot of that kind exactly when the slot is nonempty, and
/// is absent when the slot is empty — provided the scaffold's untouched
/// sections are themselves untracked, as they are for every decomposed
/// module.
proof fn lemma_reassemble_surfaces_slots(sc: ScaffoldView)
    requires
        forall|i: int| 0 <= i < sc.other.len() ==> !is_tracked(#[trigger] sc.other[i]),
    ensures
        first_type_entries(reassemble(sc)) == (if sc.types.len() > 0 {
            Some(sc.types)
        } else {
            None::<Seq<Type>>
        }),
        first_functions_entries(reassemble(sc)) == (if sc.functions.len() > 0 {
            Some(sc.functions)
        } else {
            None::<Seq<Func>>
        }),
        first_import_entries(reassemble(sc)) == (if sc.imports.len() > 0 {
            Some(sc.imports)
        } else {
            None::<Seq<ImportEntry>>
        }),
        first_code_bodies(reassemble(sc)) == (if sc.code.len() > 0 {
            Some(sc.code)
        } else {
            None::<Seq<FuncBody>>
        }),
{
    let out = reassemble(sc);
    let heads = out.len() - sc.other.len();
    assert(out.skip(heads) =~= sc.other);
    if sc.types.len() == 0 {
        assert(forall|i: int| 0 <= i < out.len() ==> !(#[trigger] out[i] is Type));
        lemma_no_type_section(out);
    } else {
        assert(out[0] == SectionView::Type(sc.types));
    }
    if sc.functions.len() == 0 {
        assert(forall|i: int| 0 <= i < out.len() ==> !(#[trigger] out[i] is Function));
        lemma_no_functions_section(out);
    } else {
        let at = if sc.types.len() > 0 { 1int } else { 0int };
        assert(out[at] == SectionView::Function(sc.functions));
        lemma_first_functions_at(out, at);
    }
    if sc.imports.len() == 0 {
        assert(forall|i: int| 0 <= i < out.len() ==> !(#[trigger] out[i] is Import));
        lemma_no_import_section(out);
    } else {
        let at = (if sc.types.len() > 0 { 1int } else { 0int }) + (if sc.functions.len() > 0 {
            1int
        } else {
            0int
        });
        assert(out[at] == SectionView::Import(sc.imports));
        lemma_first_import_at(out, at);
    }
    if sc.code.len() == 0 {
        assert(forall|i: int| 0 <= i < out.len() ==> !(#[trigger] out[i] is Code));
        lemma_no_code_section(out);
    } else {
        let at = (if sc.types.len() > 0 { 1int } else { 0int }) + (if sc.functions.len() > 0 {
            1int
        } else {
            0int
        }) + (if sc.imports.len() > 0 { 1int } else { 0int });
        assert(out[at] == SectionView::Code(sc.code));
        lemma_first_code_at(out, at);
    }
}

/// If the first function-declarations section's position is known and
/// nothing before it is one, the search finds it.
proof fn lemma_first_functions_at(l: Seq<SectionView>, at: int)
    requires
        0 <= at < l.len(),
        l[at] is Function,
        forall|i: int| 0 <= i < at ==> !(#[trigger] l[i] is Function),
    ensures
        first_functions_entries(l) == Some(l[at]->Function_0),
    decreases at,
{
    if at > 0 {
        assert(l.drop_first()[at - 1] == l[at]);
        lemma_first_functions_at(l.drop_first(), at - 1);
    }
}

/// If the first import section's position is known and nothing before it is
/// an import section, the search finds it.
proof fn lemma_first_import_at(l: Seq<SectionView>, at: int)
    requires
        0 <= at < l.len(),
        l[at] is Import,
        forall|i: int| 0 <= i < at ==> !(#[trigger] l[i] is Import),
    ensures
        first_import_entries(l) == Some(l[at]->Import_0),
    decreases at,
{
    if at > 0 {
        assert(l.drop_first()[at - 1] == l[at]);
        lemma_first_import_at(l.drop_first(), at - 1);
    }
}

/// If the first code section's position is known and nothing before it is a
/// code section, the search finds it.
proof fn lemma_first_code_at(l: Seq<SectionView>, at: int)
    requires
        0 <= at < l.len(),
        l[at] is Code,
        forall|i: int| 0 <= i < at ==> !(#[trigger] l[i] is Code),
    ensures
        first_code_bodies(l) == Some(l[at]->Code_0),
    decreases at,
{
    if at > 0 {
        assert(l.drop_first()[at - 1] == l[at]);
        lemma_first_code_at(l.drop_first(), at - 1);
    }
}

/// Law: decomposing any module and immediately reassembling preserves the
/// entries of every tracked kind — each kind surfaces in the output exactly
/// when its slot is nonempty, holding the entries the decomposition
/// collected for it — and keeps every untracked section, in the original
/// relative order, after the tracked ones.
pub proof fn lemma_decompose_reassemble_preserves_entries(sections: Seq<SectionView>)
    ensures
        ({
            let sc = decompose(sections);
            let out = reassemble(sc);
            &&& first_type_entries(out) == (if sc.types.len() > 0 {
                Some(sc.types)
            } else {
                None::<Seq<Type>>
            })
            &&& first_functions_entries(out) == (if sc.functions.len() > 0 {
                Some(sc.functions)
            } else {
                None::<Seq<Func>>
            })
            &&& first_import_entries(out) == (if sc.imports.len() > 0 {
                Some(sc.imports)
            } else {
                None::<Seq<ImportEntry>>
            })
            &&& first_code_bodies(out) == (if sc.code.len() > 0 {
                Some(sc.code)
            } else {
                None::<Seq<FuncBody>>
            })
            &&& out.skip(out.len() - untracked(sections).len()) == untracked(sections)
        }),
{
    let sc = decompose(sections);
    let out = reassemble(sc);
    lemma_decompose_keeps_untracked(sections);
    lemma_untracked_elements(sections);
    lemma_reassemble_surfaces_slots(sc);
    assert(out.skip(out.len() - sc.other.len()) =~= sc.other);
}

/// Law: a module whose sections stand in canonical order — one nonempty
/// type, function, import and code section, followed only by untracked
/// sections — is reproduced exactly by decomposing and immediately
/// reassembling.
pub proof fn lemma_round_trip(
    types: Seq<Type>,
    functions: Seq<Func>,
    imports: Seq<ImportEntry>,
    code: Seq<FuncBody>,
    rest: Seq<SectionView>,
)
    requires
        types.len() > 0,
        functions.len() > 0,
        imports.len() > 0,
        code.len() > 0,
        forall|i: int| 0 <= i < rest.len() ==> !is_tracked(#[trigger] rest[i]),
    ensures
        ({
            let sections = seq![
                SectionView::Type(types),
                SectionView::Function(functions),
                SectionView::Import(imports),
                SectionView::Code(code),
            ] + rest;
            reassemble(decompose(sections)) == sections
        }),
{
    let head = seq![
        SectionView::Type(types),
        SectionView::Function(functions),
        SectionView::Import(imports),
        SectionView::Code(code),
    ];
    let sections = head + rest;
    lemma_decompose_untracked_tail(head, rest);
    let s1 = seq![SectionView::Type(types)];
    let s2 = s1.push(SectionView::Function(functions));
    let s3 = s2.push(SectionView::Import(imports));
    assert(s1.drop_last() =~= Seq::<SectionView>::empty());
    assert(s2.drop_last() =~= s1);
    assert(s3.drop_last() =~= s2);
    assert(head.drop_last() =~= s3);
    assert(s1.last() == SectionView::Type(types));
    assert(decompose(Seq::<SectionView>::empty()) =~= empty_scaffold());
    assert(decompose(s1) =~= (ScaffoldView { types: types, ..empty_scaffold() }));
    assert(s2.last() == SectionView::Function(functions));
    assert(decompose(s2) =~= (ScaffoldView { functions: functions, ..decompose(s1) }));
    assert(s3.last() == SectionView::Import(imports));
    assert(decompose(s3) =~= (ScaffoldView { imports: imports, ..decompose(s2) }));
    assert(head.last() == SectionView::Code(code));
    assert(decompose(head) =~= (ScaffoldView {
        types: types,
        functions: functions,
        imports: imports,
        code: code,
        other: Seq::empty(),
    }));
    assert(reassemble(decompose(sections)) =~= sections);
}

impl Default for ModuleScaffold {
    /// A scaffold with every slot empty.
    fn default() -> (r: ModuleScaffold)
        ensures
            r@ == empty_scaffold(),
    {
        let r = ModuleScaffold {
            types: TypeSection { entries: Vec::new() },
            functions: FunctionsSection { entries: Vec::new() },
            import: ImportSection { entries: Vec::new() },
            code: CodeSection { bodies: Vec::new() },
            other: Vec::new(),
        };
        proof {
            assert(r@ =~= empty_scaffold());
        }
        r
    }
}

impl ModuleScaffold {
    /// Decomposes an existing module into a scaffold.
    pub fn from_module(module: Module) -> (r: ModuleScaffold)
        ensures
            r@ == decompose(module@),
    {
        let ghost all = module@;
        let mut sections = module.into_sections();
        let mut r = ModuleScaffold::default();
        let ghost mut k: int = 0;
        proof {
            assert(all.take(0) =~= Seq::<SectionView>::empty());
            assert(r@ =~= decompose(all.take(0)));
            assert(sections_view(sections@) =~= all.skip(0));
        }
        while sections.len() > 0
            invariant
                0 <= k <= all.len(),
                sections_view(sections@) == all.skip(k),
                r@ == decompose(all.take(k)),
            decreases sections.len(),
        {
            proof {
                assert(all.skip(k).len() == sections@.len());
                assert(sections[0]@ == all.skip(k)[0]);
                assert(all.take(k + 1).drop_last() =~= all.take(k));
                assert(all.take(k + 1).last() == all[k]);
            }
            let ghost prev = sections@;
            let section = sections.remove(0);
            proof {
                assert(sections@ =~= prev.drop_first());
                assert forall|i: int| 0 <= i < sections@.len() implies sections_view(
                    sections@,
                )[i] == all.skip(k + 1)[i] by {
                    assert(sections@[i] == prev[i + 1]);
                    assert(sections_view(prev)[i + 1] == prev[i + 1]@);
                    assert(all.skip(k)[i + 1] == all[k + 1 + i]);
                }
            }
            match section {
                Section::Type(s) => {
                    r.types = s;
                },
                Section::Function(s) => {
                    r.functions = s;
                },
                Section::Import(s) => {
                    r.import = s;
                },
                Section::Code(s) => {
                    r.code = s;
                },
                other => {
                    r.other.push(other);
                },
            }
            proof {
                k = k + 1;
                assert(sections_view(sections@) =~= all.skip(k));
                assert(r@ =~= decompose(all.take(k)));
            }
        }
        proof {
            assert(all.take(k) =~= all);
        }
        r
    }

    /// Reassembles the scaffold into a module, emitting the tracked slots in
    /// the fixed order type, function, import, code (each omitted when
    /// empty) and then the untouched sections in their stored order.
    pub fn into_module(self) -> (m: Module)
        ensures
            m@ == reassemble(self@),
    {
        let ghost sc = self@;
        let mut this = self;
        let mut sections: Vec<Section> = Vec::new();
        if this.types.entries.len() > 0 {
            sections.push(Section::Type(this.types));
        }
        if this.functions.entries.len() > 0 {
            sections.push(Section::Function(this.functions));
        }
        if this.import.entries.len() > 0 {
            sections.push(Section::Import(this.import));
        }
        if this.code.bodies.len() > 0 {
            sections.push(Section::Code(this.code));
        }
        sections.append(&mut this.other);
        proof {
            assert(sections_view(sections@) =~= reassemble(sc));
        }
        Module::new(sections)
    }
}

} // verus!
