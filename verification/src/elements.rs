//! The data model of a module: sections and their entries.
//!
//! A module is an ordered list of sections. Four section kinds are tracked
//! individually by the assembler (types, function declarations, imports,
//! code bodies); every other kind is carried verbatim.

use vstd::prelude::*;

verus! {

/// Primitive value types that may appear in a function signature.
#[derive(Clone, Copy, Debug, PartialEq, Eq, Structural)]
pub enum ValueType {
    I32,
    I64,
    F32,
    F64,
}

/// The shape of one function type: its parameter list and optional result.
#[derive(Debug, PartialEq, Eq)]
pub struct FunctionType {
    pub params: Vec<ValueType>,
    pub return_type: Option<ValueType>,
}

impl FunctionType {
    /// A function type with no parameters and no result.
    pub fn new() -> (r: FunctionType)
        ensures
            r.params@ == Seq::<ValueType>::empty(),
            r.return_type is None,
    {
        FunctionType { params: Vec::new(), return_type: None }
    }
}

impl View for FunctionType {
    type V = FunctionType;

    open spec fn view(&self) -> FunctionType {
        *self
    }
}

/// A type-section entry.
#[derive(Debug, PartialEq, Eq)]
pub enum Type {
    Function(FunctionType),
}

/// A function-declarations entry: the index of the type the function uses.
#[derive(Clone, Copy, Debug, PartialEq, Eq, Structural)]
pub struct Func {
    pub type_ref: u32,
}

impl Func {
    pub fn new(type_ref: u32) -> (r: Func)
        ensures
            r.type_ref == type_ref,
    {
        Func { type_ref }
    }
}

/// An import entry: the two-level path a value is imported from.
/// Imports are consumed positionally by the format; the assembler only
/// stores them, it never inspects them.
#[derive(Debug, PartialEq, Eq)]
pub struct ImportEntry {
    pub module: String,
    pub field: String,
}

impl View for ImportEntry {
    type V = ImportEntry;

    open spec fn view(&self) -> ImportEntry {
        *self
    }
}

/// A compiled function body. Opaque to the assembler: only ever stored,
/// never inspected.
#[derive(Debug, PartialEq, Eq)]
pub struct FuncBody {
    pub payload: Vec<u8>,
}

/// A named section of a kind the assembler does not track, kept verbatim.
#[derive(Debug, PartialEq, Eq)]
pub struct CustomSection {
    pub name: String,
    pub payload: Vec<u8>,
}

/// The type section: an ordered, append-only list of function types.
#[derive(Debug, PartialEq, Eq)]
pub struct TypeSection {
    pub entries: Vec<Type>,
}

impl TypeSection {
    /// The ordered type entries.
    pub fn types(&self) -> (r: &Vec<Type>)
        ensures
            r@ == self.entries@,
    {
        &self.entries
    }
}

/// The function-declarations section: one type index per declared function.
#[derive(Debug, PartialEq, Eq)]
pub struct FunctionsSection {
    pub entries: Vec<Func>,
}

impl FunctionsSection {
    /// The ordered function-declaration entries.
    pub fn entries(&self) -> (r: &Vec<Func>)
        ensures
            r@ == self.entries@,
    {
        &self.entries
    }
}

impl View for FunctionsSection {
    type V = Seq<Func>;

    open spec fn view(&self) -> Seq<Func> {
        self.entries@
    }
}

/// The import section.
#[derive(Debug, PartialEq, Eq)]
pub struct ImportSection {
    pub entries: Vec<ImportEntry>,
}

impl ImportSection {
    /// The ordered import entries.
    pub fn entries(&self) -> (r: &Vec<ImportEntry>)
        ensures
            r@ == self.entries@,
    {
        &self.entries
    }
}

/// The code section: one compiled body per declared function, by position.
#[derive(Debug, PartialEq, Eq)]
pub struct CodeSection {
    pub bodies: Vec<FuncBody>,
}

impl CodeSection {
    /// The ordered code bodies.
    pub fn bodies(&self) -> (r: &Vec<FuncBody>)
        ensures
            r@ == self.bodies@,
    {
        &self.bodies
    }
}

/// One section of a module.
#[derive(Debug, PartialEq, Eq)]
pub enum Section {
    Type(TypeSection),
    Function(FunctionsSection),
    Import(ImportSection),
    Code(CodeSection),
    Custom(CustomSection),
    Start(u32),
}

/// The mathematical content of one section: tracked kinds are seen as the
/// sequence of their entries, untracked kinds as their carried value.
pub enum SectionView {
    Type(Seq<Type>),
    Function(Seq<Func>),
    Import(Seq<ImportEntry>),
    Code(Seq<FuncBody>),
    Custom(CustomSection),
    Start(u32),
}

impl View for Section {
    type V = SectionView;

    open spec fn view(&self) -> SectionView {
        match self {
            Section::Type(s) => SectionView::Type(s.entries@),
            Section::Function(s) => SectionView::Function(s.entries@),
            Section::Import(s) => SectionView::Import(s.entries@),
            Section::Code(s) => SectionView::Code(s.bodies@),
            Section::Custom(s) => SectionView::Custom(*s),
            Section::Start(i) => SectionView::Start(*i),
        }
    }
}

/// The content of an ordered list of sections.
pub open spec fn sections_view(sections: Seq<Section>) -> Seq<SectionView> {
    Seq::new(sections.len(), |i: int| sections[i]@)
}

/// A module: an ordered list of sections.
pub struct Module {
    pub sections: Vec<Section>,
}

impl View for Module {
    type V = Seq<SectionView>;

    open spec fn view(&self) -> Seq<SectionView> {
        sections_view(self.sections@)
    }
}

/// The content of the first type section of a section list, if any.
pub open spec fn first_type_entries(s: Seq<SectionView>) -> Option<Seq<Type>>
    decreases s.len(),
{
    if s.len() == 0 {
        None
    } else {
        match s[0] {
            SectionView::Type(entries) => Some(entries),
            _ => first_type_entries(s.drop_first()),
        }
    }
}

/// The content of the first function-declarations section, if any.
pub open spec fn first_functions_entries(s: Seq<SectionView>) -> Option<Seq<Func>>
    decreases s.len(),
{
    if s.len() == 0 {
        None
    } else {
        match s[0] {
            SectionView::Function(entries) => Some(entries),
            _ => first_functions_entries(s.drop_first()),
        }
    }
}

/// The content of the first import section, if any.
pub open spec fn first_import_entries(s: Seq<SectionView>) -> Option<Seq<ImportEntry>>
    decreases s.len(),
{
    if s.len() == 0 {
        None
    } else {
        match s[0] {
            SectionView::Import(entries) => Some(entries),
            _ => first_import_entries(s.drop_first()),
        }
    }
}

/// The content of the first code section, if any.
pub open spec fn first_code_bodies(s: Seq<SectionView>) -> Option<Seq<FuncBody>>
    decreases s.len(),
{
    if s.len() == 0 {
        None
    } else {
        match s[0] {
            SectionView::Code(bodies) => Some(bodies),
            _ => first_code_bodies(s.drop_first()),
        }
    }
}

impl Module {
    /// A module holding exactly the given sections, in order.
    pub fn new(sections: Vec<Section>) -> (m: Module)
        ensures
            m@ == sections_view(sections@),
    {
        Module { sections }
    }

    /// The ordered section list.
    pub fn sections(&self) -> (r: &Vec<Section>)
        ensures
            sections_view(r@) == self@,
    {
        &self.sections
    }

    /// Consumes the module, handing back its section list.
    pub fn into_sections(self) -> (r: Vec<Section>)
        ensures
            sections_view(r@) == self@,
    {
        self.sections
    }

    /// The first type section, if the module has one.
    pub fn type_section(&self) -> (r: Option<&TypeSection>)
        ensures
            match r {
                Some(s) => first_type_entries(self@) == Some(s.entries@),
                None => first_type_entries(self@) is None,
            },
    {
        proof {
            assert(self@.skip(0) =~= self@);
        }
        let n = self.sections.len();
        for i in 0..n
            invariant
                n == self.sections.len(),
                first_type_entries(self@) == first_type_entries(self@.skip(i as int)),
        {
            proof {
                assert(self@.skip(i as int).drop_first() =~= self@.skip(i + 1));
                assert(self@.skip(i as int)[0] == self.sections[i as int]@);
            }
            match &self.sections[i] {
                Section::Type(s) => {
                    return Some(s);
                },
                _ => {},
            }
        }
        proof {
            assert(self@.skip(n as int) =~= Seq::<SectionView>::empty());
        }
        None
    }

    /// The first function-declarations section, if the module has one.
    pub fn functions_section(&self) -> (r: Option<&FunctionsSection>)
        ensures
            match r {
                Some(s) => first_functions_entries(self@) == Some(s.entries@),
                None => first_functions_entries(self@) is None,
            },
    {
        proof {
            assert(self@.skip(0) =~= self@);
        }
        let n = self.sections.len();
        for i in 0..n
            invariant
                n == self.sections.len(),
                first_functions_entries(self@) == first_functions_entries(self@.skip(i as int)),
        {
            proof {
                assert(self@.skip(i as int).drop_first() =~= self@.skip(i + 1));
                assert(self@.skip(i as int)[0] == self.sections[i as int]@);
            }
            match &self.sections[i] {
                Section::Function(s) => {
                    return Some(s);
                },
                _ => {},
            }
        }
        proof {
            assert(self@.skip(n as int) =~= Seq::<SectionView>::empty());
        }
        None
    }

    /// The first import section, if the module has one.
    pub fn import_section(&self) -> (r: Option<&ImportSection>)
        ensures
            match r {
                Some(s) => first_import_entries(self@) == Some(s.entries@),
                None => first_import_entries(self@) is None,
            },
    {
        proof {
            assert(self@.skip(0) =~= self@);
        }
        let n = self.sections.len();
        for i in 0..n
            invariant
                n == self.sections.len(),
                first_import_entries(self@) == first_import_entries(self@.skip(i as int)),
        {
            proof {
                assert(self@.skip(i as int).drop_first() =~= self@.skip(i + 1));
                assert(self@.skip(i as int)[0] == self.sections[i as int]@);
            }
            match &self.sections[i] {
                Section::Import(s) => {
                    return Some(s);
                },
                _ => {},
            }
        }
        proof {
            assert(self@.skip(n as int) =~= Seq::<SectionView>::empty());
        }
        None
    }

    /// The first code section, if the module has one.
    pub fn code_section(&self) -> (r: Option<&CodeSection>)
        ensures
            match r {
                Some(s) => first_code_bodies(self@) == Some(s.bodies@),
                None => first_code_bodies(self@) is None,
            },
    {
        proof {
            assert(self@.skip(0) =~= self@);
        }
        let n = self.sections.len();
        for i in 0..n
            invariant
                n == self.sections.len(),
                first_code_bodies(self@) == first_code_bodies(self@.skip(i as int)),
        {
            proof {
                assert(self@.skip(i as int).drop_first() =~= self@.skip(i + 1));
                assert(self@.skip(i as int)[0] == self.sections[i as int]@);
            }
            match &self.sections[i] {
                Section::Code(s) => {
                    return Some(s);
                },
                _ => {},
            }
        }
        proof {
            assert(self@.skip(n as int) =~= Seq::<SectionView>::empty());
        }
        None
    }
}

} // verus!
