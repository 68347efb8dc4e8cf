use module_builder::builder::{from_module, module};
use module_builder::code::{FunctionDefinition, Signature};
use module_builder::elements::{
    CodeSection, CustomSection, FuncBody, FunctionType, FunctionsSection, ImportEntry,
    ImportSection, Module, Section, Type, TypeSection, ValueType,
};

fn inline_signature(params: Vec<ValueType>) -> Signature {
    Signature::Inline(FunctionType { params, return_type: None })
}

fn body(payload: Vec<u8>) -> FuncBody {
    FuncBody { payload }
}

#[test]
fn smoky() {
    let module = module().build();
    assert_eq!(module.sections().len(), 0);
}

#[test]
fn functions() {
    let module = module()
        .functions()
        .signature()
        .with_param(ValueType::I32)
        .build()
        .bind()
        .build();

    assert_eq!(
        module
            .type_section()
            .expect("type section to exist")
            .types()
            .len(),
        1
    );
    assert_eq!(
        module
            .functions_section()
            .expect("function section to exist")
            .entries()
            .len(),
        1
    );
}

#[test]
fn one_signature_bound_surfaces_no_code() {
    let module = module()
        .functions()
        .signature()
        .with_param(ValueType::I64)
        .build()
        .bind()
        .build();

    assert_eq!(module.type_section().expect("type section").types().len(), 1);
    assert_eq!(
        module
            .functions_section()
            .expect("function section")
            .entries()
            .len(),
        1
    );
    match module.code_section() {
        Some(code) => assert_eq!(code.bodies().len(), 0),
        None => {}
    }
}

#[test]
fn type_reference_resolves_unchanged() {
    let mut builder = module();
    let resolved = builder.resolve_type_ref(Signature::TypeReference(7));
    assert_eq!(resolved, 7);
    let module = builder.build();
    assert!(module.type_section().is_none());
    assert_eq!(module.sections().len(), 0);
}

#[test]
fn inline_signatures_number_sequentially() {
    let mut builder = module();
    let indices = builder.push_signatures(vec![
        inline_signature(vec![ValueType::I32]),
        Signature::TypeReference(5),
        inline_signature(vec![ValueType::I64]),
    ]);
    assert_eq!(indices, vec![0, 1, 2]);
    let module = builder.build();
    let types = module.type_section().expect("type section");
    assert_eq!(types.types().len(), 2);
    let functions = module.functions_section().expect("function section");
    let refs: Vec<u32> = functions.entries().iter().map(|f| f.type_ref).collect();
    assert_eq!(refs, vec![0, 5, 1]);
}

#[test]
fn duplicate_inline_signatures_are_not_deduplicated() {
    let mut builder = module();
    let first = builder.push_signature(inline_signature(vec![ValueType::I32]));
    let second = builder.push_signature(inline_signature(vec![ValueType::I32]));
    assert_eq!(first, 0);
    assert_eq!(second, 1);
    let module = builder.build();
    assert_eq!(module.type_section().expect("type section").types().len(), 2);
}

#[test]
fn push_function_advances_both_slots() {
    let mut builder = module();
    let first = builder.push_function(FunctionDefinition {
        signature: inline_signature(vec![]),
        code: body(vec![1]),
    });
    assert_eq!(first.signature, 0);
    assert_eq!(first.body, 0);

    let lone = builder.push_signature(Signature::TypeReference(0));
    assert_eq!(lone, 1);

    let second = builder.push_function(FunctionDefinition {
        signature: inline_signature(vec![ValueType::I32]),
        code: body(vec![2]),
    });
    assert_eq!(second.signature, 2);
    assert_eq!(second.body, 1);
}

#[test]
fn code_bodies_are_reemitted_after_imports() {
    let mut builder = module();
    builder.push_function(FunctionDefinition {
        signature: inline_signature(vec![]),
        code: body(vec![9, 9]),
    });
    let module = builder.build();
    let code = module.code_section().expect("code section");
    assert_eq!(code.bodies().len(), 1);
    assert_eq!(code.bodies()[0], body(vec![9, 9]));
}

#[test]
fn import_entry_is_appended() {
    let module = module()
        .import()
        .path(String::from("env"), String::from("memory"))
        .build()
        .build();
    let imports = module.import_section().expect("import section");
    assert_eq!(imports.entries().len(), 1);
    assert_eq!(imports.entries()[0].module, "env");
    assert_eq!(imports.entries()[0].field, "memory");
}

#[test]
fn raw_sections_keep_call_order() {
    let module = module()
        .with_section(Section::Start(4))
        .with_sections(vec![
            Section::Custom(CustomSection {
                name: String::from("names"),
                payload: vec![1, 2],
            }),
            Section::Start(8),
        ])
        .build();
    assert_eq!(
        *module.sections(),
        vec![
            Section::Start(4),
            Section::Custom(CustomSection {
                name: String::from("names"),
                payload: vec![1, 2],
            }),
            Section::Start(8),
        ]
    );
}

fn six_section_module() -> Module {
    Module::new(vec![
        Section::Type(TypeSection {
            entries: vec![Type::Function(FunctionType {
                params: vec![ValueType::I32],
                return_type: Some(ValueType::I64),
            })],
        }),
        Section::Function(FunctionsSection {
            entries: vec![module_builder::elements::Func::new(0)],
        }),
        Section::Import(ImportSection {
            entries: vec![ImportEntry {
                module: String::from("env"),
                field: String::from("table"),
            }],
        }),
        Section::Code(CodeSection {
            bodies: vec![body(vec![0, 11])],
        }),
        Section::Custom(CustomSection {
            name: String::from("names"),
            payload: vec![3],
        }),
        Section::Start(0),
    ])
}

#[test]
fn round_trip_preserves_sections() {
    let original = six_section_module();
    let expected = six_section_module();
    let rebuilt = from_module(original).build();
    assert_eq!(*rebuilt.sections(), *expected.sections());
}

#[test]
fn seed_then_push_function_grows_both_sections() {
    let mut builder = from_module(six_section_module());
    let location = builder.push_function(FunctionDefinition {
        signature: inline_signature(vec![ValueType::I32, ValueType::I32]),
        code: body(vec![7]),
    });
    assert_eq!(location.signature, 1);
    assert_eq!(location.body, 1);
    let module = builder.build();
    assert_eq!(module.type_section().expect("type section").types().len(), 2);
    assert_eq!(
        module
            .functions_section()
            .expect("function section")
            .entries()
            .len(),
        2
    );
    assert_eq!(module.code_section().expect("code section").bodies().len(), 2);
}

#[test]
fn scrambled_round_trip_preserves_entries() {
    let scrambled = Module::new(vec![
        Section::Custom(CustomSection {
            name: String::from("names"),
            payload: vec![3],
        }),
        Section::Code(CodeSection {
            bodies: vec![body(vec![0, 11])],
        }),
        Section::Start(0),
        Section::Import(ImportSection {
            entries: vec![ImportEntry {
                module: String::from("env"),
                field: String::from("table"),
            }],
        }),
        Section::Function(FunctionsSection {
            entries: vec![module_builder::elements::Func::new(0)],
        }),
        Section::Type(TypeSection {
            entries: vec![Type::Function(FunctionType {
                params: vec![ValueType::I32],
                return_type: Some(ValueType::I64),
            })],
        }),
    ]);
    let rebuilt = from_module(scrambled).build();
    assert_eq!(rebuilt.sections().len(), 6);
    assert_eq!(
        *rebuilt.type_section().expect("type section").types(),
        vec![Type::Function(FunctionType {
            params: vec![ValueType::I32],
            return_type: Some(ValueType::I64),
        })]
    );
    assert_eq!(
        *rebuilt.functions_section().expect("function section").entries(),
        vec![module_builder::elements::Func::new(0)]
    );
    assert_eq!(
        *rebuilt.import_section().expect("import section").entries(),
        vec![ImportEntry {
            module: String::from("env"),
            field: String::from("table"),
        }]
    );
    assert_eq!(
        *rebuilt.code_section().expect("code section").bodies(),
        vec![body(vec![0, 11])]
    );
    assert_eq!(
        rebuilt.sections()[4..],
        [
            Section::Custom(CustomSection {
                name: String::from("names"),
                payload: vec![3],
            }),
            Section::Start(0),
        ]
    );
}
