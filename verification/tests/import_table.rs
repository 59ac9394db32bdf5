use di_transform::{
    Ident, ImportAnalysis, ImportDecl, ImportSpecification, ImportSpecifier, Node, NodeKind,
    Program,
};

fn ident(sym: &str, ctxt: u32) -> Ident {
    Ident::new(sym.to_string(), ctxt)
}

fn spec(local: &str, ctxt: u32, exported: &str, package: &str) -> ImportSpecification {
    ImportSpecification {
        symbol_id: (local.to_string(), ctxt),
        local_imported_symbol: local.to_string(),
        dependency_imported_symbol: exported.to_string(),
        package_name: package.to_string(),
        is_type_only: false,
    }
}

fn decl(src: &str, type_only: bool, specifiers: Vec<ImportSpecifier>) -> ImportDecl {
    ImportDecl { specifiers, src: src.to_string(), type_only }
}

#[test]
fn new_analysis_is_empty() {
    assert_eq!(ImportAnalysis::new().into_import_specifications(), vec![]);
}

#[test]
fn default_named_and_namespace_specifiers() {
    let mut analysis = ImportAnalysis::new();
    analysis.visit_import_decl(&decl(
        "react",
        false,
        vec![
            ImportSpecifier::Default { local: ident("React", 1) },
            ImportSpecifier::Named { local: ident("Component", 1), imported: None, is_type_only: false },
            ImportSpecifier::Named {
                local: ident("Frag", 3),
                imported: Some("Fragment".to_string()),
                is_type_only: false,
            },
        ],
    ));
    analysis.visit_import_decl(&decl(
        "lodash",
        false,
        vec![ImportSpecifier::Namespace { local: ident("_", 1) }],
    ));
    assert_eq!(
        analysis.into_import_specifications(),
        vec![
            spec("React", 1, "React", "react"),
            spec("Component", 1, "Component", "react"),
            spec("Frag", 3, "Fragment", "react"),
            spec("_", 1, "_", "lodash"),
        ]
    );
}

#[test]
fn type_only_declaration_is_skipped() {
    let mut analysis = ImportAnalysis::new();
    analysis.visit_import_decl(&decl(
        "types",
        true,
        vec![
            ImportSpecifier::Default { local: ident("T", 1) },
            ImportSpecifier::Named { local: ident("U", 1), imported: None, is_type_only: false },
        ],
    ));
    assert_eq!(analysis.into_import_specifications(), vec![]);
}

#[test]
fn type_only_specifier_is_skipped() {
    let mut analysis = ImportAnalysis::new();
    analysis.visit_import_decl(&decl(
        "react",
        false,
        vec![
            ImportSpecifier::Named { local: ident("Props", 1), imported: None, is_type_only: true },
            ImportSpecifier::Named { local: ident("useState", 1), imported: None, is_type_only: false },
            ImportSpecifier::Named {
                local: ident("P", 1),
                imported: Some("Q".to_string()),
                is_type_only: true,
            },
        ],
    ));
    assert_eq!(
        analysis.into_import_specifications(),
        vec![spec("useState", 1, "useState", "react")]
    );
}

#[test]
fn declaration_without_specifiers_adds_nothing() {
    let mut analysis = ImportAnalysis::new();
    analysis.visit_import_decl(&decl("side-effect", false, vec![]));
    assert_eq!(analysis.into_import_specifications(), vec![]);
}

#[test]
fn program_table_is_in_source_order() {
    let program = Program {
        body: vec![
            Node::new(
                NodeKind::Import(decl(
                    "a",
                    false,
                    vec![ImportSpecifier::Default { local: ident("A", 1) }],
                )),
                vec![],
            ),
            Node::new(NodeKind::Other, vec![]),
            Node::new(
                NodeKind::Import(decl(
                    "b",
                    false,
                    vec![ImportSpecifier::Namespace { local: ident("B", 1) }],
                )),
                vec![],
            ),
        ],
    };
    let mut analysis = ImportAnalysis::new();
    analysis.visit_program(&program);
    assert_eq!(
        analysis.into_import_specifications(),
        vec![spec("A", 1, "A", "a"), spec("B", 1, "B", "b")]
    );
}
