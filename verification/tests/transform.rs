use di_transform::transform::{scope_within, synthesize};
use di_transform::{
    process_transform, ActiveReplacement, Ident, ImportAnalysis, ImportDecl, ImportSpecification,
    ImportSpecifier, Injection, Node, NodeKind, Program, TransformVisitor,
};

/// The syntax context of the bindings declared at the top of the module.
const TOP: u32 = 1;

/// The syntax context of bindings declared inside a function.
const INNER: u32 = 2;

fn ident(sym: &str, ctxt: u32) -> Ident {
    Ident::new(sym.to_string(), ctxt)
}

fn reference(sym: &str, ctxt: u32) -> Node {
    Node::new(NodeKind::Reference(ident(sym, ctxt)), vec![])
}

fn other(children: Vec<Node>) -> Node {
    Node::new(NodeKind::Other, children)
}

fn body(children: Vec<Node>) -> Node {
    Node::new(NodeKind::Body, children)
}

fn class_decl(name: &str, children: Vec<Node>) -> Node {
    Node::new(NodeKind::ClassDecl(name.to_string()), children)
}

fn fn_decl(name: &str, children: Vec<Node>) -> Node {
    Node::new(NodeKind::FnDecl(name.to_string()), children)
}

fn arrow_var(name: &str, children: Vec<Node>) -> Node {
    Node::new(NodeKind::ArrowVar(name.to_string()), children)
}

fn inject(alias: &str, local: &str, scope: &str) -> Node {
    Node::new(
        NodeKind::Inject(Injection {
            alias: alias.to_string(),
            local: local.to_string(),
            scope: scope.to_string(),
        }),
        vec![],
    )
}

fn import(src: &str, type_only: bool, specifiers: Vec<ImportSpecifier>) -> Node {
    Node::new(
        NodeKind::Import(ImportDecl { specifiers, src: src.to_string(), type_only }),
        vec![],
    )
}

fn default_import(local: &str) -> ImportSpecifier {
    ImportSpecifier::Default { local: ident(local, TOP) }
}

fn named_import(local: &str, imported: Option<&str>, is_type_only: bool) -> ImportSpecifier {
    ImportSpecifier::Named {
        local: ident(local, TOP),
        imported: imported.map(|s| s.to_string()),
        is_type_only,
    }
}

/// `import React, { Component } from 'react'; import Modal from 'modal';`
fn react_and_modal() -> Vec<Node> {
    vec![
        import("react", false, vec![default_import("React"), named_import("Component", None, false)]),
        import("modal", false, vec![default_import("Modal")]),
    ]
}

/// `return <name />;`
fn return_element(name: &str, ctxt: u32) -> Node {
    other(vec![other(vec![reference(name, ctxt)])])
}

fn module(imports: Vec<Node>, rest: Vec<Node>) -> Program {
    let mut items = imports;
    items.extend(rest);
    Program { body: items }
}

fn record(local: &str, exported: &str, package: &str) -> ImportSpecification {
    ImportSpecification {
        symbol_id: (local.to_string(), TOP),
        local_imported_symbol: local.to_string(),
        dependency_imported_symbol: exported.to_string(),
        package_name: package.to_string(),
        is_type_only: false,
    }
}

#[test]
fn test_should_work_in_class_components() {
    let input = module(
        react_and_modal(),
        vec![class_decl(
            "MyComponent",
            vec![
                reference("Component", TOP),
                other(vec![body(vec![return_element("Modal", TOP)])]),
            ],
        )],
    );
    let expected = module(
        react_and_modal(),
        vec![class_decl(
            "MyComponent",
            vec![
                reference("Component", TOP),
                other(vec![body(vec![
                    inject("_Modal", "Modal", "MyComponent"),
                    return_element("_Modal", TOP),
                ])]),
            ],
        )],
    );
    assert_eq!(process_transform(input), expected);
}

#[test]
fn test_should_work_in_function_components() {
    let input = module(
        react_and_modal(),
        vec![fn_decl("MyComponent", vec![body(vec![return_element("Modal", TOP)])])],
    );
    let expected = module(
        react_and_modal(),
        vec![fn_decl(
            "MyComponent",
            vec![body(vec![
                inject("_Modal", "Modal", "MyComponent"),
                return_element("_Modal", TOP),
            ])],
        )],
    );
    assert_eq!(process_transform(input), expected);
}

#[test]
fn test_should_work_in_arrow_function_components() {
    let input = module(
        react_and_modal(),
        vec![other(vec![arrow_var(
            "MyComponent",
            vec![body(vec![return_element("Modal", TOP)])],
        )])],
    );
    let expected = module(
        react_and_modal(),
        vec![other(vec![arrow_var(
            "MyComponent",
            vec![body(vec![
                inject("_Modal", "Modal", "MyComponent"),
                return_element("_Modal", TOP),
            ])],
        )])],
    );
    assert_eq!(process_transform(input), expected);
}

#[test]
fn type_only_imports_leave_the_module_alone() {
    let imports = || {
        vec![
            import("modal", true, vec![default_import("Modal")]),
            import("react", false, vec![named_import("Props", None, true)]),
        ]
    };
    let rest = || {
        vec![
            fn_decl(
                "MyComponent",
                vec![body(vec![return_element("Modal", TOP), reference("Props", TOP)])],
            ),
            class_decl("Other", vec![other(vec![body(vec![])])]),
        ]
    };
    let input = module(imports(), rest());
    let mut analysis = ImportAnalysis::new();
    analysis.visit_program(&input);
    assert_eq!(analysis.into_import_specifications(), vec![]);
    assert_eq!(process_transform(input), module(imports(), rest()));
}

#[test]
fn shadowing_local_is_not_rewritten() {
    // function F() { const Modal = 5; return Modal; }
    let f = || {
        fn_decl(
            "F",
            vec![body(vec![
                other(vec![other(vec![reference("Modal", INNER)])]),
                other(vec![reference("Modal", INNER)]),
            ])],
        )
    };
    let input = module(react_and_modal(), vec![f()]);
    assert_eq!(process_transform(input), module(react_and_modal(), vec![f()]));
}

#[test]
fn shadowing_local_beside_the_import() {
    // function F() { { const Modal = 5; use(Modal); } return Modal; }
    let input = module(
        react_and_modal(),
        vec![fn_decl(
            "F",
            vec![body(vec![
                other(vec![reference("Modal", INNER)]),
                other(vec![reference("Modal", TOP)]),
            ])],
        )],
    );
    let expected = module(
        react_and_modal(),
        vec![fn_decl(
            "F",
            vec![body(vec![
                inject("_Modal", "Modal", "F"),
                other(vec![reference("Modal", INNER)]),
                other(vec![reference("_Modal", TOP)]),
            ])],
        )],
    );
    assert_eq!(process_transform(input), expected);
}

#[test]
fn named_import_under_another_name() {
    // import { X as Y } from 'pkg'; function F() { return Y; }
    let imports = || vec![import("pkg", false, vec![named_import("Y", Some("X"), false)])];
    let input = module(imports(), vec![fn_decl("F", vec![body(vec![other(vec![reference("Y", TOP)])])])]);

    let mut analysis = ImportAnalysis::new();
    analysis.visit_program(&input);
    assert_eq!(analysis.into_import_specifications(), vec![record("Y", "X", "pkg")]);

    let expected = module(
        imports(),
        vec![fn_decl(
            "F",
            vec![body(vec![inject("_Y", "Y", "F"), other(vec![reference("_Y", TOP)])])],
        )],
    );
    assert_eq!(process_transform(input), expected);
}

#[test]
fn use_at_top_level_is_not_rewritten() {
    // ReactDOM.render(<Modal />); const x = Modal;
    let rest = || {
        vec![
            other(vec![other(vec![reference("Modal", TOP)])]),
            other(vec![other(vec![reference("Modal", TOP)])]),
        ]
    };
    let input = module(react_and_modal(), rest());
    assert_eq!(process_transform(input), module(react_and_modal(), rest()));
}

#[test]
fn body_outside_any_component_is_not_rewritten() {
    // register(function () { return Modal; });
    let rest = || vec![other(vec![other(vec![body(vec![other(vec![reference("Modal", TOP)])])])])];
    let input = module(react_and_modal(), rest());
    assert_eq!(process_transform(input), module(react_and_modal(), rest()));
}

#[test]
fn repeated_use_gives_repeated_declarations() {
    // function F() { use(Modal); use(React); return Modal; }
    let input = module(
        react_and_modal(),
        vec![fn_decl(
            "F",
            vec![body(vec![
                other(vec![reference("Modal", TOP)]),
                other(vec![reference("React", TOP)]),
                other(vec![reference("Modal", TOP)]),
            ])],
        )],
    );
    let expected = module(
        react_and_modal(),
        vec![fn_decl(
            "F",
            vec![body(vec![
                inject("_Modal", "Modal", "F"),
                inject("_React", "React", "F"),
                inject("_Modal", "Modal", "F"),
                other(vec![reference("_Modal", TOP)]),
                other(vec![reference("_React", TOP)]),
                other(vec![reference("_Modal", TOP)]),
            ])],
        )],
    );
    assert_eq!(process_transform(input), expected);
}

#[test]
fn nested_body_declares_its_own_and_outer_goes_on() {
    // function F() { use(React); function g() { return Modal; } return Modal; }
    let input = module(
        react_and_modal(),
        vec![fn_decl(
            "F",
            vec![body(vec![
                other(vec![reference("React", TOP)]),
                fn_decl("g", vec![body(vec![other(vec![reference("Modal", TOP)])])]),
                other(vec![reference("Modal", TOP)]),
            ])],
        )],
    );
    let expected = module(
        react_and_modal(),
        vec![fn_decl(
            "F",
            vec![body(vec![
                inject("_React", "React", "F"),
                inject("_Modal", "Modal", "F"),
                other(vec![reference("_React", TOP)]),
                fn_decl(
                    "g",
                    vec![body(vec![
                        inject("_Modal", "Modal", "F"),
                        other(vec![reference("_Modal", TOP)]),
                    ])],
                ),
                other(vec![reference("_Modal", TOP)]),
            ])],
        )],
    );
    assert_eq!(process_transform(input), expected);
}

#[test]
fn class_names_its_methods_and_gives_the_name_back() {
    // function F() { class A extends Modal { m() { return Modal; } } return React; }
    let input = module(
        react_and_modal(),
        vec![fn_decl(
            "F",
            vec![body(vec![
                class_decl(
                    "A",
                    vec![
                        reference("Modal", TOP),
                        other(vec![body(vec![other(vec![reference("Modal", TOP)])])]),
                    ],
                ),
                other(vec![reference("React", TOP)]),
            ])],
        )],
    );
    let expected = module(
        react_and_modal(),
        vec![fn_decl(
            "F",
            vec![body(vec![
                inject("_Modal", "Modal", "F"),
                inject("_React", "React", "F"),
                class_decl(
                    "A",
                    vec![
                        reference("_Modal", TOP),
                        other(vec![body(vec![
                            inject("_Modal", "Modal", "A"),
                            other(vec![reference("_Modal", TOP)]),
                        ])]),
                    ],
                ),
                other(vec![reference("_React", TOP)]),
            ])],
        )],
    );
    assert_eq!(process_transform(input), expected);
}

#[test]
fn sibling_components_each_have_their_name() {
    let input = module(
        react_and_modal(),
        vec![
            class_decl("A", vec![other(vec![body(vec![reference("Modal", TOP)])])]),
            fn_decl("B", vec![body(vec![reference("Modal", TOP)])]),
            other(vec![reference("Modal", TOP)]),
        ],
    );
    let expected = module(
        react_and_modal(),
        vec![
            class_decl(
                "A",
                vec![other(vec![body(vec![
                    inject("_Modal", "Modal", "A"),
                    reference("_Modal", TOP),
                ])])],
            ),
            fn_decl("B", vec![body(vec![inject("_Modal", "Modal", "B"), reference("_Modal", TOP)])]),
            other(vec![reference("Modal", TOP)]),
        ],
    );
    assert_eq!(process_transform(input), expected);
}

#[test]
fn parameters_of_a_component_are_not_in_its_body() {
    // function F(a = Modal) { }
    let rest = || vec![fn_decl("F", vec![other(vec![reference("Modal", TOP)]), body(vec![])])];
    let input = module(react_and_modal(), rest());
    assert_eq!(process_transform(input), module(react_and_modal(), rest()));
}

#[test]
fn scope_tracker_transitions() {
    let none: Option<String> = None;
    let outer = Some("Outer".to_string());
    let class = NodeKind::ClassDecl("C".to_string());
    let function = NodeKind::FnDecl("F".to_string());
    let arrow = NodeKind::ArrowVar("V".to_string());
    assert_eq!(scope_within(&class, &none), Some("C".to_string()));
    assert_eq!(scope_within(&class, &outer), Some("C".to_string()));
    assert_eq!(scope_within(&function, &none), Some("F".to_string()));
    assert_eq!(scope_within(&function, &outer), Some("Outer".to_string()));
    assert_eq!(scope_within(&arrow, &none), Some("V".to_string()));
    assert_eq!(scope_within(&arrow, &outer), Some("Outer".to_string()));
    assert_eq!(scope_within(&NodeKind::Body, &none), None);
    assert_eq!(scope_within(&NodeKind::Other, &outer), Some("Outer".to_string()));
}

#[test]
fn find_import_takes_the_first_record_of_the_binding() {
    let visitor = TransformVisitor::with_imports(vec![
        record("React", "React", "react"),
        record("Modal", "Modal", "modal"),
        record("Modal", "Dialog", "other"),
    ]);
    assert_eq!(visitor.find_import(&ident("Modal", TOP)), Some(1));
    assert_eq!(visitor.find_import(&ident("React", TOP)), Some(0));
    assert_eq!(visitor.find_import(&ident("Modal", INNER)), None);
    assert_eq!(visitor.find_import(&ident("Missing", TOP)), None);
    assert_eq!(TransformVisitor::default().find_import(&ident("Modal", TOP)), None);
}

#[test]
fn visit_mut_ident_renames_and_records() {
    let visitor = TransformVisitor::with_imports(vec![record("Modal", "Modal", "modal")]);
    let mut acc: Vec<ActiveReplacement> = Vec::new();

    let mut node = ident("Modal", TOP);
    visitor.visit_mut_ident(&mut node, true, &mut acc);
    assert_eq!(node, ident("_Modal", TOP));
    assert_eq!(
        acc,
        vec![ActiveReplacement {
            import: record("Modal", "Modal", "modal"),
            symbol: "_Modal".to_string(),
        }]
    );

    let mut inactive = ident("Modal", TOP);
    visitor.visit_mut_ident(&mut inactive, false, &mut acc);
    assert_eq!(inactive, ident("Modal", TOP));
    assert_eq!(acc.len(), 1);

    let mut stranger = ident("Modal", INNER);
    visitor.visit_mut_ident(&mut stranger, true, &mut acc);
    assert_eq!(stranger, ident("Modal", INNER));
    assert_eq!(acc.len(), 1);
}

#[test]
fn alias_of_an_empty_name_is_the_underscore() {
    let visitor = TransformVisitor::with_imports(vec![record("", "", "pkg")]);
    let mut acc: Vec<ActiveReplacement> = Vec::new();
    let mut node = ident("", TOP);
    visitor.visit_mut_ident(&mut node, true, &mut acc);
    assert_eq!(node.sym, "_");
    assert_eq!(acc[0].symbol, "_");
}

#[test]
fn synthesize_keeps_the_order() {
    let matches = vec![
        ActiveReplacement { import: record("B", "B", "b"), symbol: "_B".to_string() },
        ActiveReplacement { import: record("A", "Z", "a"), symbol: "_A".to_string() },
    ];
    let scope = "Comp".to_string();
    assert_eq!(
        synthesize(&matches, &scope),
        vec![inject("_B", "B", "Comp"), inject("_A", "A", "Comp")]
    );
    assert_eq!(synthesize(&Vec::new(), &scope), vec![]);
}

#[test]
fn visit_mut_function_under_a_name_and_under_none() {
    let visitor = TransformVisitor::with_imports(vec![record("Modal", "Modal", "modal")]);
    let stmts = vec![reference("Modal", TOP)];
    let mut acc: Vec<ActiveReplacement> = Vec::new();

    let named = visitor.visit_mut_function(&stmts, &Some("C".to_string()), false, &mut acc);
    assert_eq!(named, vec![inject("_Modal", "Modal", "C"), reference("_Modal", TOP)]);
    assert_eq!(acc, vec![]);

    let unnamed = visitor.visit_mut_function(&stmts, &None, false, &mut acc);
    assert_eq!(unnamed, vec![reference("Modal", TOP)]);
    assert_eq!(acc, vec![]);
}

#[test]
fn visit_mut_program_keeps_the_table() {
    let mut program = module(react_and_modal(), vec![other(vec![reference("Modal", TOP)])]);
    let mut visitor = TransformVisitor::default();
    visitor.visit_mut_program(&mut program);
    assert_eq!(visitor.find_import(&ident("React", TOP)), Some(0));
    assert_eq!(visitor.find_import(&ident("Component", TOP)), Some(1));
    assert_eq!(visitor.find_import(&ident("Modal", TOP)), Some(2));
    assert_eq!(program, module(react_and_modal(), vec![other(vec![reference("Modal", TOP)])]));
}

#[test]
fn duplicates_are_equal() {
    let node = class_decl("A", vec![]);
    assert_eq!(node.kind.duplicate(), NodeKind::ClassDecl("A".to_string()));
    let decl = ImportDecl {
        specifiers: vec![default_import("A"), named_import("B", Some("C"), true)],
        src: "pkg".to_string(),
        type_only: false,
    };
    assert_eq!(decl.duplicate(), decl);
    assert_eq!(record("A", "B", "c").duplicate(), record("A", "B", "c"));
}

#[test]
fn function_and_arrow_components_rewrite_alike() {
    let visitor = TransformVisitor::with_imports(vec![record("Modal", "Modal", "modal")]);
    let children = || vec![other(vec![reference("Modal", TOP)]), body(vec![return_element("Modal", TOP)])];
    let mut from_function: Vec<ActiveReplacement> = Vec::new();
    let mut from_arrow: Vec<ActiveReplacement> = Vec::new();
    let name = "MyComponent".to_string();

    let function = visitor.visit_mut_fn_decl(&name, &children(), &None, false, &mut from_function);
    let arrow = visitor.visit_mut_var_declarator(&name, &children(), &None, false, &mut from_arrow);
    assert_eq!(function, arrow);
    assert_eq!(from_function, from_arrow);
    assert_eq!(
        function,
        vec![
            other(vec![reference("Modal", TOP)]),
            body(vec![inject("_Modal", "Modal", "MyComponent"), return_element("_Modal", TOP)]),
        ]
    );

    let outer = Some("Outer".to_string());
    let function = visitor.visit_mut_fn_decl(&name, &children(), &outer, true, &mut from_function);
    let arrow = visitor.visit_mut_var_declarator(&name, &children(), &outer, true, &mut from_arrow);
    assert_eq!(function, arrow);
    assert_eq!(from_function, from_arrow);
    assert_eq!(from_function.len(), 1);
    assert_eq!(
        function,
        vec![
            other(vec![reference("_Modal", TOP)]),
            body(vec![inject("_Modal", "Modal", "Outer"), return_element("_Modal", TOP)]),
        ]
    );
}

#[test]
fn class_overrides_the_active_name() {
    let visitor = TransformVisitor::with_imports(vec![record("Modal", "Modal", "modal")]);
    let mut acc: Vec<ActiveReplacement> = Vec::new();
    let node = class_decl("Inner", vec![body(vec![reference("Modal", TOP)])]);
    let out = visitor.visit_mut_node(&node, &Some("Outer".to_string()), false, &mut acc);
    assert_eq!(
        out,
        class_decl(
            "Inner",
            vec![body(vec![inject("_Modal", "Modal", "Inner"), reference("_Modal", TOP)])]
        )
    );
    assert_eq!(acc, vec![]);
}
