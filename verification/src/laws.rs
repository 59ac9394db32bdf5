//! What holds of the transform on every module.

use crate::ast::{
    IdentView, ImportDeclView, ImportSpecifierView, InjectionView, NodeKindView, NodeView,
};
use crate::import_analysis::{
    decl_records, import_table, imports_value, record_of, records_of, ImportSpecificationView,
};
use crate::transform::{
    alias_of, child_scope, injection_of, injections, is_first_match, lookup, rewrite_body,
    rewrite_ident, rewrite_kind, rewrite_node, rewrite_nodes, transform, ActiveReplacementView,
};
use crate::transform::{lemma_lookup_absent, lemma_lookup_found};
use vstd::prelude::*;

verus! {

/// Whether an import declaration brings in no value: it is type-only as a
/// whole, or each of its specifiers is.
pub open spec fn brings_no_value(decl: ImportDeclView) -> bool {
    decl.type_only || forall|i: int|
        0 <= i < decl.specifiers.len() ==> !imports_value(#[trigger] decl.specifiers[i])
}

/// Whether every import declaration among `items` brings in no value.
pub open spec fn only_type_imports(items: Seq<NodeView>) -> bool {
    forall|i: int|
        0 <= i < items.len() ==> match (#[trigger] items[i]).kind {
            NodeKindView::Import(decl) => brings_no_value(decl),
            _ => true,
        }
}

/// Whether a component is declared at a node or below it.
pub open spec fn declares_component(node: NodeView) -> bool
    decreases node,
{
    ||| node.kind is ClassDecl
    ||| node.kind is FnDecl
    ||| node.kind is ArrowVar
    ||| exists|i: int|
        0 <= i < node.children.len() && declares_component(#[trigger] node.children[i])
}

proof fn lemma_type_only_specifiers(package: Seq<char>, specifiers: Seq<ImportSpecifierView>)
    requires
        forall|i: int| 0 <= i < specifiers.len() ==> !imports_value(#[trigger] specifiers[i]),
    ensures
        records_of(package, specifiers).len() == 0,
    decreases specifiers.len(),
{
    if specifiers.len() > 0 {
        lemma_type_only_specifiers(package, specifiers.drop_last());
    }
}

/// A module whose import declarations are all type-only has an empty import
/// table.
pub proof fn law_type_only_imports_give_empty_table(items: Seq<NodeView>)
    requires
        only_type_imports(items),
    ensures
        import_table(items).len() == 0,
    decreases items.len(),
{
    if items.len() > 0 {
        law_type_only_imports_give_empty_table(items.drop_last());
        match items.last().kind {
            NodeKindView::Import(decl) => {
                if !decl.type_only {
                    lemma_type_only_specifiers(decl.src, decl.specifiers);
                }
            },
            _ => {},
        }
    }
}

proof fn lemma_records_import_values(package: Seq<char>, specifiers: Seq<ImportSpecifierView>)
    ensures
        forall|i: int|
            0 <= i < records_of(package, specifiers).len() ==> {
                let r = #[trigger] records_of(package, specifiers)[i];
                !r.is_type_only && r.package_name == package && r.symbol_id.0
                    == r.local_imported_symbol
            },
    decreases specifiers.len(),
{
    if specifiers.len() > 0 {
        lemma_records_import_values(package, specifiers.drop_last());
        let rest = records_of(package, specifiers.drop_last());
        let all = records_of(package, specifiers);
        assert forall|i: int| 0 <= i < all.len() implies {
            let r = #[trigger] all[i];
            !r.is_type_only && r.package_name == package && r.symbol_id.0
                == r.local_imported_symbol
        } by {
            if i < rest.len() {
                assert(all[i] == rest[i]);
            }
        }
    }
}

/// No record of a module's import table is type-only, and the identity of
/// each record carries the record's local name.
pub proof fn law_table_holds_values_only(items: Seq<NodeView>)
    ensures
        forall|i: int|
            0 <= i < import_table(items).len() ==> {
                let r = #[trigger] import_table(items)[i];
                !r.is_type_only && r.symbol_id.0 == r.local_imported_symbol
            },
    decreases items.len(),
{
    if items.len() > 0 {
        law_table_holds_values_only(items.drop_last());
        match items.last().kind {
            NodeKindView::Import(decl) => {
                lemma_records_import_values(decl.src, decl.specifiers);
                let rest = import_table(items.drop_last());
                let all = import_table(items);
                assert forall|i: int| 0 <= i < all.len() implies {
                    let r = #[trigger] all[i];
                    !r.is_type_only && r.symbol_id.0 == r.local_imported_symbol
                } by {
                    if i < rest.len() {
                        assert(all[i] == rest[i]);
                    } else {
                        assert(all[i] == decl_records(decl)[i - rest.len()]);
                    }
                }
            },
            _ => {},
        }
    }
}

/// Against an empty import table a node comes back as it was, under any
/// component name, inside a body or not, and reports no replacement.
pub proof fn law_empty_table_changes_nothing(
    table: Seq<ImportSpecificationView>,
    scope: Option<Seq<char>>,
    active: bool,
    node: NodeView,
)
    requires
        table.len() == 0,
    ensures
        rewrite_node(table, scope, active, node) == (node, Seq::<ActiveReplacementView>::empty()),
    decreases node, 0nat,
{
    let own = rewrite_kind(table, active, node.kind);
    assert(own == (node.kind, Seq::<ActiveReplacementView>::empty()));
    if node.kind is Body {
        match scope {
            Some(name) => {
                lemma_empty_table_siblings(table, scope, true, node.children);
                assert(injections(Seq::<ActiveReplacementView>::empty(), name) + node.children
                    =~= node.children);
            },
            None => {
                lemma_empty_table_siblings(table, scope, active, node.children);
            },
        }
    } else {
        lemma_empty_table_siblings(table, child_scope(node.kind, scope), active, node.children);
    }
    assert(own.1 + Seq::<ActiveReplacementView>::empty() =~= Seq::<
        ActiveReplacementView,
    >::empty());
}

proof fn lemma_empty_table_siblings(
    table: Seq<ImportSpecificationView>,
    scope: Option<Seq<char>>,
    active: bool,
    nodes: Seq<NodeView>,
)
    requires
        table.len() == 0,
    ensures
        rewrite_nodes(table, scope, active, nodes) == (
            nodes,
            Seq::<ActiveReplacementView>::empty(),
        ),
    decreases nodes, 0nat,
{
    if nodes.len() > 0 {
        lemma_empty_table_siblings(table, scope, active, nodes.drop_last());
        law_empty_table_changes_nothing(table, scope, active, nodes.last());
        assert(nodes.drop_last().push(nodes.last()) =~= nodes);
        assert(Seq::<ActiveReplacementView>::empty() + Seq::<ActiveReplacementView>::empty()
            =~= Seq::<ActiveReplacementView>::empty());
    } else {
        assert(nodes =~= Seq::<NodeView>::empty());
    }
}

/// A module that imports no value is left as it is.
pub proof fn law_no_value_imports_is_noop(items: Seq<NodeView>)
    requires
        only_type_imports(items),
    ensures
        import_table(items).len() == 0,
        transform(items) == items,
{
    law_type_only_imports_give_empty_table(items);
    lemma_empty_table_siblings(import_table(items), None, false, items);
}

/// A function declaration and a variable bound to an arrow function are
/// components alike: where no name is active each names the scope of its
/// children, and under any name their children are rewritten in the same way
/// and report the same replacements.
pub proof fn law_function_and_arrow_alike(
    table: Seq<ImportSpecificationView>,
    scope: Option<Seq<char>>,
    active: bool,
    name: Seq<char>,
    children: Seq<NodeView>,
)
    ensures
        child_scope(NodeKindView::FnDecl(name), None) == Some(name),
        child_scope(NodeKindView::ArrowVar(name), None) == Some(name),
        rewrite_node(
            table,
            scope,
            active,
            NodeView { kind: NodeKindView::FnDecl(name), children },
        ).0.children == rewrite_node(
            table,
            scope,
            active,
            NodeView { kind: NodeKindView::ArrowVar(name), children },
        ).0.children,
        rewrite_node(
            table,
            scope,
            active,
            NodeView { kind: NodeKindView::FnDecl(name), children },
        ).1 == rewrite_node(
            table,
            scope,
            active,
            NodeView { kind: NodeKindView::ArrowVar(name), children },
        ).1,
{
}

/// An identifier whose binding is none of the imported ones keeps its text,
/// whatever the text is: a local binding that shares an import's name has
/// another identity.
pub proof fn law_other_binding_untouched(
    table: Seq<ImportSpecificationView>,
    active: bool,
    ident: IdentView,
)
    requires
        forall|k: int| 0 <= k < table.len() ==> (#[trigger] table[k]).symbol_id != ident.to_id(),
    ensures
        rewrite_ident(table, active, ident) == (ident, Seq::<ActiveReplacementView>::empty()),
{
    lemma_lookup_absent(table, ident.to_id());
}

/// Whether a reference to an imported binding stands at a node or below it.
pub open spec fn refers_to_import(table: Seq<ImportSpecificationView>, node: NodeView) -> bool
    decreases node,
{
    ||| match node.kind {
        NodeKindView::Reference(ident) => lookup(table, ident.to_id()) is Some,
        _ => false,
    }
    ||| exists|i: int|
        0 <= i < node.children.len() && refers_to_import(table, #[trigger] node.children[i])
}

/// A subtree in which no identifier has the identity of an imported binding
/// comes back as it was, under any component name, inside a body or not:
/// names alone never match.
pub proof fn law_without_import_references_untouched(
    table: Seq<ImportSpecificationView>,
    scope: Option<Seq<char>>,
    active: bool,
    node: NodeView,
)
    requires
        !refers_to_import(table, node),
    ensures
        rewrite_node(table, scope, active, node) == (node, Seq::<ActiveReplacementView>::empty()),
    decreases node, 0nat,
{
    let own = rewrite_kind(table, active, node.kind);
    assert(own == (node.kind, Seq::<ActiveReplacementView>::empty()));
    assert forall|i: int| 0 <= i < node.children.len() implies !refers_to_import(
        table,
        #[trigger] node.children[i],
    ) by {}
    if node.kind is Body {
        match scope {
            Some(name) => {
                lemma_without_import_references_siblings(table, scope, true, node.children);
                assert(injections(Seq::<ActiveReplacementView>::empty(), name) + node.children
                    =~= node.children);
            },
            None => {
                lemma_without_import_references_siblings(table, scope, active, node.children);
            },
        }
    } else {
        lemma_without_import_references_siblings(
            table,
            child_scope(node.kind, scope),
            active,
            node.children,
        );
    }
    assert(own.1 + Seq::<ActiveReplacementView>::empty() =~= Seq::<
        ActiveReplacementView,
    >::empty());
}

proof fn lemma_without_import_references_siblings(
    table: Seq<ImportSpecificationView>,
    scope: Option<Seq<char>>,
    active: bool,
    nodes: Seq<NodeView>,
)
    requires
        forall|i: int| 0 <= i < nodes.len() ==> !refers_to_import(table, #[trigger] nodes[i]),
    ensures
        rewrite_nodes(table, scope, active, nodes) == (
            nodes,
            Seq::<ActiveReplacementView>::empty(),
        ),
    decreases nodes, 0nat,
{
    if nodes.len() > 0 {
        assert forall|i: int| 0 <= i < nodes.drop_last().len() implies !refers_to_import(
            table,
            #[trigger] nodes.drop_last()[i],
        ) by {
            assert(nodes.drop_last()[i] == nodes[i]);
        }
        lemma_without_import_references_siblings(table, scope, active, nodes.drop_last());
        law_without_import_references_untouched(table, scope, active, nodes.last());
        assert(nodes.drop_last().push(nodes.last()) =~= nodes);
        assert(Seq::<ActiveReplacementView>::empty() + Seq::<ActiveReplacementView>::empty()
            =~= Seq::<ActiveReplacementView>::empty());
    } else {
        assert(nodes =~= Seq::<NodeView>::empty());
    }
}

/// A named import under another local name is recorded with both names; a
/// reference to it inside a rewritable body shows the alias of the local
/// name, and the declaration made for it hands the local name on.
pub proof fn law_named_import_uses_local_name(
    package: Seq<char>,
    local: IdentView,
    exported: Seq<char>,
    scope: Seq<char>,
)
    ensures
        ({
            let specifier = ImportSpecifierView::Named {
                local,
                imported: Some(exported),
                is_type_only: false,
            };
            let record = record_of(package, specifier);
            let seen = rewrite_ident(seq![record], true, local);
            &&& records_of(package, seq![specifier]) == seq![record]
            &&& record.local_imported_symbol == local.sym
            &&& record.dependency_imported_symbol == exported
            &&& seen.0.sym == alias_of(local.sym)
            &&& seen.1.len() == 1
            &&& injection_of(seen.1[0], scope).kind == NodeKindView::Inject(
                InjectionView { alias: alias_of(local.sym), local: local.sym, scope },
            )
        }),
{
    let specifier = ImportSpecifierView::Named {
        local,
        imported: Some(exported),
        is_type_only: false,
    };
    let record = record_of(package, specifier);
    let table = seq![record];
    reveal_with_fuel(records_of, 2);
    assert(seq![specifier].drop_last() =~= Seq::<ImportSpecifierView>::empty());
    assert(records_of(package, seq![specifier]) =~= seq![record]);
    assert(is_first_match(table, local.to_id(), 0));
    lemma_lookup_found(table, local.to_id(), 0);
}

/// Outside a rewritable body nothing is renamed and nothing is reported,
/// whatever the import table holds.
pub proof fn law_inactive_ident_untouched(table: Seq<ImportSpecificationView>, ident: IdentView)
    ensures
        rewrite_ident(table, false, ident) == (ident, Seq::<ActiveReplacementView>::empty()),
{
}

/// A subtree that declares no component, visited under no component name and
/// outside any body, comes back as it was.
pub proof fn law_outside_component_untouched(table: Seq<ImportSpecificationView>, node: NodeView)
    requires
        !declares_component(node),
    ensures
        rewrite_node(table, None, false, node) == (node, Seq::<ActiveReplacementView>::empty()),
    decreases node, 0nat,
{
    let own = rewrite_kind(table, false, node.kind);
    assert(own == (node.kind, Seq::<ActiveReplacementView>::empty()));
    assert(child_scope(node.kind, None) == None::<Seq<char>>);
    assert forall|i: int| 0 <= i < node.children.len() implies !declares_component(
        #[trigger] node.children[i],
    ) by {}
    lemma_outside_component_siblings(table, node.children);
    assert(own.1 + Seq::<ActiveReplacementView>::empty() =~= Seq::<
        ActiveReplacementView,
    >::empty());
}

proof fn lemma_outside_component_siblings(
    table: Seq<ImportSpecificationView>,
    nodes: Seq<NodeView>,
)
    requires
        forall|i: int| 0 <= i < nodes.len() ==> !declares_component(#[trigger] nodes[i]),
    ensures
        rewrite_nodes(table, None, false, nodes) == (nodes, Seq::<ActiveReplacementView>::empty()),
    decreases nodes, 0nat,
{
    if nodes.len() > 0 {
        assert forall|i: int| 0 <= i < nodes.drop_last().len() implies !declares_component(
            #[trigger] nodes.drop_last()[i],
        ) by {
            assert(nodes.drop_last()[i] == nodes[i]);
        }
        lemma_outside_component_siblings(table, nodes.drop_last());
        law_outside_component_untouched(table, nodes.last());
        assert(nodes.drop_last().push(nodes.last()) =~= nodes);
        assert(Seq::<ActiveReplacementView>::empty() + Seq::<ActiveReplacementView>::empty()
            =~= Seq::<ActiveReplacementView>::empty());
    } else {
        assert(nodes =~= Seq::<NodeView>::empty());
    }
}

/// Whether a replacement pairs a record of the table with that record's alias.
pub open spec fn is_alias_of_import(
    table: Seq<ImportSpecificationView>,
    m: ActiveReplacementView,
) -> bool {
    &&& m.symbol == alias_of(m.import.local_imported_symbol)
    &&& exists|k: int| 0 <= k < table.len() && #[trigger] table[k] == m.import
}

/// The visit keeps the shape of the tree: siblings stay as many as they were.
/// Every replacement reported pairs an import of the table with its alias, and
/// outside a rewritable body none is reported.
pub proof fn law_replacements_are_aliases(
    table: Seq<ImportSpecificationView>,
    scope: Option<Seq<char>>,
    active: bool,
    nodes: Seq<NodeView>,
)
    ensures
        rewrite_nodes(table, scope, active, nodes).0.len() == nodes.len(),
        forall|i: int|
            0 <= i < rewrite_nodes(table, scope, active, nodes).1.len() ==> is_alias_of_import(
                table,
                #[trigger] rewrite_nodes(table, scope, active, nodes).1[i],
            ),
        !active ==> rewrite_nodes(table, scope, active, nodes).1.len() == 0,
    decreases nodes, 0nat,
{
    if nodes.len() > 0 {
        law_replacements_are_aliases(table, scope, active, nodes.drop_last());
        lemma_node_replacements_are_aliases(table, scope, active, nodes.last());
        let rest = rewrite_nodes(table, scope, active, nodes.drop_last()).1;
        let last = rewrite_node(table, scope, active, nodes.last()).1;
        let all = rewrite_nodes(table, scope, active, nodes).1;
        assert(all == rest + last);
        assert forall|i: int| 0 <= i < all.len() implies is_alias_of_import(
            table,
            #[trigger] all[i],
        ) by {
            if i < rest.len() {
                assert(all[i] == rest[i]);
            } else {
                assert(all[i] == last[i - rest.len()]);
            }
        }
    }
}

proof fn lemma_node_replacements_are_aliases(
    table: Seq<ImportSpecificationView>,
    scope: Option<Seq<char>>,
    active: bool,
    node: NodeView,
)
    ensures
        forall|i: int|
            0 <= i < rewrite_node(table, scope, active, node).1.len() ==> is_alias_of_import(
                table,
                #[trigger] rewrite_node(table, scope, active, node).1[i],
            ),
        !active ==> rewrite_node(table, scope, active, node).1.len() == 0,
    decreases node, 0nat,
{
    let own = rewrite_kind(table, active, node.kind);
    match node.kind {
        NodeKindView::Reference(ident) => {
            if own.1.len() > 0 {
                let k = lookup(table, ident.to_id())->0;
                assert(table[k] == own.1[0].import);
            }
        },
        _ => {},
    }
    if node.kind is Body {
        if scope is Some {
            law_replacements_are_aliases(table, scope, true, node.children);
        } else {
            law_replacements_are_aliases(table, scope, active, node.children);
        }
    } else {
        law_replacements_are_aliases(table, child_scope(node.kind, scope), active, node.children);
    }
}

/// A body visited under a component name gets one declaration for each
/// replacement made in its statements, repeated ones included, in the order
/// in which the references occur. The declarations come first and name the
/// component; the rewritten statements follow in their order. The body
/// reports nothing further up.
pub proof fn law_body_declares_every_replacement(
    table: Seq<ImportSpecificationView>,
    name: Seq<char>,
    active: bool,
    stmts: Seq<NodeView>,
)
    ensures
        ({
            let inner = rewrite_nodes(table, Some(name), true, stmts);
            let out = rewrite_body(table, Some(name), active, stmts);
            &&& out.1.len() == 0
            &&& out.0.len() == inner.1.len() + stmts.len()
            &&& forall|i: int|
                0 <= i < inner.1.len() ==> #[trigger] out.0[i] == injection_of(inner.1[i], name)
            &&& forall|i: int|
                0 <= i < stmts.len() ==> #[trigger] out.0[inner.1.len() + i] == inner.0[i]
        }),
{
    law_replacements_are_aliases(table, Some(name), true, stmts);
}

/// The transform drops no replacement: at the top of a module none is
/// reported, and the module keeps the number of its items.
pub proof fn law_transform_keeps_items(items: Seq<NodeView>)
    ensures
        transform(items).len() == items.len(),
        rewrite_nodes(import_table(items), None, false, items).1.len() == 0,
{
    law_replacements_are_aliases(import_table(items), None, false, items);
}

/// An import declaration is never edited.
pub proof fn law_import_declaration_kept(
    table: Seq<ImportSpecificationView>,
    scope: Option<Seq<char>>,
    active: bool,
    decl: ImportDeclView,
)
    ensures
        rewrite_node(
            table,
            scope,
            active,
            NodeView { kind: NodeKindView::Import(decl), children: Seq::empty() },
        ).0 == (NodeView { kind: NodeKindView::Import(decl), children: Seq::empty() }),
{
}

} // verus!
