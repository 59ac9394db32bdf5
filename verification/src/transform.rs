//! The rewriting pass: scope tracking, renaming of references to imported
//! bindings, and the declarations put at the head of each rewritten body.
//!
//! The pass hands its context down the tree as values. The name of the
//! enclosing component and the fact of being inside a rewritable body belong
//! to a subtree, so leaving a nested class or function gives the enclosing
//! one its own name and state back. Every body visited under a component name
//! collects the matches found below it, nested bodies excepted: a nested body
//! declares its own.

use crate::ast::{duplicate_opt, lemma_children_view, nodes_view, opt_view};
use crate::ast::{
    Id, Ident, IdentView, Injection, InjectionView, Node, NodeKind, NodeKindView, NodeView,
    Program,
};
use crate::import_analysis::{
    import_table, table_view, ImportAnalysis, ImportSpecification, ImportSpecificationView,
};
use vstd::prelude::*;

verus! {

/// A reference that was renamed: the alias it now shows and the import that it
/// stands for.
#[derive(Debug, PartialEq, Eq)]
pub struct ActiveReplacement {
    pub import: ImportSpecification,
    pub symbol: String,
}

pub struct ActiveReplacementView {
    pub import: ImportSpecificationView,
    pub symbol: Seq<char>,
}

impl View for ActiveReplacement {
    type V = ActiveReplacementView;

    open spec fn view(&self) -> ActiveReplacementView {
        ActiveReplacementView { import: self.import@, symbol: self.symbol@ }
    }
}

/// The views of a list of replacements, in order.
pub open spec fn replacements_view(list: Seq<ActiveReplacement>) -> Seq<ActiveReplacementView> {
    list.map_values(|r: ActiveReplacement| r@)
}

/// The alias of an import: its local name behind an underscore.
pub open spec fn alias_of(local: Seq<char>) -> Seq<char> {
    seq!['_'] + local
}

/// Whether record `k` is the first of the table that has the identity `id`.
pub open spec fn is_first_match(table: Seq<ImportSpecificationView>, id: Id, k: int) -> bool {
    &&& 0 <= k < table.len()
    &&& table[k].symbol_id == id
    &&& forall|j: int| 0 <= j < k ==> (#[trigger] table[j]).symbol_id != id
}

/// The index of the first record with the identity `id`, if there is one.
pub open spec fn lookup(table: Seq<ImportSpecificationView>, id: Id) -> Option<int> {
    if exists|k: int| is_first_match(table, id, k) {
        Some(choose|k: int| is_first_match(table, id, k))
    } else {
        None
    }
}

/// The first match is the only one.
pub proof fn lemma_lookup_found(table: Seq<ImportSpecificationView>, id: Id, k: int)
    requires
        is_first_match(table, id, k),
    ensures
        lookup(table, id) == Some(k),
{
    let c = choose|c: int| is_first_match(table, id, c);
    if c < k {
        assert(table[c].symbol_id != id);
    } else if k < c {
        assert(table[k].symbol_id != id);
    }
}

/// No record with the identity, no match.
pub proof fn lemma_lookup_absent(table: Seq<ImportSpecificationView>, id: Id)
    requires
        forall|j: int| 0 <= j < table.len() ==> (#[trigger] table[j]).symbol_id != id,
    ensures
        lookup(table, id) is None,
{
}

/// An identifier after the visit, and the replacement recorded for it: inside
/// a rewritable body a reference to an imported binding shows the alias.
pub open spec fn rewrite_ident(
    table: Seq<ImportSpecificationView>,
    active: bool,
    ident: IdentView,
) -> (IdentView, Seq<ActiveReplacementView>) {
    match lookup(table, ident.to_id()) {
        Some(k) if active => (
            IdentView { sym: alias_of(table[k].local_imported_symbol), ctxt: ident.ctxt },
            seq![
                ActiveReplacementView {
                    import: table[k],
                    symbol: alias_of(table[k].local_imported_symbol),
                },
            ],
        ),
        _ => (ident, Seq::empty()),
    }
}

/// A node's kind after the visit: only a reference can change.
pub open spec fn rewrite_kind(
    table: Seq<ImportSpecificationView>,
    active: bool,
    kind: NodeKindView,
) -> (NodeKindView, Seq<ActiveReplacementView>) {
    match kind {
        NodeKindView::Reference(ident) => (
            NodeKindView::Reference(rewrite_ident(table, active, ident).0),
            rewrite_ident(table, active, ident).1,
        ),
        _ => (kind, Seq::empty()),
    }
}

/// The component name under which the children of a node are visited. A class
/// always names its own; a function declaration or an arrow-bound variable
/// does so only where no name is active.
pub open spec fn child_scope(kind: NodeKindView, scope: Option<Seq<char>>) -> Option<Seq<char>> {
    match kind {
        NodeKindView::ClassDecl(name) => Some(name),
        NodeKindView::FnDecl(name) => if scope is None {
            Some(name)
        } else {
            scope
        },
        NodeKindView::ArrowVar(name) => if scope is None {
            Some(name)
        } else {
            scope
        },
        _ => scope,
    }
}

/// The declaration synthesized for one replacement under the component `scope`.
pub open spec fn injection_of(m: ActiveReplacementView, scope: Seq<char>) -> NodeView {
    NodeView {
        kind: NodeKindView::Inject(
            InjectionView { alias: m.symbol, local: m.import.local_imported_symbol, scope },
        ),
        children: Seq::empty(),
    }
}

/// One declaration for each replacement, in the order of the replacements.
pub open spec fn injections(matches: Seq<ActiveReplacementView>, scope: Seq<char>) -> Seq<
    NodeView,
> {
    Seq::new(matches.len(), |i: int| injection_of(matches[i], scope))
}

/// A node after the visit, and the replacements that it reports to the body
/// around it.
pub open spec fn rewrite_node(
    table: Seq<ImportSpecificationView>,
    scope: Option<Seq<char>>,
    active: bool,
    node: NodeView,
) -> (NodeView, Seq<ActiveReplacementView>)
    decreases node, 0nat,
{
    let own = rewrite_kind(table, active, node.kind);
    let inner = if node.kind is Body {
        rewrite_body(table, scope, active, node.children)
    } else {
        rewrite_nodes(table, child_scope(node.kind, scope), active, node.children)
    };
    (NodeView { kind: own.0, children: inner.0 }, own.1 + inner.1)
}

/// The statements of a body after the visit. Under a component name the
/// statements are rewritten, the declarations for the replacements found in
/// them come first, and nothing is reported further up. Under no name the
/// statements are visited like any other children.
pub open spec fn rewrite_body(
    table: Seq<ImportSpecificationView>,
    scope: Option<Seq<char>>,
    active: bool,
    stmts: Seq<NodeView>,
) -> (Seq<NodeView>, Seq<ActiveReplacementView>)
    decreases stmts, 1nat,
{
    match scope {
        Some(name) => {
            let inner = rewrite_nodes(table, scope, true, stmts);
            (injections(inner.1, name) + inner.0, Seq::empty())
        },
        None => rewrite_nodes(table, scope, active, stmts),
    }
}

/// A list of siblings after the visit, in source order, and their
/// replacements, those of an earlier sibling first.
pub open spec fn rewrite_nodes(
    table: Seq<ImportSpecificationView>,
    scope: Option<Seq<char>>,
    active: bool,
    nodes: Seq<NodeView>,
) -> (Seq<NodeView>, Seq<ActiveReplacementView>)
    decreases nodes, 0nat,
{
    if nodes.len() == 0 {
        (Seq::empty(), Seq::empty())
    } else {
        let rest = rewrite_nodes(table, scope, active, nodes.drop_last());
        let last = rewrite_node(table, scope, active, nodes.last());
        (rest.0.push(last.0), rest.1 + last.1)
    }
}

/// A module after the transform: its import table is built, then its items
/// are visited under no component name and outside any body.
pub open spec fn transform(items: Seq<NodeView>) -> Seq<NodeView> {
    rewrite_nodes(import_table(items), None, false, items).0
}

/// `format!` with one argument behind an underscore: the result is the
/// underscore followed by the characters of `local`.
#[verifier::external_body]
fn alias_name(local: &String) -> (r: String)
    ensures
        r@ == alias_of(local@),
{
    format!("_{}", local)
}

/// The declarations for a body's replacements, in their order.
pub fn synthesize(matches: &Vec<ActiveReplacement>, scope: &String) -> (r: Vec<Node>)
    ensures
        nodes_view(r@) == injections(replacements_view(matches@), scope@),
{
    let mut out: Vec<Node> = Vec::new();
    let mut i: usize = 0;
    while i < matches.len()
        invariant
            i <= matches.len(),
            out@.len() == i,
            forall|j: int|
                0 <= j < i ==> out@[j]@ == injection_of(
                    #[trigger] replacements_view(matches@)[j],
                    scope@,
                ),
        decreases matches.len() - i,
    {
        let m = &matches[i];
        let node = Node::new(
            NodeKind::Inject(
                Injection {
                    alias: m.symbol.clone(),
                    local: m.import.local_imported_symbol.clone(),
                    scope: scope.clone(),
                },
            ),
            Vec::new(),
        );
        proof {
            assert(nodes_view(Seq::<Node>::empty()) =~= Seq::<NodeView>::empty());
        }
        out.push(node);
        i += 1;
    }
    proof {
        assert(nodes_view(out@) =~= injections(replacements_view(matches@), scope@));
    }
    out
}

/// The component name under which the children of a node are visited.
pub fn scope_within(kind: &NodeKind, scope: &Option<String>) -> (r: Option<String>)
    ensures
        opt_view(r) == child_scope(kind@, opt_view(*scope)),
{
    match kind {
        NodeKind::ClassDecl(name) => Some(name.clone()),
        NodeKind::FnDecl(name) => match scope {
            None => Some(name.clone()),
            Some(active) => Some(active.clone()),
        },
        NodeKind::ArrowVar(name) => match scope {
            None => Some(name.clone()),
            Some(active) => Some(active.clone()),
        },
        _ => duplicate_opt(scope),
    }
}

/// The pass over a module, with the import table that it matches against.
pub struct TransformVisitor {
    imports: Vec<ImportSpecification>,
}

impl View for TransformVisitor {
    type V = Seq<ImportSpecificationView>;

    closed spec fn view(&self) -> Seq<ImportSpecificationView> {
        table_view(self.imports@)
    }
}

impl Default for TransformVisitor {
    fn default() -> (r: TransformVisitor)
        ensures
            r@ == Seq::<ImportSpecificationView>::empty(),
    {
        let r = TransformVisitor { imports: Vec::new() };
        proof {
            assert(r@ =~= Seq::<ImportSpecificationView>::empty());
        }
        r
    }
}

impl TransformVisitor {
    /// A visitor over a given import table.
    pub fn with_imports(imports: Vec<ImportSpecification>) -> (r: TransformVisitor)
        ensures
            r@ == table_view(imports@),
    {
        TransformVisitor { imports }
    }

    /// Finds the first record of the table that has the identity of `ident`.
    pub fn find_import(&self, ident: &Ident) -> (r: Option<usize>)
        ensures
            match r {
                Some(k) => lookup(self@, ident@.to_id()) == Some(k as int),
                None => lookup(self@, ident@.to_id()) is None,
            },
    {
        let mut i: usize = 0;
        while i < self.imports.len()
            invariant
                i <= self.imports.len(),
                forall|j: int| 0 <= j < i ==> (#[trigger] self@[j]).symbol_id != ident@.to_id(),
            decreases self.imports.len() - i,
        {
            let spec = &self.imports[i];
            if spec.symbol_id.0 == ident.sym && spec.symbol_id.1 == ident.ctxt {
                proof {
                    assert(self@[i as int] == self.imports@[i as int]@);
                    lemma_lookup_found(self@, ident@.to_id(), i as int);
                }
                return Some(i);
            }
            proof {
                assert(self@[i as int] == self.imports@[i as int]@);
            }
            i += 1;
        }
        proof {
            lemma_lookup_absent(self@, ident@.to_id());
        }
        None
    }

    /// Visits an identifier: inside a rewritable body a reference to an
    /// imported binding is renamed to the import's alias, and the replacement
    /// is added to `acc`.
    pub fn visit_mut_ident(
        &self,
        node: &mut Ident,
        active: bool,
        acc: &mut Vec<ActiveReplacement>,
    )
        ensures
            final(node)@ == rewrite_ident(self@, active, old(node)@).0,
            replacements_view(final(acc)@) == replacements_view(old(acc)@) + rewrite_ident(
                self@,
                active,
                old(node)@,
            ).1,
    {
        let ghost before = replacements_view(acc@);
        if !active {
            proof {
                assert(before =~= before + Seq::<ActiveReplacementView>::empty());
            }
            return ;
        }
        match self.find_import(node) {
            None => {
                proof {
                    assert(before =~= before + Seq::<ActiveReplacementView>::empty());
                }
            },
            Some(k) => {
                let import = self.imports[k].duplicate();
                let new_symbol = alias_name(&import.local_imported_symbol);
                node.sym = new_symbol.clone();
                acc.push(ActiveReplacement { import, symbol: new_symbol });
                proof {
                    assert(self@[k as int] == self.imports@[k as int]@);
                    assert(replacements_view(acc@) =~= before + rewrite_ident(
                        self@,
                        active,
                        old(node)@,
                    ).1);
                }
            },
        }
    }

    /// Visits a node and gives it back rewritten; the replacements that it
    /// reports are added to `acc`.
    pub fn visit_mut_node(
        &self,
        node: &Node,
        scope: &Option<String>,
        active: bool,
        acc: &mut Vec<ActiveReplacement>,
    ) -> (r: Node)
        ensures
            r@ == rewrite_node(self@, opt_view(*scope), active, node@).0,
            replacements_view(final(acc)@) == replacements_view(old(acc)@) + rewrite_node(
                self@,
                opt_view(*scope),
                active,
                node@,
            ).1,
        decreases node, 0nat,
    {
        let ghost before = replacements_view(acc@);
        proof {
            lemma_children_view(*node);
        }
        match &node.kind {
            NodeKind::Reference(ident) => {
                let mut renamed = ident.duplicate();
                self.visit_mut_ident(&mut renamed, active, acc);
                let children = self.visit_mut_children(&node.children, scope, active, acc);
                proof {
                    let own = rewrite_kind(self@, active, node@.kind);
                    let inner = rewrite_nodes(self@, opt_view(*scope), active, node@.children);
                    assert(replacements_view(acc@) =~= before + (own.1 + inner.1));
                }
                Node::new(NodeKind::Reference(renamed), children)
            },
            NodeKind::ClassDecl(name) => {
                let children = self.visit_mut_class_decl(name, &node.children, active, acc);
                proof {
                    let inner = rewrite_nodes(self@, Some(name@), active, node@.children);
                    assert(Seq::<ActiveReplacementView>::empty() + inner.1 =~= inner.1);
                }
                Node::new(NodeKind::ClassDecl(name.clone()), children)
            },
            NodeKind::FnDecl(name) => {
                let children = self.visit_mut_fn_decl(name, &node.children, scope, active, acc);
                proof {
                    let inner = rewrite_nodes(
                        self@,
                        child_scope(node@.kind, opt_view(*scope)),
                        active,
                        node@.children,
                    );
                    assert(Seq::<ActiveReplacementView>::empty() + inner.1 =~= inner.1);
                }
                Node::new(NodeKind::FnDecl(name.clone()), children)
            },
            NodeKind::ArrowVar(name) => {
                let children = self.visit_mut_var_declarator(
                    name,
                    &node.children,
                    scope,
                    active,
                    acc,
                );
                proof {
                    let inner = rewrite_nodes(
                        self@,
                        child_scope(node@.kind, opt_view(*scope)),
                        active,
                        node@.children,
                    );
                    assert(Seq::<ActiveReplacementView>::empty() + inner.1 =~= inner.1);
                }
                Node::new(NodeKind::ArrowVar(name.clone()), children)
            },
            NodeKind::Body => {
                let children = self.visit_mut_function(&node.children, scope, active, acc);
                proof {
                    let inner = rewrite_body(self@, opt_view(*scope), active, node@.children);
                    assert(Seq::<ActiveReplacementView>::empty() + inner.1 =~= inner.1);
                }
                Node::new(NodeKind::Body, children)
            },
            _ => {
                let children = self.visit_mut_children(&node.children, scope, active, acc);
                proof {
                    let inner = rewrite_nodes(self@, opt_view(*scope), active, node@.children);
                    assert(Seq::<ActiveReplacementView>::empty() + inner.1 =~= inner.1);
                }
                Node::new(node.kind.duplicate(), children)
            },
        }
    }

    /// Visits siblings in source order and gives them back rewritten.
    pub fn visit_mut_children(
        &self,
        children: &Vec<Node>,
        scope: &Option<String>,
        active: bool,
        acc: &mut Vec<ActiveReplacement>,
    ) -> (r: Vec<Node>)
        ensures
            nodes_view(r@) == rewrite_nodes(
                self@,
                opt_view(*scope),
                active,
                nodes_view(children@),
            ).0,
            replacements_view(final(acc)@) == replacements_view(old(acc)@) + rewrite_nodes(
                self@,
                opt_view(*scope),
                active,
                nodes_view(children@),
            ).1,
        decreases children, 0nat,
    {
        let ghost before = replacements_view(acc@);
        let ghost items = nodes_view(children@);
        let ghost sc = opt_view(*scope);
        let mut out: Vec<Node> = Vec::new();
        let mut i: usize = 0;
        proof {
            assert(items.take(0) =~= Seq::<NodeView>::empty());
            assert(nodes_view(out@) =~= Seq::<NodeView>::empty());
            assert(before =~= before + Seq::<ActiveReplacementView>::empty());
        }
        while i < children.len()
            invariant
                i <= children.len(),
                items == nodes_view(children@),
                sc == opt_view(*scope),
                nodes_view(out@) == rewrite_nodes(self@, sc, active, items.take(i as int)).0,
                replacements_view(acc@) == before + rewrite_nodes(
                    self@,
                    sc,
                    active,
                    items.take(i as int),
                ).1,
            decreases children.len() - i,
        {
            let ghost out_before = nodes_view(out@);
            let ghost acc_before = replacements_view(acc@);
            let node = self.visit_mut_node(&children[i], scope, active, acc);
            let ghost node_view = node@;
            out.push(node);
            proof {
                assert(items.take(i + 1).drop_last() =~= items.take(i as int));
                assert(items.take(i + 1).last() == children@[i as int]@);
                let rest = rewrite_nodes(self@, sc, active, items.take(i as int));
                let last = rewrite_node(self@, sc, active, children@[i as int]@);
                assert(nodes_view(out@) =~= out_before.push(node_view));
                assert(replacements_view(acc@) =~= before + (rest.1 + last.1));
            }
            i += 1;
        }
        proof {
            assert(items.take(i as int) =~= items);
        }
        out
    }

    /// Visits the children of a class declaration: under the class's name,
    /// whatever name was active.
    pub fn visit_mut_class_decl(
        &self,
        name: &String,
        children: &Vec<Node>,
        active: bool,
        acc: &mut Vec<ActiveReplacement>,
    ) -> (r: Vec<Node>)
        ensures
            nodes_view(r@) == rewrite_nodes(self@, Some(name@), active, nodes_view(children@)).0,
            replacements_view(final(acc)@) == replacements_view(old(acc)@) + rewrite_nodes(
                self@,
                Some(name@),
                active,
                nodes_view(children@),
            ).1,
        decreases children, 1nat,
    {
        let inner = Some(name.clone());
        self.visit_mut_children(children, &inner, active, acc)
    }

    /// Visits the children of a function declaration: under its name where no
    /// name is active, else under the active one.
    pub fn visit_mut_fn_decl(
        &self,
        name: &String,
        children: &Vec<Node>,
        scope: &Option<String>,
        active: bool,
        acc: &mut Vec<ActiveReplacement>,
    ) -> (r: Vec<Node>)
        ensures
            nodes_view(r@) == rewrite_nodes(
                self@,
                child_scope(NodeKindView::FnDecl(name@), opt_view(*scope)),
                active,
                nodes_view(children@),
            ).0,
            replacements_view(final(acc)@) == replacements_view(old(acc)@) + rewrite_nodes(
                self@,
                child_scope(NodeKindView::FnDecl(name@), opt_view(*scope)),
                active,
                nodes_view(children@),
            ).1,
        decreases children, 1nat,
    {
        if scope.is_none() {
            let inner = Some(name.clone());
            self.visit_mut_children(children, &inner, active, acc)
        } else {
            self.visit_mut_children(children, scope, active, acc)
        }
    }

    /// Visits the children of a variable bound to an arrow function: under the
    /// variable's name where no name is active, else under the active one.
    pub fn visit_mut_var_declarator(
        &self,
        name: &String,
        children: &Vec<Node>,
        scope: &Option<String>,
        active: bool,
        acc: &mut Vec<ActiveReplacement>,
    ) -> (r: Vec<Node>)
        ensures
            nodes_view(r@) == rewrite_nodes(
                self@,
                child_scope(NodeKindView::ArrowVar(name@), opt_view(*scope)),
                active,
                nodes_view(children@),
            ).0,
            replacements_view(final(acc)@) == replacements_view(old(acc)@) + rewrite_nodes(
                self@,
                child_scope(NodeKindView::ArrowVar(name@), opt_view(*scope)),
                active,
                nodes_view(children@),
            ).1,
        decreases children, 1nat,
    {
        if scope.is_none() {
            let inner = Some(name.clone());
            self.visit_mut_children(children, &inner, active, acc)
        } else {
            self.visit_mut_children(children, scope, active, acc)
        }
    }

    /// Visits the statements of a body. Under a component name they are
    /// rewritten as a rewritable body, and the declarations for the
    /// replacements found come first; `acc` is left as it was.
    pub fn visit_mut_function(
        &self,
        stmts: &Vec<Node>,
        scope: &Option<String>,
        active: bool,
        acc: &mut Vec<ActiveReplacement>,
    ) -> (r: Vec<Node>)
        ensures
            nodes_view(r@) == rewrite_body(
                self@,
                opt_view(*scope),
                active,
                nodes_view(stmts@),
            ).0,
            replacements_view(final(acc)@) == replacements_view(old(acc)@) + rewrite_body(
                self@,
                opt_view(*scope),
                active,
                nodes_view(stmts@),
            ).1,
        decreases stmts, 1nat,
    {
        match scope {
            None => self.visit_mut_children(stmts, scope, active, acc),
            Some(name) => {
                let ghost before = replacements_view(acc@);
                let mut found: Vec<ActiveReplacement> = Vec::new();
                proof {
                    assert(replacements_view(found@) =~= Seq::<ActiveReplacementView>::empty());
                }
                let mut rewritten = self.visit_mut_children(stmts, scope, true, &mut found);
                let mut out = synthesize(&found, name);
                let ghost head = nodes_view(out@);
                let ghost tail = nodes_view(rewritten@);
                out.append(&mut rewritten);
                proof {
                    let inner = rewrite_nodes(self@, opt_view(*scope), true, nodes_view(stmts@));
                    assert(replacements_view(found@) =~= inner.1);
                    assert(nodes_view(out@) =~= head + tail);
                    assert(before =~= before + Seq::<ActiveReplacementView>::empty());
                }
                out
            },
        }
    }

    /// Builds the import table of a module and rewrites the module.
    pub fn visit_mut_program(&mut self, node: &mut Program)
        ensures
            final(self)@ == import_table(old(node)@),
            final(node)@ == transform(old(node)@),
    {
        let mut import_analysis = ImportAnalysis::new();
        import_analysis.visit_program(node);
        proof {
            assert(import_analysis@ =~= import_table(node@));
        }
        self.imports = import_analysis.into_import_specifications();
        let mut unused: Vec<ActiveReplacement> = Vec::new();
        let body = self.visit_mut_children(&node.body, &None, false, &mut unused);
        node.body = body;
    }
}

/// Rewrites a module.
pub fn process_transform(program: Program) -> (r: Program)
    ensures
        r@ == transform(program@),
{
    let mut program = program;
    let mut visitor = TransformVisitor::default();
    visitor.visit_mut_program(&mut program);
    program
}

} // verus!
