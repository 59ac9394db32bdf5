//! The syntax tree that the transform reads and rewrites.

use vstd::prelude::*;

verus! {

/// The resolved identity of a binding: its text and the number of the syntax
/// context in which it was declared.
pub type Id = (Seq<char>, u32);

/// An identifier occurrence.
#[derive(Debug, PartialEq, Eq)]
pub struct Ident {
    /// The visible text.
    pub sym: String,
    /// The syntax context that name resolution gave the occurrence. Two
    /// bindings of one name in different scopes have different contexts.
    pub ctxt: u32,
}

pub struct IdentView {
    pub sym: Seq<char>,
    pub ctxt: u32,
}

impl IdentView {
    /// The binding that the occurrence refers to.
    pub open spec fn to_id(self) -> Id {
        (self.sym, self.ctxt)
    }
}

impl View for Ident {
    type V = IdentView;

    open spec fn view(&self) -> IdentView {
        IdentView { sym: self.sym@, ctxt: self.ctxt }
    }
}

impl Ident {
    pub fn new(sym: String, ctxt: u32) -> (r: Ident)
        ensures
            r@ == (IdentView { sym: sym@, ctxt }),
    {
        Ident { sym, ctxt }
    }

    pub fn duplicate(&self) -> (r: Ident)
        ensures
            r@ == self@,
    {
        Ident { sym: self.sym.clone(), ctxt: self.ctxt }
    }
}

/// One specifier of an import declaration.
#[derive(Debug, PartialEq, Eq)]
pub enum ImportSpecifier {
    /// `import { imported as local }`, or `import { local }` where `imported`
    /// is `None`.
    Named { local: Ident, imported: Option<String>, is_type_only: bool },
    /// `import local`
    Default { local: Ident },
    /// `import * as local`
    Namespace { local: Ident },
}

pub enum ImportSpecifierView {
    Named { local: IdentView, imported: Option<Seq<char>>, is_type_only: bool },
    Default { local: IdentView },
    Namespace { local: IdentView },
}

/// The view of an optional string.
pub open spec fn opt_view(o: Option<String>) -> Option<Seq<char>> {
    match o {
        Some(s) => Some(s@),
        None => None,
    }
}

pub fn duplicate_opt(o: &Option<String>) -> (r: Option<String>)
    ensures
        opt_view(r) == opt_view(*o),
{
    match o {
        Some(s) => Some(s.clone()),
        None => None,
    }
}

impl View for ImportSpecifier {
    type V = ImportSpecifierView;

    open spec fn view(&self) -> ImportSpecifierView {
        match *self {
            ImportSpecifier::Named { local, imported, is_type_only } => ImportSpecifierView::Named {
                local: local@,
                imported: opt_view(imported),
                is_type_only,
            },
            ImportSpecifier::Default { local } => ImportSpecifierView::Default { local: local@ },
            ImportSpecifier::Namespace { local } => ImportSpecifierView::Namespace { local: local@ },
        }
    }
}

impl ImportSpecifier {
    pub fn duplicate(&self) -> (r: ImportSpecifier)
        ensures
            r@ == self@,
    {
        match self {
            ImportSpecifier::Named { local, imported, is_type_only } => ImportSpecifier::Named {
                local: local.duplicate(),
                imported: duplicate_opt(imported),
                is_type_only: *is_type_only,
            },
            ImportSpecifier::Default { local } => ImportSpecifier::Default { local: local.duplicate() },
            ImportSpecifier::Namespace { local } => ImportSpecifier::Namespace {
                local: local.duplicate(),
            },
        }
    }
}

/// An import declaration.
#[derive(Debug, PartialEq, Eq)]
pub struct ImportDecl {
    pub specifiers: Vec<ImportSpecifier>,
    /// The module specifier.
    pub src: String,
    /// Whether the whole declaration is `import type`.
    pub type_only: bool,
}

pub struct ImportDeclView {
    pub specifiers: Seq<ImportSpecifierView>,
    pub src: Seq<char>,
    pub type_only: bool,
}

impl View for ImportDecl {
    type V = ImportDeclView;

    open spec fn view(&self) -> ImportDeclView {
        ImportDeclView {
            specifiers: self.specifiers@.map_values(|s: ImportSpecifier| s@),
            src: self.src@,
            type_only: self.type_only,
        }
    }
}

impl ImportDecl {
    pub fn duplicate(&self) -> (r: ImportDecl)
        ensures
            r@ == self@,
    {
        let mut specifiers: Vec<ImportSpecifier> = Vec::new();
        let mut i: usize = 0;
        while i < self.specifiers.len()
            invariant
                i <= self.specifiers.len(),
                specifiers@.len() == i,
                forall|j: int| 0 <= j < i ==> specifiers@[j]@ == self.specifiers@[j]@,
            decreases self.specifiers.len() - i,
        {
            specifiers.push(self.specifiers[i].duplicate());
            i += 1;
        }
        proof {
            assert(specifiers@.map_values(|s: ImportSpecifier| s@) =~= self.specifiers@.map_values(
                |s: ImportSpecifier| s@,
            ));
        }
        ImportDecl { specifiers, src: self.src.clone(), type_only: self.type_only }
    }
}

/// The declaration `const [alias] = _di([local], scope);` that is put at the
/// head of a rewritten body.
#[derive(Debug, PartialEq, Eq)]
pub struct Injection {
    /// The name that the body uses from here on.
    pub alias: String,
    /// The import's local name, handed to the injection function.
    pub local: String,
    /// The name of the enclosing component, handed on as a value.
    pub scope: String,
}

pub struct InjectionView {
    pub alias: Seq<char>,
    pub local: Seq<char>,
    pub scope: Seq<char>,
}

impl View for Injection {
    type V = InjectionView;

    open spec fn view(&self) -> InjectionView {
        InjectionView { alias: self.alias@, local: self.local@, scope: self.scope@ }
    }
}

impl Injection {
    pub fn duplicate(&self) -> (r: Injection)
        ensures
            r@ == self@,
    {
        Injection {
            alias: self.alias.clone(),
            local: self.local.clone(),
            scope: self.scope.clone(),
        }
    }
}

/// What a node is, as far as the transform tells nodes apart.
#[derive(Debug, PartialEq, Eq)]
pub enum NodeKind {
    /// An identifier that refers to a binding.
    Reference(Ident),
    /// An import declaration. It has no children.
    Import(ImportDecl),
    /// A class declaration with its name; the children are the superclass
    /// expression and the members.
    ClassDecl(String),
    /// A function declaration with its name; the children are the parameters
    /// and the body.
    FnDecl(String),
    /// A variable declarator whose pattern is a plain identifier and whose
    /// initializer is an arrow function; the children are those of the arrow.
    ArrowVar(String),
    /// The block of a function, a method or an arrow function; the children
    /// are its statements.
    Body,
    /// A synthesized declaration. It has no children.
    Inject(Injection),
    /// Any other node; the children stand in source order.
    Other,
}

pub enum NodeKindView {
    Reference(IdentView),
    Import(ImportDeclView),
    ClassDecl(Seq<char>),
    FnDecl(Seq<char>),
    ArrowVar(Seq<char>),
    Body,
    Inject(InjectionView),
    Other,
}

impl View for NodeKind {
    type V = NodeKindView;

    open spec fn view(&self) -> NodeKindView {
        match *self {
            NodeKind::Reference(id) => NodeKindView::Reference(id@),
            NodeKind::Import(decl) => NodeKindView::Import(decl@),
            NodeKind::ClassDecl(name) => NodeKindView::ClassDecl(name@),
            NodeKind::FnDecl(name) => NodeKindView::FnDecl(name@),
            NodeKind::ArrowVar(name) => NodeKindView::ArrowVar(name@),
            NodeKind::Body => NodeKindView::Body,
            NodeKind::Inject(inj) => NodeKindView::Inject(inj@),
            NodeKind::Other => NodeKindView::Other,
        }
    }
}

impl NodeKind {
    pub fn duplicate(&self) -> (r: NodeKind)
        ensures
            r@ == self@,
    {
        match self {
            NodeKind::Reference(id) => NodeKind::Reference(id.duplicate()),
            NodeKind::Import(decl) => NodeKind::Import(decl.duplicate()),
            NodeKind::ClassDecl(name) => NodeKind::ClassDecl(name.clone()),
            NodeKind::FnDecl(name) => NodeKind::FnDecl(name.clone()),
            NodeKind::ArrowVar(name) => NodeKind::ArrowVar(name.clone()),
            NodeKind::Body => NodeKind::Body,
            NodeKind::Inject(inj) => NodeKind::Inject(inj.duplicate()),
            NodeKind::Other => NodeKind::Other,
        }
    }
}

/// A node of the tree.
#[derive(Debug, PartialEq, Eq)]
pub struct Node {
    pub kind: NodeKind,
    pub children: Vec<Node>,
}

pub struct NodeView {
    pub kind: NodeKindView,
    pub children: Seq<NodeView>,
}

/// The view of a node: the view of its kind over the views of its children.
pub open spec fn node_view(node: Node) -> NodeView
    decreases node,
{
    NodeView {
        kind: node.kind@,
        children: Seq::new(
            node.children@.len(),
            |i: int|
                if 0 <= i < node.children@.len() {
                    node_view(node.children@[i])
                } else {
                    arbitrary()
                },
        ),
    }
}

impl View for Node {
    type V = NodeView;

    open spec fn view(&self) -> NodeView {
        node_view(*self)
    }
}

/// The views of a list of nodes, in order.
pub open spec fn nodes_view(nodes: Seq<Node>) -> Seq<NodeView> {
    nodes.map_values(|n: Node| n@)
}

/// A node's children are viewed one by one.
pub proof fn lemma_children_view(node: Node)
    ensures
        node@.children == nodes_view(node.children@),
        node@.kind == node.kind@,
{
    assert(node@.children.len() == node.children@.len());
    assert forall|i: int| 0 <= i < node.children@.len() implies node@.children[i]
        == node.children@[i]@ by {}
    assert(node@.children =~= nodes_view(node.children@));
}

impl Node {
    pub fn new(kind: NodeKind, children: Vec<Node>) -> (r: Node)
        ensures
            r@ == (NodeView { kind: kind@, children: nodes_view(children@) }),
    {
        let r = Node { kind, children };
        proof {
            lemma_children_view(r);
        }
        r
    }
}

/// A module: its items in source order.
#[derive(Debug, PartialEq, Eq)]
pub struct Program {
    pub body: Vec<Node>,
}

impl View for Program {
    type V = Seq<NodeView>;

    open spec fn view(&self) -> Seq<NodeView> {
        nodes_view(self.body@)
    }
}

} // verus!
