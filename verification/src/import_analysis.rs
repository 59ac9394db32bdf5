//! The import table: one record for each binding that an import declaration
//! brings in as a value.

use crate::ast::lemma_children_view;
use crate::ast::{
    Id, IdentView, ImportDecl, ImportDeclView, ImportSpecifier, ImportSpecifierView, NodeKind,
    NodeKindView, NodeView, Program,
};
use vstd::prelude::*;

verus! {

/// What is known of one imported binding.
#[derive(Debug, PartialEq, Eq)]
pub struct ImportSpecification {
    /// The identity of the local binding.
    pub symbol_id: (String, u32),
    /// The name that this module uses for the binding.
    pub local_imported_symbol: String,
    /// The name under which the package exports it; for a default or a
    /// namespace import, the local name.
    pub dependency_imported_symbol: String,
    /// The module specifier of the import declaration.
    pub package_name: String,
    /// Whether the binding is imported as a type only. No record of the table
    /// has it set.
    pub is_type_only: bool,
}

pub struct ImportSpecificationView {
    pub symbol_id: Id,
    pub local_imported_symbol: Seq<char>,
    pub dependency_imported_symbol: Seq<char>,
    pub package_name: Seq<char>,
    pub is_type_only: bool,
}

impl View for ImportSpecification {
    type V = ImportSpecificationView;

    open spec fn view(&self) -> ImportSpecificationView {
        ImportSpecificationView {
            symbol_id: (self.symbol_id.0@, self.symbol_id.1),
            local_imported_symbol: self.local_imported_symbol@,
            dependency_imported_symbol: self.dependency_imported_symbol@,
            package_name: self.package_name@,
            is_type_only: self.is_type_only,
        }
    }
}

impl ImportSpecification {
    pub fn duplicate(&self) -> (r: ImportSpecification)
        ensures
            r@ == self@,
    {
        ImportSpecification {
            symbol_id: (self.symbol_id.0.clone(), self.symbol_id.1),
            local_imported_symbol: self.local_imported_symbol.clone(),
            dependency_imported_symbol: self.dependency_imported_symbol.clone(),
            package_name: self.package_name.clone(),
            is_type_only: self.is_type_only,
        }
    }
}

/// The views of a list of records, in order.
pub open spec fn table_view(table: Seq<ImportSpecification>) -> Seq<ImportSpecificationView> {
    table.map_values(|s: ImportSpecification| s@)
}

/// The local identifier that a specifier binds.
pub open spec fn specifier_local(s: ImportSpecifierView) -> IdentView {
    match s {
        ImportSpecifierView::Named { local, .. } => local,
        ImportSpecifierView::Default { local } => local,
        ImportSpecifierView::Namespace { local } => local,
    }
}

/// Whether a specifier of a value import brings in a value: every one does but
/// a named specifier that is itself marked type-only.
pub open spec fn imports_value(s: ImportSpecifierView) -> bool {
    match s {
        ImportSpecifierView::Named { is_type_only, .. } => !is_type_only,
        _ => true,
    }
}

/// The name under which the package exports what a specifier binds.
pub open spec fn specifier_imported(s: ImportSpecifierView) -> Seq<char> {
    match s {
        ImportSpecifierView::Named { local, imported: Some(name), .. } => name,
        _ => specifier_local(s).sym,
    }
}

/// The record of a specifier in a declaration from `package`.
pub open spec fn record_of(package: Seq<char>, s: ImportSpecifierView) -> ImportSpecificationView {
    ImportSpecificationView {
        symbol_id: specifier_local(s).to_id(),
        local_imported_symbol: specifier_local(s).sym,
        dependency_imported_symbol: specifier_imported(s),
        package_name: package,
        is_type_only: false,
    }
}

/// The records of the value-importing specifiers among `specifiers`, in order.
pub open spec fn records_of(package: Seq<char>, specifiers: Seq<ImportSpecifierView>) -> Seq<
    ImportSpecificationView,
>
    decreases specifiers.len(),
{
    if specifiers.len() == 0 {
        Seq::empty()
    } else if imports_value(specifiers.last()) {
        records_of(package, specifiers.drop_last()).push(record_of(package, specifiers.last()))
    } else {
        records_of(package, specifiers.drop_last())
    }
}

/// The records that one declaration adds: none where the declaration as a
/// whole is type-only.
pub open spec fn decl_records(decl: ImportDeclView) -> Seq<ImportSpecificationView> {
    if decl.type_only {
        Seq::empty()
    } else {
        records_of(decl.src, decl.specifiers)
    }
}

/// The import table of a module: the records of its import declarations, in
/// source order.
pub open spec fn import_table(items: Seq<NodeView>) -> Seq<ImportSpecificationView>
    decreases items.len(),
{
    if items.len() == 0 {
        Seq::empty()
    } else {
        match items.last().kind {
            NodeKindView::Import(decl) => import_table(items.drop_last()) + decl_records(decl),
            _ => import_table(items.drop_last()),
        }
    }
}

/// Walks a module and collects its import table.
pub struct ImportAnalysis {
    import_specifications: Vec<ImportSpecification>,
}

impl View for ImportAnalysis {
    type V = Seq<ImportSpecificationView>;

    closed spec fn view(&self) -> Seq<ImportSpecificationView> {
        table_view(self.import_specifications@)
    }
}

impl ImportAnalysis {
    pub fn new() -> (r: ImportAnalysis)
        ensures
            r@ == Seq::<ImportSpecificationView>::empty(),
    {
        let r = ImportAnalysis { import_specifications: Vec::new() };
        proof {
            assert(r@ =~= Seq::<ImportSpecificationView>::empty());
        }
        r
    }

    pub fn into_import_specifications(self) -> (r: Vec<ImportSpecification>)
        ensures
            table_view(r@) == self@,
    {
        self.import_specifications
    }

    /// Adds the records of one import declaration.
    pub fn visit_import_decl(&mut self, node: &ImportDecl)
        ensures
            final(self)@ == old(self)@ + decl_records(node@),
    {
        if node.type_only {
            proof {
                assert(self@ =~= self@ + decl_records(node@));
            }
            return ;
        }
        let ghost before = self@;
        let ghost specifiers = node@.specifiers;
        let mut i: usize = 0;
        proof {
            assert(specifiers.take(0) =~= Seq::empty());
            assert(self@ =~= before + records_of(node@.src, specifiers.take(0)));
        }
        while i < node.specifiers.len()
            invariant
                i <= node.specifiers.len(),
                specifiers == node@.specifiers,
                specifiers.len() == node.specifiers.len(),
                self@ == before + records_of(node@.src, specifiers.take(i as int)),
            decreases node.specifiers.len() - i,
        {
            let ghost sofar = self@;
            proof {
                assert(specifiers.take(i + 1).drop_last() =~= specifiers.take(i as int));
                assert(specifiers.take(i + 1).last() == node.specifiers@[i as int]@);
            }
            match &node.specifiers[i] {
                ImportSpecifier::Named { local, imported, is_type_only } => {
                    if !*is_type_only {
                        let dependency_imported_symbol = match imported {
                            Some(name) => name.clone(),
                            None => local.sym.clone(),
                        };
                        self.import_specifications.push(
                            ImportSpecification {
                                symbol_id: (local.sym.clone(), local.ctxt),
                                local_imported_symbol: local.sym.clone(),
                                dependency_imported_symbol,
                                package_name: node.src.clone(),
                                is_type_only: false,
                            },
                        );
                    }
                },
                ImportSpecifier::Default { local } => {
                    self.import_specifications.push(
                        ImportSpecification {
                            symbol_id: (local.sym.clone(), local.ctxt),
                            local_imported_symbol: local.sym.clone(),
                            dependency_imported_symbol: local.sym.clone(),
                            package_name: node.src.clone(),
                            is_type_only: false,
                        },
                    );
                },
                ImportSpecifier::Namespace { local } => {
                    self.import_specifications.push(
                        ImportSpecification {
                            symbol_id: (local.sym.clone(), local.ctxt),
                            local_imported_symbol: local.sym.clone(),
                            dependency_imported_symbol: local.sym.clone(),
                            package_name: node.src.clone(),
                            is_type_only: false,
                        },
                    );
                },
            }
            proof {
                let s = node.specifiers@[i as int]@;
                if imports_value(s) {
                    assert(self@ =~= sofar.push(record_of(node@.src, s)));
                } else {
                    assert(self@ =~= sofar);
                }
                assert(self@ =~= before + records_of(node@.src, specifiers.take(i + 1)));
            }
            i += 1;
        }
        proof {
            assert(specifiers.take(i as int) =~= specifiers);
        }
    }

    /// Adds the records of every import declaration among a module's items.
    pub fn visit_program(&mut self, program: &Program)
        ensures
            final(self)@ == old(self)@ + import_table(program@),
    {
        let ghost before = self@;
        let ghost items = program@;
        let mut i: usize = 0;
        proof {
            assert(items.take(0) =~= Seq::empty());
            assert(self@ =~= before + import_table(items.take(0)));
        }
        while i < program.body.len()
            invariant
                i <= program.body.len(),
                items == program@,
                self@ == before + import_table(items.take(i as int)),
            decreases program.body.len() - i,
        {
            proof {
                assert(items.take(i + 1).drop_last() =~= items.take(i as int));
                assert(items.take(i + 1).last() == program.body@[i as int]@);
                lemma_children_view(program.body@[i as int]);
            }
            let ghost sofar = self@;
            match &program.body[i].kind {
                NodeKind::Import(decl) => {
                    self.visit_import_decl(decl);
                    proof {
                        assert(self@ =~= before + import_table(items.take(i + 1)));
                    }
                },
                _ => {},
            }
            i += 1;
        }
        proof {
            assert(items.take(i as int) =~= items);
        }
    }
}

} // verus!
