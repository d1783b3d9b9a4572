//! The parts of an ECMAScript module that the transforms read and change: the
//! import declarations, and for each block its statements that are calls.
//! Everything else in a module is carried by position (`ModuleItem::Other`,
//! `Stmt::id`) and left as it is.
use vstd::prelude::*;

verus! {

/// An identifier with the syntax context that scope resolution gave it.
pub struct Ident {
    pub sym: String,
    pub ctxt: u32,
}

pub struct IdentV {
    pub sym: Seq<char>,
    pub ctxt: u32,
}

impl View for Ident {
    type V = IdentV;

    open spec fn view(&self) -> IdentV {
        IdentV { sym: self.sym@, ctxt: self.ctxt }
    }
}

impl Ident {
    pub fn clone_ident(&self) -> (r: Ident)
        ensures
            r@ == self@,
    {
        Ident { sym: self.sym.clone(), ctxt: self.ctxt }
    }

    /// Whether two identifiers have the same name and syntax context.
    pub fn same(&self, other: &Ident) -> (r: bool)
        ensures
            r == (self@ == other@),
    {
        self.sym == other.sym && self.ctxt == other.ctxt
    }
}

/// The name under which a module exports something: an identifier or a string.
pub enum ModuleExportName {
    Ident(String),
    Str(String),
}

pub enum ExportNameV {
    Ident(Seq<char>),
    Str(Seq<char>),
}

impl View for ModuleExportName {
    type V = ExportNameV;

    open spec fn view(&self) -> ExportNameV {
        match self {
            ModuleExportName::Ident(s) => ExportNameV::Ident(s@),
            ModuleExportName::Str(s) => ExportNameV::Str(s@),
        }
    }
}

impl ExportNameV {
    /// The exported name, whichever way it is written.
    pub open spec fn name(self) -> Seq<char> {
        match self {
            ExportNameV::Ident(s) => s,
            ExportNameV::Str(s) => s,
        }
    }
}

impl ModuleExportName {
    pub fn name(&self) -> (r: String)
        ensures
            r@ == self@.name(),
    {
        match self {
            ModuleExportName::Ident(s) => s.clone(),
            ModuleExportName::Str(s) => s.clone(),
        }
    }

    pub fn clone_name(&self) -> (r: ModuleExportName)
        ensures
            r@ == self@,
    {
        match self {
            ModuleExportName::Ident(s) => ModuleExportName::Ident(s.clone()),
            ModuleExportName::Str(s) => ModuleExportName::Str(s.clone()),
        }
    }
}

/// One specifier of an import declaration.
pub enum ImportSpecifier {
    /// `import { imported as local }`, or `import { local }` when `imported` is `None`.
    Named { local: Ident, imported: Option<ModuleExportName>, is_type_only: bool },
    /// `import local from ..`
    Default { local: Ident },
    /// `import * as local from ..`
    Namespace { local: Ident },
}

pub enum SpecifierV {
    Named { local: IdentV, imported: Option<ExportNameV>, is_type_only: bool },
    Default { local: IdentV },
    Namespace { local: IdentV },
}

pub open spec fn opt_name_view(o: Option<ModuleExportName>) -> Option<ExportNameV> {
    match o {
        Some(n) => Some(n@),
        None => None,
    }
}

impl View for ImportSpecifier {
    type V = SpecifierV;

    open spec fn view(&self) -> SpecifierV {
        match self {
            ImportSpecifier::Named { local, imported, is_type_only } => SpecifierV::Named {
                local: local@,
                imported: opt_name_view(*imported),
                is_type_only: *is_type_only,
            },
            ImportSpecifier::Default { local } => SpecifierV::Default { local: local@ },
            ImportSpecifier::Namespace { local } => SpecifierV::Namespace { local: local@ },
        }
    }
}

impl ImportSpecifier {
    pub fn clone_spec(&self) -> (r: ImportSpecifier)
        ensures
            r@ == self@,
    {
        match self {
            ImportSpecifier::Named { local, imported, is_type_only } => {
                let imported = match imported {
                    Some(n) => Some(n.clone_name()),
                    None => None,
                };
                ImportSpecifier::Named {
                    local: local.clone_ident(),
                    imported,
                    is_type_only: *is_type_only,
                }
            },
            ImportSpecifier::Default { local } => ImportSpecifier::Default {
                local: local.clone_ident(),
            },
            ImportSpecifier::Namespace { local } => ImportSpecifier::Namespace {
                local: local.clone_ident(),
            },
        }
    }
}

/// `import <specifiers> from "<src>"`. `origin` is the position of the parsed
/// import it stands for, whose specifiers it keeps (or some of them) and whose
/// other parts (import attributes, phase, quoting, positions) it carries
/// unviewed; `None` for an import the transforms make.
pub struct ImportDecl {
    pub src: String,
    pub specifiers: Vec<ImportSpecifier>,
    pub type_only: bool,
    pub origin: Option<usize>,
}

pub struct ImportDeclV {
    pub src: Seq<char>,
    pub specifiers: Seq<SpecifierV>,
    pub type_only: bool,
    pub origin: Option<usize>,
}

pub open spec fn specifiers_view(s: Seq<ImportSpecifier>) -> Seq<SpecifierV> {
    Seq::new(s.len(), |i: int| s[i]@)
}

impl View for ImportDecl {
    type V = ImportDeclV;

    open spec fn view(&self) -> ImportDeclV {
        ImportDeclV {
            src: self.src@,
            specifiers: specifiers_view(self.specifiers@),
            type_only: self.type_only,
            origin: self.origin,
        }
    }
}

/// A top-level item of a module.
pub enum ModuleItem {
    Import(ImportDecl),
    /// Any other item, identified by its position in the parsed module.
    Other(usize),
}

pub enum ItemV {
    Import(ImportDeclV),
    Other(usize),
}

impl View for ModuleItem {
    type V = ItemV;

    open spec fn view(&self) -> ItemV {
        match self {
            ModuleItem::Import(d) => ItemV::Import(d@),
            ModuleItem::Other(k) => ItemV::Other(*k),
        }
    }
}

pub open spec fn items_view(s: Seq<ModuleItem>) -> Seq<ItemV> {
    Seq::new(s.len(), |i: int| s[i]@)
}

/// A module: its top-level items in order.
pub struct ModuleItems {
    pub body: Vec<ModuleItem>,
}

impl View for ModuleItems {
    type V = Seq<ItemV>;

    open spec fn view(&self) -> Seq<ItemV> {
        items_view(self.body@)
    }
}

/// What a call statement calls.
pub enum Callee {
    /// `name(..)`
    Ident(Ident),
    /// `obj.prop(..)`; `obj` is `None` when the object is not an identifier,
    /// `prop` is `None` when the property is not an identifier.
    Member { obj: Option<Ident>, prop: Option<String> },
    /// Any other callee expression.
    Other,
}

pub enum CalleeV {
    Ident(IdentV),
    Member { obj: Option<IdentV>, prop: Option<Seq<char>> },
    Other,
}

impl View for Callee {
    type V = CalleeV;

    open spec fn view(&self) -> CalleeV {
        match self {
            Callee::Ident(i) => CalleeV::Ident(i@),
            Callee::Member { obj, prop } => CalleeV::Member {
                obj: match obj {
                    Some(o) => Some(o@),
                    None => None,
                },
                prop: match prop {
                    Some(p) => Some(p@),
                    None => None,
                },
            },
            Callee::Other => CalleeV::Other,
        }
    }
}

/// A statement of a block: `call` is set when it is an expression statement
/// whose expression is a call of an expression; `id` is its position in the block.
pub struct Stmt {
    pub id: usize,
    pub call: Option<Callee>,
}

pub struct StmtV {
    pub id: usize,
    pub call: Option<CalleeV>,
}

impl View for Stmt {
    type V = StmtV;

    open spec fn view(&self) -> StmtV {
        StmtV {
            id: self.id,
            call: match self.call {
                Some(c) => Some(c@),
                None => None,
            },
        }
    }
}

pub open spec fn stmts_view(s: Seq<Stmt>) -> Seq<StmtV> {
    Seq::new(s.len(), |i: int| s[i]@)
}

/// A block statement: its statements in order.
pub struct BlockStmt {
    pub stmts: Vec<Stmt>,
}

impl View for BlockStmt {
    type V = Seq<StmtV>;

    open spec fn view(&self) -> Seq<StmtV> {
        stmts_view(self.stmts@)
    }
}

/// A copy of a module item.
pub fn clone_item(item: &ModuleItem) -> (r: ModuleItem)
    ensures
        r@ == item@,
{
    match item {
        ModuleItem::Import(d) => {
            let mut specs: Vec<ImportSpecifier> = Vec::new();
            let mut j: usize = 0;
            while j < d.specifiers.len()
                invariant
                    j <= d.specifiers.len(),
                    specifiers_view(specs@) == specifiers_view(d.specifiers@).take(j as int),
                decreases d.specifiers.len() - j,
            {
                let ghost before = specs@;
                specs.push(d.specifiers[j].clone_spec());
                proof {
                    lemma_specifiers_view_push(before, specs@[before.len() as int]);
                }
                j = j + 1;
                assert(specifiers_view(specs@) =~= specifiers_view(d.specifiers@).take(j as int));
            }
            assert(specifiers_view(d.specifiers@).take(d.specifiers.len() as int) =~= specifiers_view(
                d.specifiers@,
            ));
            ModuleItem::Import(
                ImportDecl {
                    src: d.src.clone(),
                    specifiers: specs,
                    type_only: d.type_only,
                    origin: d.origin,
                },
            )
        },
        ModuleItem::Other(k) => ModuleItem::Other(*k),
    }
}

pub proof fn lemma_items_view_push(s: Seq<ModuleItem>, x: ModuleItem)
    ensures
        items_view(s.push(x)) == items_view(s).push(x@),
{
    assert(items_view(s.push(x)) =~= items_view(s).push(x@));
}

pub proof fn lemma_specifiers_view_push(s: Seq<ImportSpecifier>, x: ImportSpecifier)
    ensures
        specifiers_view(s.push(x)) == specifiers_view(s).push(x@),
{
    assert(specifiers_view(s.push(x)) =~= specifiers_view(s).push(x@));
}

pub proof fn lemma_stmts_view_push(s: Seq<Stmt>, x: Stmt)
    ensures
        stmts_view(s.push(x)) == stmts_view(s).push(x@),
{
    assert(stmts_view(s.push(x)) =~= stmts_view(s).push(x@));
}

} // verus!
