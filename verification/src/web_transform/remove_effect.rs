//! Removing the statements that call React's `useEffect`.
use vstd::prelude::*;

use crate::text::str_eq;
use crate::types::TransformConfig;
use crate::web_transform::ast::{
    lemma_stmts_view_push, BlockStmt, Callee, CalleeV, ExportNameV, Ident, IdentV, ImportDeclV,
    ImportSpecifier, ItemV, ModuleItems, ModuleItem, SpecifierV, StmtV,
};
use crate::web_transform::remove_call::clone_stmt;

verus! {

/// The identifiers that stand for `useEffect` and for the React module.
pub struct MarksV {
    pub use_effect: Option<IdentV>,
    pub react: Option<IdentV>,
}

/// The marks after specifier `s` of an import from "react": a named import of
/// `useEffect` marks its local name as `useEffect`, a default import marks its
/// local name as React.
pub open spec fn specifier_marks(s: SpecifierV, m: MarksV) -> MarksV {
    match s {
        SpecifierV::Named { local, imported, .. } => {
            let name = match imported {
                Some(n) => n.name(),
                None => local.sym,
            };
            if name == "useEffect"@ {
                MarksV { use_effect: Some(local), react: m.react }
            } else {
                m
            }
        },
        SpecifierV::Default { local } => MarksV { use_effect: m.use_effect, react: Some(local) },
        SpecifierV::Namespace { .. } => m,
    }
}

/// The marks after the specifiers of an import from "react", in order.
pub open spec fn specs_marks(specs: Seq<SpecifierV>, m: MarksV) -> MarksV
    decreases specs.len(),
{
    if specs.len() == 0 {
        m
    } else {
        specifier_marks(specs.last(), specs_marks(specs.drop_last(), m))
    }
}

/// The marks of a module: set by its imports from "react", the later ones winning.
pub open spec fn module_marks(items: Seq<ItemV>) -> MarksV
    decreases items.len(),
{
    if items.len() == 0 {
        MarksV { use_effect: None, react: None }
    } else {
        let m = module_marks(items.drop_last());
        match items.last() {
            ItemV::Import(d) => if d.src == "react"@ {
                specs_marks(d.specifiers, m)
            } else {
                m
            },
            ItemV::Other(_) => m,
        }
    }
}

/// `s` calls `useEffect`: through the identifier marked as `useEffect`, or as
/// the `useEffect` method of the identifier marked as React.
pub open spec fn calls_effect(m: MarksV, s: StmtV) -> bool {
    match s.call {
        Some(CalleeV::Ident(i)) => m.use_effect == Some(i),
        Some(CalleeV::Member { obj: Some(o), prop: Some(p) }) => m.react == Some(o) && p
            == "useEffect"@,
        _ => false,
    }
}

/// The statements of `stmts` that do not call `useEffect`, in order.
pub open spec fn without_effects(stmts: Seq<StmtV>, m: MarksV) -> Seq<StmtV>
    decreases stmts.len(),
{
    if stmts.len() == 0 {
        Seq::<StmtV>::empty()
    } else {
        let prev = without_effects(stmts.drop_last(), m);
        if calls_effect(m, stmts.last()) {
            prev
        } else {
            prev.push(stmts.last())
        }
    }
}

/// Removes, from each block it visits, the statements that call `useEffect`.
pub struct RmUseEffect {
    /// The identifier that stands for `useEffect`.
    pub use_effect_mark: Option<Ident>,
    /// The identifier that stands for the React module.
    pub react_mark: Option<Ident>,
}

pub open spec fn opt_ident_view(o: Option<Ident>) -> Option<IdentV> {
    match o {
        Some(i) => Some(i@),
        None => None,
    }
}

fn opt_same(o: &Option<Ident>, i: &Ident) -> (r: bool)
    ensures
        r == (opt_ident_view(*o) == Some(i@)),
{
    match o {
        Some(m) => m.same(i),
        None => false,
    }
}

impl RmUseEffect {
    pub open spec fn marks(self) -> MarksV {
        MarksV {
            use_effect: opt_ident_view(self.use_effect_mark),
            react: opt_ident_view(self.react_mark),
        }
    }

    /// Whether statement `s` calls `useEffect`.
    pub fn removes(&self, s: &crate::web_transform::ast::Stmt) -> (r: bool)
        ensures
            r == calls_effect(self.marks(), s@),
    {
        match &s.call {
            Some(Callee::Ident(i)) => opt_same(&self.use_effect_mark, i),
            Some(Callee::Member { obj: Some(o), prop: Some(p) }) => {
                proof {
                    reveal_strlit("useEffect");
                }
                opt_same(&self.react_mark, o) && str_eq(p.as_str(), "useEffect")
            },
            _ => false,
        }
    }

    /// Removes from the block the statements that call `useEffect`.
    pub fn visit_mut_block_stmt(&self, n: &mut BlockStmt)
        ensures
            final(n)@ == without_effects(old(n)@, self.marks()),
    {
        let ghost stmts = n@;
        let mut kept: Vec<crate::web_transform::ast::Stmt> = Vec::new();
        let mut i: usize = 0;
        while i < n.stmts.len()
            invariant
                i <= n.stmts.len(),
                stmts == n@,
                crate::web_transform::ast::stmts_view(kept@) == without_effects(
                    stmts.take(i as int),
                    self.marks(),
                ),
            decreases n.stmts.len() - i,
        {
            assert(stmts.take(i + 1).drop_last() =~= stmts.take(i as int));
            assert(stmts.take(i + 1).last() == n.stmts@[i as int]@);
            if !self.removes(&n.stmts[i]) {
                let ghost before = kept@;
                kept.push(clone_stmt(&n.stmts[i]));
                proof {
                    lemma_stmts_view_push(before, kept@[before.len() as int]);
                }
            }
            i = i + 1;
        }
        assert(stmts.take(n.stmts.len() as int) =~= stmts);
        n.stmts = kept;
    }
}

/// Updates the marks with the specifiers of an import from "react".
fn mark_specifiers(v: &mut RmUseEffect, specs: &Vec<ImportSpecifier>)
    ensures
        final(v).marks() == specs_marks(
            crate::web_transform::ast::specifiers_view(specs@),
            old(v).marks(),
        ),
{
    let ghost sv = crate::web_transform::ast::specifiers_view(specs@);
    let ghost m0 = v.marks();
    let mut j: usize = 0;
    while j < specs.len()
        invariant
            j <= specs.len(),
            sv == crate::web_transform::ast::specifiers_view(specs@),
            v.marks() == specs_marks(sv.take(j as int), m0),
        decreases specs.len() - j,
    {
        assert(sv.take(j + 1).drop_last() =~= sv.take(j as int));
        assert(sv.take(j + 1).last() == specs@[j as int]@);
        proof {
            reveal_strlit("useEffect");
        }
        match &specs[j] {
            ImportSpecifier::Named { local, imported, .. } => {
                let name = match imported {
                    Some(n) => n.name(),
                    None => local.sym.clone(),
                };
                if str_eq(name.as_str(), "useEffect") {
                    v.use_effect_mark = Some(local.clone_ident());
                }
            },
            ImportSpecifier::Default { local } => {
                v.react_mark = Some(local.clone_ident());
            },
            ImportSpecifier::Namespace { .. } => {},
        }
        j = j + 1;
    }
    assert(sv.take(specs.len() as int) =~= sv);
}

/// The remover of `useEffect` calls that a config asks for, with the marks the
/// module's imports from "react" set; none unless `remove_use_effect` is set to true.
pub fn remove_call(module: &ModuleItems, config: &TransformConfig) -> (r: Option<RmUseEffect>)
    ensures
        match config.remove_use_effect {
            Some(true) => r matches Some(v) && v.marks() == module_marks(module@),
            _ => r is None,
        },
{
    match config.remove_use_effect {
        Some(true) => {},
        _ => {
            return None;
        },
    }
    let mut visitor = RmUseEffect { react_mark: None, use_effect_mark: None };
    let ghost items = module@;
    let mut i: usize = 0;
    while i < module.body.len()
        invariant
            i <= module.body.len(),
            items == module@,
            visitor.marks() == module_marks(items.take(i as int)),
        decreases module.body.len() - i,
    {
        assert(items.take(i + 1).drop_last() =~= items.take(i as int));
        assert(items.take(i + 1).last() == module.body@[i as int]@);
        if let ModuleItem::Import(var) = &module.body[i] {
            if str_eq(var.src.as_str(), "react") {
                mark_specifiers(&mut visitor, &var.specifiers);
            }
        }
        i = i + 1;
    }
    assert(items.take(module.body.len() as int) =~= items);
    Some(visitor)
}

/// Removing `useEffect` calls a second time removes nothing more.
pub proof fn lemma_remove_effect_idempotent(stmts: Seq<StmtV>, m: MarksV)
    ensures
        without_effects(without_effects(stmts, m), m) == without_effects(stmts, m),
    decreases stmts.len(),
{
    if stmts.len() > 0 {
        lemma_remove_effect_idempotent(stmts.drop_last(), m);
        let prev = without_effects(stmts.drop_last(), m);
        if !calls_effect(m, stmts.last()) {
            assert(prev.push(stmts.last()).drop_last() =~= prev);
        }
    }
}

/// A module that imports nothing from "react" marks nothing, so no statement is removed.
pub proof fn lemma_no_react_import_no_removal(items: Seq<ItemV>, stmts: Seq<StmtV>)
    requires
        forall|i: int|
            0 <= i < items.len() ==> !(#[trigger] items[i] matches ItemV::Import(d) && d.src
                == "react"@),
    ensures
        module_marks(items) == (MarksV { use_effect: None, react: None }),
        without_effects(stmts, module_marks(items)) == stmts,
    decreases items.len() + stmts.len(),
{
    if items.len() > 0 {
        assert forall|i: int| 0 <= i < items.drop_last().len() implies !(
        #[trigger] items.drop_last()[i] matches ItemV::Import(d) && d.src == "react"@) by {
            assert(items.drop_last()[i] == items[i]);
        }
        lemma_no_react_import_no_removal(items.drop_last(), stmts);
        assert(!(items[items.len() - 1] matches ItemV::Import(d) && d.src == "react"@));
    } else if stmts.len() > 0 {
        lemma_no_react_import_no_removal(items, stmts.drop_last());
        assert(stmts.drop_last().push(stmts.last()) =~= stmts);
    }
}

/// Whether a specifier of an import from "react" sets a mark: a default
/// import, or a named import of `useEffect`.
pub open spec fn marking(s: SpecifierV) -> bool {
    match s {
        SpecifierV::Named { local, imported, .. } => match imported {
            Some(n) => n.name() == "useEffect"@,
            None => local.sym == "useEffect"@,
        },
        SpecifierV::Default { .. } => true,
        SpecifierV::Namespace { .. } => false,
    }
}

/// Whether a module item sets a mark: an import from "react" with a marking
/// specifier.
pub open spec fn sets_a_mark(item: ItemV) -> bool {
    match item {
        ItemV::Import(d) => d.src == "react"@ && exists|j: int|
            0 <= j < d.specifiers.len() && #[trigger] marking(d.specifiers[j]),
        ItemV::Other(_) => false,
    }
}

proof fn lemma_specs_without_marking(specs: Seq<SpecifierV>, m: MarksV)
    requires
        forall|j: int| 0 <= j < specs.len() ==> !#[trigger] marking(specs[j]),
    ensures
        specs_marks(specs, m) == m,
    decreases specs.len(),
{
    if specs.len() > 0 {
        assert forall|j: int| 0 <= j < specs.drop_last().len() implies !#[trigger] marking(
            specs.drop_last()[j],
        ) by {
            assert(specs.drop_last()[j] == specs[j]);
        }
        lemma_specs_without_marking(specs.drop_last(), m);
        assert(!marking(specs[specs.len() - 1]));
    }
}

/// Items that set no mark leave the marks as they were: an import from
/// "react" of other names (or one of its namespace) neither sets nor clears
/// the marks that earlier imports set.
pub proof fn lemma_marks_kept_by_other_items(items: Seq<ItemV>, more: Seq<ItemV>)
    requires
        forall|k: int| 0 <= k < more.len() ==> !#[trigger] sets_a_mark(more[k]),
    ensures
        module_marks(items + more) == module_marks(items),
    decreases more.len(),
{
    if more.len() > 0 {
        let all = items + more;
        assert(all.drop_last() =~= items + more.drop_last());
        assert(all.last() == more.last());
        assert forall|k: int| 0 <= k < more.drop_last().len() implies !#[trigger] sets_a_mark(
            more.drop_last()[k],
        ) by {
            assert(more.drop_last()[k] == more[k]);
        }
        lemma_marks_kept_by_other_items(items, more.drop_last());
        assert(!sets_a_mark(more[more.len() - 1]));
        if let ItemV::Import(d) = more.last() {
            if d.src == "react"@ {
                lemma_specs_without_marking(d.specifiers, module_marks(items + more.drop_last()));
            }
        }
    } else {
        assert(items + more =~= items);
    }
}

/// A default import from "react" makes its local name the React mark and
/// leaves the `useEffect` mark as earlier imports set it.
pub proof fn lemma_default_import_marks_react(items: Seq<ItemV>, d: ImportDeclV, local: IdentV)
    requires
        d.src == "react"@,
        d.specifiers == seq![SpecifierV::Default { local }],
    ensures
        module_marks(items.push(ItemV::Import(d))) == (MarksV {
            use_effect: module_marks(items).use_effect,
            react: Some(local),
        }),
{
    let all = items.push(ItemV::Import(d));
    assert(all.drop_last() =~= items);
    assert(all.last() == ItemV::Import(d));
    let m = module_marks(items);
    assert(d.specifiers.drop_last() =~= Seq::<SpecifierV>::empty());
    assert(specs_marks(d.specifiers.drop_last(), m) == m);
    assert(d.specifiers.last() == d.specifiers[0]);
    assert(specs_marks(d.specifiers, m) == specifier_marks(d.specifiers[0], m));
    assert(module_marks(all) == specs_marks(d.specifiers, m));
}

/// A named import of `useEffect` from "react" makes its local name the
/// `useEffect` mark and leaves the React mark as earlier imports set it.
pub proof fn lemma_use_effect_import_marks_use_effect(
    items: Seq<ItemV>,
    d: ImportDeclV,
    local: IdentV,
    imported: Option<ExportNameV>,
    is_type_only: bool,
)
    requires
        d.src == "react"@,
        d.specifiers == seq![SpecifierV::Named { local, imported, is_type_only }],
        match imported {
            Some(n) => n.name() == "useEffect"@,
            None => local.sym == "useEffect"@,
        },
    ensures
        module_marks(items.push(ItemV::Import(d))) == (MarksV {
            use_effect: Some(local),
            react: module_marks(items).react,
        }),
{
    let all = items.push(ItemV::Import(d));
    assert(all.drop_last() =~= items);
    assert(all.last() == ItemV::Import(d));
    let m = module_marks(items);
    assert(d.specifiers.drop_last() =~= Seq::<SpecifierV>::empty());
    assert(specs_marks(d.specifiers.drop_last(), m) == m);
    assert(d.specifiers.last() == d.specifiers[0]);
    assert(specs_marks(d.specifiers, m) == specifier_marks(d.specifiers[0], m));
    assert(module_marks(all) == specs_marks(d.specifiers, m));
}

} // verus!
