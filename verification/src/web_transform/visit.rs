//! The references that decide which imported components are used.
use vstd::prelude::*;

use crate::text::{chars_of, replace_all, replace_chars, string_of};
use crate::web_transform::ast::{Ident, IdentV};

verus! {

/// The name of a JSX element.
pub enum JSXElementName {
    /// `<Name>`
    Ident(Ident),
    /// `<obj.prop>`
    JSXMemberExpr { prop: Ident },
    /// `<ns:name>`
    JSXNamespacedName { name: Ident },
}

/// The name of a TypeScript type reference.
pub enum TsEntityName {
    /// `Name`
    Ident(Ident),
    /// `A.B`
    Qualified,
}

/// `id` is one of the identifiers of `list`.
pub open spec fn ident_listed(list: Seq<Ident>, id: IdentV) -> bool {
    exists|i: int| 0 <= i < list.len() && #[trigger] list[i]@ == id
}

/// Collects the identifiers a module uses: those of JSX element names, those of
/// expressions and patterns, and those that name types.
pub struct IdentComponent {
    pub component_name_jsx_ident: Vec<Ident>,
    pub ident_list: Vec<Ident>,
    pub ts_type_ident_list: Vec<Ident>,
}

fn listed_exec(list: &Vec<Ident>, id: &Ident) -> (r: bool)
    ensures
        r == ident_listed(list@, id@),
{
    let mut i: usize = 0;
    while i < list.len()
        invariant
            i <= list.len(),
            forall|k: int| 0 <= k < i ==> list@[k]@ != id@,
        decreases list.len() - i,
    {
        if list[i].same(id) {
            return true;
        }
        i = i + 1;
    }
    false
}

impl IdentComponent {
    /// `id` is used as a value or as a JSX element.
    pub open spec fn referenced(self, id: IdentV) -> bool {
        ident_listed(self.ident_list@, id) || ident_listed(self.component_name_jsx_ident@, id)
    }

    /// `id` is used as a type.
    pub open spec fn type_referenced(self, id: IdentV) -> bool {
        ident_listed(self.ts_type_ident_list@, id)
    }

    pub fn new() -> (r: IdentComponent)
        ensures
            r.component_name_jsx_ident@.len() == 0,
            r.ident_list@.len() == 0,
            r.ts_type_ident_list@.len() == 0,
    {
        IdentComponent {
            component_name_jsx_ident: Vec::new(),
            ident_list: Vec::new(),
            ts_type_ident_list: Vec::new(),
        }
    }

    /// Records the name of a JSX element: the identifier itself, the property
    /// of a member name, or the local part of a namespaced name, with any `#0`
    /// removed from it.
    pub fn visit_jsx_element(&mut self, name: &JSXElementName)
        ensures
            ({
                let id = match name {
                    JSXElementName::Ident(i) => i@,
                    JSXElementName::JSXMemberExpr { prop } => prop@,
                    JSXElementName::JSXNamespacedName { name } => name@,
                };
                final(self).component_name_jsx_ident@.map_values(|i: Ident| i@) == old(
                    self,
                ).component_name_jsx_ident@.map_values(|i: Ident| i@).push(
                    IdentV { sym: replace_all(id.sym, "#0"@, Seq::<char>::empty()), ctxt: id.ctxt },
                )
            }),
            final(self).ident_list == old(self).ident_list,
            final(self).ts_type_ident_list == old(self).ts_type_ident_list,
    {
        let id = match name {
            JSXElementName::Ident(i) => i,
            JSXElementName::JSXMemberExpr { prop } => prop,
            JSXElementName::JSXNamespacedName { name } => name,
        };
        let sym = chars_of(id.sym.as_str());
        let pat = chars_of("#0");
        proof {
            reveal_strlit("#0");
        }
        let empty: Vec<char> = Vec::new();
        let cleaned = replace_chars(sym.as_slice(), pat.as_slice(), empty.as_slice());
        let ghost before = self.component_name_jsx_ident@.map_values(|i: Ident| i@);
        self.component_name_jsx_ident.push(Ident { sym: string_of(cleaned.as_slice()), ctxt: id.ctxt });
        assert(self.component_name_jsx_ident@.map_values(|i: Ident| i@) =~= before.push(
            IdentV { sym: replace_all(id@.sym, "#0"@, Seq::<char>::empty()), ctxt: id.ctxt },
        ));
    }

    /// Records an identifier used in an expression or pattern.
    pub fn visit_ident(&mut self, ident: &Ident)
        ensures
            final(self).ident_list@.map_values(|i: Ident| i@) == old(self).ident_list@.map_values(
                |i: Ident| i@,
            ).push(ident@),
            final(self).component_name_jsx_ident == old(self).component_name_jsx_ident,
            final(self).ts_type_ident_list == old(self).ts_type_ident_list,
    {
        let ghost before = self.ident_list@.map_values(|i: Ident| i@);
        self.ident_list.push(ident.clone_ident());
        assert(self.ident_list@.map_values(|i: Ident| i@) =~= before.push(ident@));
    }

    /// Records the identifier that names a type, when the name is a plain identifier.
    pub fn visit_ts_type_ref(&mut self, entity: &TsEntityName)
        ensures
            final(self).ts_type_ident_list@.map_values(|i: Ident| i@) == match entity {
                TsEntityName::Ident(i) => old(self).ts_type_ident_list@.map_values(
                    |i: Ident| i@,
                ).push(i@),
                TsEntityName::Qualified => old(self).ts_type_ident_list@.map_values(|i: Ident| i@),
            },
            final(self).component_name_jsx_ident == old(self).component_name_jsx_ident,
            final(self).ident_list == old(self).ident_list,
    {
        if let TsEntityName::Ident(ident) = entity {
            let ghost before = self.ts_type_ident_list@.map_values(|i: Ident| i@);
            self.ts_type_ident_list.push(ident.clone_ident());
            assert(self.ts_type_ident_list@.map_values(|i: Ident| i@) =~= before.push(ident@));
        }
    }

    /// Whether `id` is used as a value or as a JSX element.
    pub fn is_referenced(&self, id: &Ident) -> (r: bool)
        ensures
            r == self.referenced(id@),
    {
        listed_exec(&self.ident_list, id) || listed_exec(&self.component_name_jsx_ident, id)
    }

    /// Whether `id` is used as a type.
    pub fn is_type_referenced(&self, id: &Ident) -> (r: bool)
        ensures
            r == self.type_referenced(id@),
    {
        listed_exec(&self.ts_type_ident_list, id)
    }
}

} // verus!
