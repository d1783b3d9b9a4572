//! Clearing the syntax contexts that scope resolution put on identifiers.
use vstd::prelude::*;

use crate::web_transform::ast::{Ident, IdentV};

verus! {

/// Resets the syntax context of the identifiers it visits.
#[derive(Clone, Copy)]
pub struct ClearMark;

impl ClearMark {
    /// Resets the syntax context of `ident`, keeping its name.
    pub fn visit_mut_ident(&mut self, ident: &mut Ident)
        ensures
            final(ident)@ == (IdentV { sym: old(ident)@.sym, ctxt: 0 }),
    {
        ident.ctxt = 0;
    }
}

} // verus!
