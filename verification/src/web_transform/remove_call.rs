//! Removing the statements that call functions or methods of given names.
use vstd::prelude::*;

use crate::types::TransformConfig;
use crate::web_transform::ast::{
    lemma_stmts_view_push, BlockStmt, Callee, CalleeV, IdentV, Stmt, StmtV,
};

verus! {

/// The name a call statement calls: the function's name, or the method's name
/// when the property is an identifier.
pub open spec fn callee_name(c: CalleeV) -> Option<Seq<char>> {
    match c {
        CalleeV::Ident(i) => Some(i.sym),
        CalleeV::Member { prop, .. } => prop,
        CalleeV::Other => None,
    }
}

/// `s` calls a function or method whose name is one of `rm_calls`.
pub open spec fn calls_listed(rm_calls: Seq<String>, s: StmtV) -> bool {
    match s.call {
        Some(c) => match callee_name(c) {
            Some(n) => exists|i: int| 0 <= i < rm_calls.len() && #[trigger] rm_calls[i]@ == n,
            None => false,
        },
        None => false,
    }
}

/// The statements of `stmts` that do not call a listed name, in order.
pub open spec fn without_listed_calls(stmts: Seq<StmtV>, rm_calls: Seq<String>) -> Seq<StmtV>
    decreases stmts.len(),
{
    if stmts.len() == 0 {
        Seq::<StmtV>::empty()
    } else {
        let prev = without_listed_calls(stmts.drop_last(), rm_calls);
        if calls_listed(rm_calls, stmts.last()) {
            prev
        } else {
            prev.push(stmts.last())
        }
    }
}

/// Removes, from each block it visits, the statements that call one of `rm_calls`.
pub struct RmCallStmt {
    pub rm_calls: Vec<String>,
}

fn name_listed(rm_calls: &Vec<String>, n: &String) -> (r: bool)
    ensures
        r == exists|i: int| 0 <= i < rm_calls.len() && #[trigger] rm_calls@[i]@ == n@,
{
    let mut i: usize = 0;
    while i < rm_calls.len()
        invariant
            i <= rm_calls.len(),
            forall|k: int| 0 <= k < i ==> rm_calls@[k]@ != n@,
        decreases rm_calls.len() - i,
    {
        if rm_calls[i] == *n {
            assert(rm_calls@[i as int]@ == n@);
            return true;
        }
        i = i + 1;
    }
    false
}

pub fn clone_stmt(s: &Stmt) -> (r: Stmt)
    ensures
        r@ == s@,
{
    let call = match &s.call {
        Some(Callee::Ident(i)) => Some(Callee::Ident(i.clone_ident())),
        Some(Callee::Member { obj, prop }) => Some(
            Callee::Member {
                obj: match obj {
                    Some(o) => Some(o.clone_ident()),
                    None => None,
                },
                prop: match prop {
                    Some(p) => Some(p.clone()),
                    None => None,
                },
            },
        ),
        Some(Callee::Other) => Some(Callee::Other),
        None => None,
    };
    Stmt { id: s.id, call }
}

impl RmCallStmt {
    /// Whether statement `s` calls one of the listed names.
    pub fn removes(&self, s: &Stmt) -> (r: bool)
        ensures
            r == calls_listed(self.rm_calls@, s@),
    {
        match &s.call {
            Some(Callee::Ident(i)) => name_listed(&self.rm_calls, &i.sym),
            Some(Callee::Member { prop: Some(p), .. }) => name_listed(&self.rm_calls, p),
            _ => false,
        }
    }

    /// Removes from the block the statements that call one of the listed names.
    pub fn visit_mut_block_stmt(&self, n: &mut BlockStmt)
        ensures
            final(n)@ == without_listed_calls(old(n)@, self.rm_calls@),
    {
        let ghost stmts = n@;
        let mut kept: Vec<Stmt> = Vec::new();
        let mut i: usize = 0;
        while i < n.stmts.len()
            invariant
                i <= n.stmts.len(),
                stmts == n@,
                crate::web_transform::ast::stmts_view(kept@) == without_listed_calls(
                    stmts.take(i as int),
                    self.rm_calls@,
                ),
            decreases n.stmts.len() - i,
        {
            assert(stmts.take(i + 1).drop_last() =~= stmts.take(i as int));
            assert(stmts.take(i + 1).last() == n.stmts@[i as int]@);
            if !self.removes(&n.stmts[i]) {
                let ghost before = kept@;
                kept.push(clone_stmt(&n.stmts[i]));
                proof {
                    lemma_stmts_view_push(before, kept@[before.len() as int]);
                }
            }
            i = i + 1;
        }
        assert(stmts.take(n.stmts.len() as int) =~= stmts);
        n.stmts = kept;
    }
}

/// The remover of listed calls that a config asks for: none when it lists no name.
pub fn remove_call(config: &TransformConfig) -> (r: Option<RmCallStmt>)
    ensures
        match config.remove_call {
            Some(names) if names.len() > 0 => r matches Some(v) && v.rm_calls@ == names@,
            _ => r is None,
        },
{
    match &config.remove_call {
        Some(names) => {
            if names.len() == 0 {
                return None;
            }
            let mut rm_calls: Vec<String> = Vec::new();
            let mut i: usize = 0;
            while i < names.len()
                invariant
                    i <= names.len(),
                    rm_calls@ == names@.take(i as int),
                decreases names.len() - i,
            {
                rm_calls.push(names[i].clone());
                i = i + 1;
                assert(rm_calls@ =~= names@.take(i as int));
            }
            assert(names@.take(names.len() as int) =~= names@);
            Some(RmCallStmt { rm_calls })
        },
        None => None,
    }
}

/// A function call is removed by the function's name alone, whatever syntax
/// context the name has: a call statement of a listed name is removed, one of
/// a name not listed is kept.
pub proof fn lemma_function_call_removed_by_name(
    rm_calls: Seq<String>,
    id: usize,
    f: IdentV,
    ctxt: u32,
)
    ensures
        calls_listed(rm_calls, StmtV { id, call: Some(CalleeV::Ident(f)) }) == calls_listed(
            rm_calls,
            StmtV { id, call: Some(CalleeV::Ident(IdentV { sym: f.sym, ctxt })) },
        ),
        calls_listed(rm_calls, StmtV { id, call: Some(CalleeV::Ident(f)) }) == (exists|i: int|
            0 <= i < rm_calls.len() && #[trigger] rm_calls[i]@ == f.sym),
{
}

/// A method call is removed by the name of its method alone: whatever object
/// it is called on (an identifier, `this.logger` or any other expression), a
/// call statement whose method is a listed name is removed, and two such
/// statements calling the same method are treated alike.
pub proof fn lemma_method_call_removed_by_name(
    rm_calls: Seq<String>,
    id: usize,
    obj: Option<IdentV>,
    other_obj: Option<IdentV>,
    p: Seq<char>,
)
    ensures
        calls_listed(rm_calls, StmtV { id, call: Some(CalleeV::Member { obj, prop: Some(p) }) })
            == calls_listed(
            rm_calls,
            StmtV { id, call: Some(CalleeV::Member { obj: other_obj, prop: Some(p) }) },
        ),
        (exists|i: int| 0 <= i < rm_calls.len() && #[trigger] rm_calls[i]@ == p) ==> {
            let s = StmtV { id, call: Some(CalleeV::Member { obj, prop: Some(p) }) };
            &&& calls_listed(rm_calls, s)
            &&& without_listed_calls(seq![s], rm_calls).len() == 0
        },
{
    let s = StmtV { id, call: Some(CalleeV::Member { obj, prop: Some(p) }) };
    if exists|i: int| 0 <= i < rm_calls.len() && #[trigger] rm_calls[i]@ == p {
        let i = choose|i: int| 0 <= i < rm_calls.len() && #[trigger] rm_calls[i]@ == p;
        assert(rm_calls[i]@ == p);
        assert(calls_listed(rm_calls, s));
        assert(seq![s].drop_last() =~= Seq::<StmtV>::empty());
        assert(seq![s].last() == s);
        assert(without_listed_calls(Seq::<StmtV>::empty(), rm_calls).len() == 0);
    }
}

/// Removing listed calls a second time removes nothing more.
pub proof fn lemma_remove_call_idempotent(stmts: Seq<StmtV>, rm_calls: Seq<String>)
    ensures
        without_listed_calls(without_listed_calls(stmts, rm_calls), rm_calls) == without_listed_calls(
            stmts,
            rm_calls,
        ),
    decreases stmts.len(),
{
    if stmts.len() > 0 {
        lemma_remove_call_idempotent(stmts.drop_last(), rm_calls);
        let prev = without_listed_calls(stmts.drop_last(), rm_calls);
        if !calls_listed(rm_calls, stmts.last()) {
            let r = prev.push(stmts.last());
            assert(r.drop_last() =~= prev);
        }
    }
}

/// What removing listed calls keeps is exactly the statements that call no
/// listed name, in their order.
pub proof fn lemma_remove_call_keeps(stmts: Seq<StmtV>, rm_calls: Seq<String>)
    ensures
        forall|i: int|
            0 <= i < without_listed_calls(stmts, rm_calls).len() ==> !calls_listed(
                rm_calls,
                #[trigger] without_listed_calls(stmts, rm_calls)[i],
            ),
        without_listed_calls(stmts, rm_calls).len() <= stmts.len(),
        (forall|i: int| 0 <= i < stmts.len() ==> !calls_listed(rm_calls, #[trigger] stmts[i]))
            ==> without_listed_calls(stmts, rm_calls) == stmts,
    decreases stmts.len(),
{
    if stmts.len() > 0 {
        lemma_remove_call_keeps(stmts.drop_last(), rm_calls);
        if forall|i: int| 0 <= i < stmts.len() ==> !calls_listed(rm_calls, #[trigger] stmts[i]) {
            assert forall|i: int| 0 <= i < stmts.drop_last().len() implies !calls_listed(
                rm_calls,
                #[trigger] stmts.drop_last()[i],
            ) by {
                assert(stmts.drop_last()[i] == stmts[i]);
            }
            assert(stmts.drop_last().push(stmts.last()) =~= stmts);
        }
    }
}

} // verus!
