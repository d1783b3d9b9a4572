//! Recording what a module imports and exports, keyed by local name.
use vstd::prelude::*;

use crate::web_transform::ast::{
    specifiers_view, ExportNameV, Ident, ImportDecl, ImportSpecifier, ModuleExportName, SpecifierV,
};

verus! {

/// What a module imports under one local name.
pub struct ImportDesc {
    /// The module imported from.
    pub source: String,
    /// The name in the module imported from: `default`, `*`, or the export's name.
    pub name: String,
    /// The name in the importing module.
    pub local_name: String,
}

pub struct ImportDescV {
    pub source: Seq<char>,
    pub name: Seq<char>,
    pub local_name: Seq<char>,
}

impl View for ImportDesc {
    type V = ImportDescV;

    open spec fn view(&self) -> ImportDescV {
        ImportDescV { source: self.source@, name: self.name@, local_name: self.local_name@ }
    }
}

/// What a module exports under one name.
pub struct ExportDesc {
    pub identifier: Option<String>,
    pub local_name: String,
}

pub struct ExportDescV {
    pub identifier: Option<Seq<char>>,
    pub local_name: Seq<char>,
}

impl View for ExportDesc {
    type V = ExportDescV;

    open spec fn view(&self) -> ExportDescV {
        ExportDescV {
            identifier: match self.identifier {
                Some(i) => Some(i@),
                None => None,
            },
            local_name: self.local_name@,
        }
    }
}

/// What a module re-exports from another one.
pub struct ReExportDesc {
    /// The name in the module re-exported from.
    pub name: String,
    /// The name in the re-exporting module.
    pub local_name: String,
    pub source: String,
}

/// A dynamic import.
pub struct DynImportDesc {
    pub argument: String,
    pub id: Option<String>,
}

/// One specifier of `export { .. }`.
pub enum ExportSpecifier {
    /// `export * as name from ..`
    Namespace { name: ModuleExportName },
    /// `export exported from ..`
    Default { exported: Ident },
    /// `export { orig as exported }`
    Named { orig: ModuleExportName, exported: Option<ModuleExportName> },
}

/// A module declaration, as far as the scanner looks at it.
pub enum ModuleDecl {
    Import(ImportDecl),
    ExportNamed { specifiers: Vec<ExportSpecifier> },
    Other,
}

// ---------------------------------------------------------------------------
// Maps kept as lists of distinct keys
// ---------------------------------------------------------------------------

/// The keys of `v` are distinct.
pub open spec fn keys_unique<D>(v: Seq<(String, D)>) -> bool {
    forall|i: int, j: int| 0 <= i < v.len() && 0 <= j < v.len() && #[trigger] v[i].0@ == #[trigger] v[j].0@ ==> i == j
}

/// `k` is a key of `v`.
pub open spec fn has_key<D>(v: Seq<(String, D)>, k: Seq<char>) -> bool {
    exists|i: int| 0 <= i < v.len() && #[trigger] v[i].0@ == k
}

/// The map a list of distinct keys stands for.
pub open spec fn keyed<D: View>(v: Seq<(String, D)>) -> Map<Seq<char>, D::V> {
    Map::new(
        |k: Seq<char>| has_key(v, k),
        |k: Seq<char>| v[choose|i: int| 0 <= i < v.len() && #[trigger] v[i].0@ == k].1@,
    )
}

proof fn lemma_keyed_at<D: View>(v: Seq<(String, D)>, i: int)
    requires
        keys_unique(v),
        0 <= i < v.len(),
    ensures
        keyed(v).contains_key(v[i].0@),
        keyed(v)[v[i].0@] == v[i].1@,
{
    let k = v[i].0@;
    assert(has_key(v, k));
    let j = choose|j: int| 0 <= j < v.len() && #[trigger] v[j].0@ == k;
    assert(v[j].0@ == v[i].0@);
}

/// Sets the value of key `k`: in place when `k` is a key, at the end otherwise.
/// The position of key `k`, if it is a key.
fn find_key<D>(v: &Vec<(String, D)>, k: &String) -> (r: Option<usize>)
    ensures
        match r {
            Some(i) => i < v@.len() && v@[i as int].0@ == k@,
            None => forall|j: int| 0 <= j < v@.len() ==> v@[j].0@ != k@,
        },
{
    let mut i: usize = 0;
    while i < v.len()
        invariant
            i <= v.len(),
            forall|j: int| 0 <= j < i ==> v@[j].0@ != k@,
        decreases v.len() - i,
    {
        if v[i].0 == *k {
            return Some(i);
        }
        i = i + 1;
    }
    None
}

fn map_insert<D: View>(v: &mut Vec<(String, D)>, k: String, d: D)
    requires
        keys_unique(old(v)@),
    ensures
        keys_unique(final(v)@),
        keyed(final(v)@) == keyed(old(v)@).insert(k@, d@),
{
    let ghost v0 = v@;
    let ghost kv = k@;
    let ghost dv = d@;
    let found = find_key(v, &k);
    let i: usize = match found {
        Some(i) => i,
        None => v.len(),
    };
    if i < v.len() {
        assert(v@[i as int].0@ == kv);
        v.set(i, (k, d));
        let ghost v1 = v@;
        assert(v1 == v0.update(i as int, v1[i as int]));
        assert forall|a: int, b: int|
            0 <= a < v1.len() && 0 <= b < v1.len() && #[trigger] v1[a].0@ == #[trigger] v1[b].0@ implies a == b by {
            if a != i && b != i {
                assert(v0[a].0@ == v0[b].0@);
            } else if a == i && b != i {
                assert(v0[b].0@ == v0[i as int].0@);
            } else if a != i && b == i {
                assert(v0[a].0@ == v0[i as int].0@);
            }
        }
        assert forall|key: Seq<char>| #[trigger] has_key(v1, key) == has_key(v0, key) by {
            if has_key(v1, key) {
                let j = choose|j: int| 0 <= j < v1.len() && #[trigger] v1[j].0@ == key;
                assert(v0[j].0@ == key);
            }
            if has_key(v0, key) {
                let j = choose|j: int| 0 <= j < v0.len() && #[trigger] v0[j].0@ == key;
                assert(v1[j].0@ == key);
            }
        }
        assert forall|key: Seq<char>| #[trigger] keyed(v1).contains_key(key) implies keyed(v1)[key]
            == keyed(v0).insert(kv, dv)[key] by {
            let j = choose|j: int| 0 <= j < v1.len() && #[trigger] v1[j].0@ == key;
            lemma_keyed_at(v1, j);
            if j != i {
                lemma_keyed_at(v0, j);
            }
        }
        assert(keyed(v1) =~= keyed(v0).insert(kv, dv));
    } else {
        v.push((k, d));
        let ghost v1 = v@;
        assert forall|a: int, b: int|
            0 <= a < v1.len() && 0 <= b < v1.len() && #[trigger] v1[a].0@ == #[trigger] v1[b].0@ implies a == b by {
            if a < v0.len() && b < v0.len() {
                assert(v0[a].0@ == v0[b].0@);
            } else if a < v0.len() {
                assert(v0[a].0@ == kv);
            } else if b < v0.len() {
                assert(v0[b].0@ == kv);
            }
        }
        assert forall|key: Seq<char>| #[trigger] has_key(v1, key) == (has_key(v0, key) || key == kv) by {
            if has_key(v1, key) {
                let j = choose|j: int| 0 <= j < v1.len() && #[trigger] v1[j].0@ == key;
                if j < v0.len() {
                    assert(v0[j].0@ == key);
                }
            }
            if has_key(v0, key) {
                let j = choose|j: int| 0 <= j < v0.len() && #[trigger] v0[j].0@ == key;
                assert(v1[j].0@ == key);
            }
            if key == kv {
                assert(v1[v0.len() as int].0@ == key);
            }
        }
        assert forall|key: Seq<char>| #[trigger] keyed(v1).contains_key(key) implies keyed(v1)[key]
            == keyed(v0).insert(kv, dv)[key] by {
            let j = choose|j: int| 0 <= j < v1.len() && #[trigger] v1[j].0@ == key;
            lemma_keyed_at(v1, j);
            if j < v0.len() {
                lemma_keyed_at(v0, j);
            }
        }
        assert(keyed(v1) =~= keyed(v0).insert(kv, dv));
    }
}

fn get_value<'a, D: View>(v: &'a Vec<(String, D)>, k: &String) -> (r: Option<&'a D>)
    requires
        keys_unique(v@),
    ensures
        match r {
            Some(d) => keyed(v@).contains_key(k@) && keyed(v@)[k@] == d@,
            None => !keyed(v@).contains_key(k@),
        },
{
    let mut i: usize = 0;
    while i < v.len()
        invariant
            i <= v.len(),
            keys_unique(v@),
            forall|j: int| 0 <= j < i ==> v@[j].0@ != k@,
        decreases v.len() - i,
    {
        if v[i].0 == *k {
            proof {
                lemma_keyed_at(v@, i as int);
            }
            return Some(&v[i].1);
        }
        i = i + 1;
    }
    assert(!has_key(v@, k@));
    None
}

// ---------------------------------------------------------------------------
// The scanner
// ---------------------------------------------------------------------------

/// The key under which an import specifier is recorded: its local name.
pub open spec fn import_key(s: SpecifierV) -> Seq<char> {
    match s {
        SpecifierV::Named { local, .. } => local.sym,
        SpecifierV::Default { local } => local.sym,
        SpecifierV::Namespace { local } => local.sym,
    }
}

/// What is recorded for an import specifier of an import from `src`.
pub open spec fn import_desc(src: Seq<char>, s: SpecifierV) -> ImportDescV {
    match s {
        SpecifierV::Named { local, imported, .. } => ImportDescV {
            source: src,
            name: match imported {
                Some(n) => n.name(),
                None => Seq::<char>::empty(),
            },
            local_name: local.sym,
        },
        SpecifierV::Default { local } => ImportDescV {
            source: src,
            name: "default"@,
            local_name: local.sym,
        },
        SpecifierV::Namespace { local } => ImportDescV {
            source: src,
            name: "*"@,
            local_name: local.sym,
        },
    }
}

/// The imports recorded after the specifiers of an import from `src`, in order:
/// a later specifier with the same local name replaces an earlier one.
pub open spec fn imports_after(
    m: Map<Seq<char>, ImportDescV>,
    src: Seq<char>,
    specs: Seq<SpecifierV>,
) -> Map<Seq<char>, ImportDescV>
    decreases specs.len(),
{
    if specs.len() == 0 {
        m
    } else {
        imports_after(m, src, specs.drop_last()).insert(
            import_key(specs.last()),
            import_desc(src, specs.last()),
        )
    }
}

/// Every named specifier gives the name it imports.
pub open spec fn named_imports_spelled(specs: Seq<SpecifierV>) -> bool {
    forall|i: int|
        0 <= i < specs.len() ==> (#[trigger] specs[i] matches SpecifierV::Named { imported, .. }
            ==> imported is Some)
}

/// Every specifier of an `export { .. }` is a namespace export.
pub open spec fn only_namespace_exports(specs: Seq<ExportSpecifier>) -> bool {
    forall|i: int| 0 <= i < specs.len() ==> #[trigger] specs[i] is Namespace
}

/// The exports recorded after the (namespace) specifiers of an `export { .. }`.
pub open spec fn exports_after(m: Map<Seq<char>, ExportDescV>, specs: Seq<ExportSpecifier>) -> Map<
    Seq<char>,
    ExportDescV,
>
    decreases specs.len(),
{
    if specs.len() == 0 {
        m
    } else {
        let prev = exports_after(m, specs.drop_last());
        match specs.last() {
            ExportSpecifier::Namespace { name } => prev.insert(
                name@.name(),
                ExportDescV { identifier: Some(name@.name()), local_name: "asdf"@ },
            ),
            _ => prev,
        }
    }
}

/// Records the imports and exports of a module, keyed by local name.
pub struct Scanner {
    imports: Vec<(String, ImportDesc)>,
    exports: Vec<(String, ExportDesc)>,
}

impl Scanner {
    /// The keys of each list are distinct.
    pub closed spec fn wf(self) -> bool {
        keys_unique(self.imports@) && keys_unique(self.exports@)
    }

    /// The imports recorded so far.
    pub closed spec fn imports_map(self) -> Map<Seq<char>, ImportDescV> {
        keyed(self.imports@)
    }

    /// The exports recorded so far.
    pub closed spec fn exports_map(self) -> Map<Seq<char>, ExportDescV> {
        keyed(self.exports@)
    }

    pub fn new() -> (r: Scanner)
        ensures
            r.wf(),
            r.imports_map() == Map::<Seq<char>, ImportDescV>::empty(),
            r.exports_map() == Map::<Seq<char>, ExportDescV>::empty(),
    {
        let r = Scanner { imports: Vec::new(), exports: Vec::new() };
        assert(r.imports_map() =~= Map::<Seq<char>, ImportDescV>::empty());
        assert(r.exports_map() =~= Map::<Seq<char>, ExportDescV>::empty());
        r
    }

    /// What is recorded for local name `key`.
    pub fn import(&self, key: &String) -> (r: Option<&ImportDesc>)
        requires
            self.wf(),
        ensures
            match r {
                Some(d) => self.imports_map().contains_key(key@) && self.imports_map()[key@] == d@,
                None => !self.imports_map().contains_key(key@),
            },
    {
        get_value(&self.imports, key)
    }

    /// What is recorded for exported name `key`.
    pub fn export(&self, key: &String) -> (r: Option<&ExportDesc>)
        requires
            self.wf(),
        ensures
            match r {
                Some(d) => self.exports_map().contains_key(key@) && self.exports_map()[key@] == d@,
                None => !self.exports_map().contains_key(key@),
            },
    {
        get_value(&self.exports, key)
    }

    /// Records the specifiers of an import, each under its local name.
    pub fn add_import(&mut self, module_decl: &ModuleDecl)
        requires
            old(self).wf(),
            module_decl matches ModuleDecl::Import(d) ==> named_imports_spelled(
                specifiers_view(d.specifiers@),
            ),
        ensures
            final(self).wf(),
            final(self).imports_map() == match module_decl {
                ModuleDecl::Import(d) => imports_after(
                    old(self).imports_map(),
                    d.src@,
                    specifiers_view(d.specifiers@),
                ),
                _ => old(self).imports_map(),
            },
            final(self).exports_map() == old(self).exports_map(),
    {
        if let ModuleDecl::Import(import_decl) = module_decl {
            let ghost specs = specifiers_view(import_decl.specifiers@);
            let ghost m0 = keyed(self.imports@);
            let mut j: usize = 0;
            while j < import_decl.specifiers.len()
                invariant
                    j <= import_decl.specifiers.len(),
                    specs == specifiers_view(import_decl.specifiers@),
                    named_imports_spelled(specs),
                    keys_unique(self.imports@),
                    keys_unique(self.exports@),
                    keyed(self.imports@) == imports_after(m0, import_decl.src@, specs.take(j as int)),
                    keyed(self.exports@) == old(self).exports_map(),
                decreases import_decl.specifiers.len() - j,
            {
                assert(specs.take(j + 1).drop_last() =~= specs.take(j as int));
                assert(specs.take(j + 1).last() == import_decl.specifiers@[j as int]@);
                let (key, desc) = match &import_decl.specifiers[j] {
                    ImportSpecifier::Named { local, imported, .. } => {
                        assert(specs[j as int] matches SpecifierV::Named { imported, .. }
                            ==> imported is Some);
                        let name = match imported {
                            Some(n) => n.name(),
                            None => String::new(),
                        };
                        (
                            local.sym.clone(),
                            ImportDesc {
                                source: import_decl.src.clone(),
                                name,
                                local_name: local.sym.clone(),
                            },
                        )
                    },
                    ImportSpecifier::Default { local } => (
                        local.sym.clone(),
                        ImportDesc {
                            source: import_decl.src.clone(),
                            name: String::from_str("default"),
                            local_name: local.sym.clone(),
                        },
                    ),
                    ImportSpecifier::Namespace { local } => (
                        local.sym.clone(),
                        ImportDesc {
                            source: import_decl.src.clone(),
                            name: String::from_str("*"),
                            local_name: local.sym.clone(),
                        },
                    ),
                };
                map_insert(&mut self.imports, key, desc);
                j = j + 1;
            }
            assert(specs.take(import_decl.specifiers.len() as int) =~= specs);
        }
    }

    /// Records the namespace exports of an `export { .. }`, each under its name.
    pub fn add_export(&mut self, module_decl: &ModuleDecl)
        requires
            old(self).wf(),
            module_decl matches ModuleDecl::ExportNamed { specifiers } ==> only_namespace_exports(
                specifiers@,
            ),
        ensures
            final(self).wf(),
            final(self).exports_map() == match module_decl {
                ModuleDecl::ExportNamed { specifiers } => exports_after(
                    old(self).exports_map(),
                    specifiers@,
                ),
                _ => old(self).exports_map(),
            },
            final(self).imports_map() == old(self).imports_map(),
    {
        if let ModuleDecl::ExportNamed { specifiers } = module_decl {
            let ghost m0 = keyed(self.exports@);
            let mut j: usize = 0;
            while j < specifiers.len()
                invariant
                    j <= specifiers.len(),
                    only_namespace_exports(specifiers@),
                    keys_unique(self.imports@),
                    keys_unique(self.exports@),
                    keyed(self.exports@) == exports_after(m0, specifiers@.take(j as int)),
                    keyed(self.imports@) == old(self).imports_map(),
                decreases specifiers.len() - j,
            {
                assert(specifiers@.take(j + 1).drop_last() =~= specifiers@.take(j as int));
                assert(specifiers@[j as int] is Namespace);
                if let ExportSpecifier::Namespace { name } = &specifiers[j] {
                    let key = name.name();
                    let desc = ExportDesc {
                        identifier: Some(name.name()),
                        local_name: String::from_str("asdf"),
                    };
                    map_insert(&mut self.exports, key, desc);
                }
                j = j + 1;
            }
            assert(specifiers@.take(specifiers.len() as int) =~= specifiers@);
        }
    }
}

/// After an import is recorded, each of its local names maps to what its last
/// specifier of that name imports.
pub proof fn lemma_import_recorded(
    m: Map<Seq<char>, ImportDescV>,
    src: Seq<char>,
    specs: Seq<SpecifierV>,
    i: int,
)
    requires
        0 <= i < specs.len(),
        forall|j: int| i < j < specs.len() ==> import_key(#[trigger] specs[j]) != import_key(specs[i]),
    ensures
        imports_after(m, src, specs).contains_key(import_key(specs[i])),
        imports_after(m, src, specs)[import_key(specs[i])] == import_desc(src, specs[i]),
    decreases specs.len(),
{
    if i < specs.len() - 1 {
        assert forall|j: int| i < j < specs.drop_last().len() implies import_key(
            #[trigger] specs.drop_last()[j],
        ) != import_key(specs.drop_last()[i]) by {
            assert(specs.drop_last()[j] == specs[j]);
        }
        lemma_import_recorded(m, src, specs.drop_last(), i);
        assert(specs.drop_last()[i] == specs[i]);
        assert(import_key(specs.last()) != import_key(specs[i]));
    }
}

} // verus!
