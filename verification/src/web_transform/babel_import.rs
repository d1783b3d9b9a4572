//! Rewriting the imports of component libraries: each used component is
//! imported from its own module (and its style sheet imported too), components
//! that are never used lose their import.
//!
//! The name of each module comes from a function the user supplies, so the
//! rewrite runs in two steps: `babel_import_requests` lists the names to be
//! passed to those functions, in the order the calls are to be made, and
//! `transform_style` rewrites the module given their answers.
use vstd::prelude::*;

use crate::types::{flag, flag_exec, BabelImportConfig, TransformConfig};
use crate::web_transform::ast::{
    clone_item, items_view, lemma_items_view_push, lemma_specifiers_view_push, specifiers_view,
    ExportNameV, Ident, IdentV, ImportDecl, ImportDeclV, ImportSpecifier, ItemV, ModuleItems,
    ModuleExportName, ModuleItem, SpecifierV,
};
use crate::web_transform::clear_mark::ClearMark;
use crate::web_transform::visit::IdentComponent;

verus! {

// ---------------------------------------------------------------------------
// Component names
// ---------------------------------------------------------------------------

/// What `heck::ToKebabCase::to_kebab_case` returns for a string.
pub uninterp spec fn kebab_case(s: Seq<char>) -> Seq<char>;

/// Calls `heck::ToKebabCase::to_kebab_case` (heck 0.4), which splits a string
/// into words and joins them in lower case with hyphens. The contract only
/// names its result, a function of the string alone.
#[verifier::external_body]
fn to_kebab_case(s: &str) -> (r: String)
    ensures
        r@ == kebab_case(s@),
{
    heck::ToKebabCase::to_kebab_case(s)
}

/// What std's `str::to_lowercase` returns for a string.
pub uninterp spec fn lowercase(s: Seq<char>) -> Seq<char>;

/// Calls std's `str::to_lowercase`, which maps each character to its Unicode
/// lower case. The contract only names its result, a function of the string alone.
#[verifier::external_body]
fn to_lowercase(s: &str) -> (r: String)
    ensures
        r@ == lowercase(s@),
{
    s.to_lowercase()
}

/// The name passed to a replace function for component `name`: in kebab case
/// when `camel2dash`, then in lower case when `lower`.
pub open spec fn component_name(name: Seq<char>, camel2dash: bool, lower: bool) -> Seq<char> {
    let a = if camel2dash {
        kebab_case(name)
    } else {
        name
    };
    if lower {
        lowercase(a)
    } else {
        a
    }
}

fn component_name_exec(name: &String, camel2dash: bool, lower: bool) -> (r: String)
    ensures
        r@ == component_name(name@, camel2dash, lower),
{
    let a = if camel2dash {
        to_kebab_case(name.as_str())
    } else {
        name.clone()
    };
    if lower {
        to_lowercase(a.as_str())
    } else {
        a
    }
}

/// `name` is one of the names of an ignore list.
pub open spec fn listed(list: Option<Vec<String>>, name: Seq<char>) -> bool {
    match list {
        Some(l) => exists|i: int| 0 <= i < l.len() && #[trigger] l@[i]@ == name,
        None => false,
    }
}

fn in_list(l: &Vec<String>, name: &String) -> (r: bool)
    ensures
        r == exists|i: int| 0 <= i < l.len() && #[trigger] l@[i]@ == name@,
{
    let mut i: usize = 0;
    while i < l.len()
        invariant
            i <= l.len(),
            forall|k: int| 0 <= k < i ==> l@[k]@ != name@,
        decreases l.len() - i,
    {
        if l[i] == *name {
            assert(l@[i as int]@ == name@);
            return true;
        }
        i = i + 1;
    }
    false
}

fn listed_exec(list: &Option<Vec<String>>, name: &String) -> (r: bool)
    ensures
        r == listed(*list, name@),
{
    match list {
        Some(l) => in_list(l, name),
        None => false,
    }
}

// ---------------------------------------------------------------------------
// Requests
// ---------------------------------------------------------------------------

/// Which replace function a request is for.
#[derive(PartialEq, Eq, Structural, Clone, Copy, Debug)]
pub enum ReplaceKind {
    /// `replace_css`: its answer is the module of the component's style sheet.
    Css,
    /// `replace_js`: its answer is the module of the component.
    Js,
}

/// One call of a replace function: the function of config `config_index`
/// selected by `kind`, with `arg` as its argument. The other fields say how the
/// component is imported once the answer is known.
pub struct ReplaceRequest {
    pub kind: ReplaceKind,
    pub config_index: usize,
    pub arg: String,
    /// The name the library exports the component under.
    pub default_spec: String,
    /// The local name of the component, when it is imported under another one.
    pub as_name: Option<String>,
    pub use_default_import: bool,
}

pub struct ReplaceRequestV {
    pub kind: ReplaceKind,
    pub config_index: usize,
    pub arg: Seq<char>,
    pub default_spec: Seq<char>,
    pub as_name: Option<Seq<char>>,
    pub use_default_import: bool,
}

impl View for ReplaceRequest {
    type V = ReplaceRequestV;

    open spec fn view(&self) -> ReplaceRequestV {
        ReplaceRequestV {
            kind: self.kind,
            config_index: self.config_index,
            arg: self.arg@,
            default_spec: self.default_spec@,
            as_name: match self.as_name {
                Some(a) => Some(a@),
                None => None,
            },
            use_default_import: self.use_default_import,
        }
    }
}

pub open spec fn requests_view(s: Seq<ReplaceRequest>) -> Seq<ReplaceRequestV> {
    Seq::new(s.len(), |i: int| s[i]@)
}

/// The name a named import brings in from the library.
pub open spec fn imported_name(local: IdentV, imported: Option<ExportNameV>) -> Seq<char> {
    match imported {
        Some(n) => n.name(),
        None => local.sym,
    }
}

/// The local name of a named import that renames what it imports.
pub open spec fn alias(local: IdentV, imported: Option<ExportNameV>) -> Option<Seq<char>> {
    match imported {
        Some(_) => Some(local.sym),
        None => None,
    }
}

/// The requests a named import makes under config `c` (index `ci`), and whether
/// the import is dropped: a used component asks for its style sheet (unless
/// ignored) and for its module (unless ignored, and then its import is dropped);
/// a component used only as a type keeps its import; an unused one is dropped.
pub open spec fn named_plan(
    local: IdentV,
    imported: Option<ExportNameV>,
    ci: usize,
    c: BabelImportConfig,
    refs: IdentComponent,
) -> (Seq<ReplaceRequestV>, bool) {
    let ident = imported_name(local, imported);
    let as_name = alias(local, imported);
    if refs.referenced(local) {
        let css = match c.replace_css {
            Some(css) => if !listed(css.ignore_style_component, ident) {
                seq![
                    ReplaceRequestV {
                        kind: ReplaceKind::Css,
                        config_index: ci,
                        arg: component_name(
                            ident,
                            flag(css.camel2_dash_component_name, false),
                            flag(css.lower, false),
                        ),
                        default_spec: ident,
                        as_name,
                        use_default_import: false,
                    },
                ]
            } else {
                Seq::<ReplaceRequestV>::empty()
            },
            None => Seq::<ReplaceRequestV>::empty(),
        };
        match c.replace_js {
            Some(js) => if !listed(js.ignore_es_component, ident) {
                (
                    css.push(
                        ReplaceRequestV {
                            kind: ReplaceKind::Js,
                            config_index: ci,
                            arg: component_name(
                                ident,
                                flag(js.camel2_dash_component_name, false),
                                flag(js.lower, false),
                            ),
                            default_spec: ident,
                            as_name,
                            use_default_import: flag(js.transform_to_default_import, true),
                        },
                    ),
                    true,
                )
            } else {
                (css, false)
            },
            None => (css, false),
        }
    } else if refs.type_referenced(local) {
        (Seq::<ReplaceRequestV>::empty(), false)
    } else {
        (Seq::<ReplaceRequestV>::empty(), true)
    }
}

/// The requests a specifier makes and whether it is dropped; default and
/// namespace imports are left alone.
pub open spec fn specifier_plan(
    s: SpecifierV,
    ci: usize,
    c: BabelImportConfig,
    refs: IdentComponent,
) -> (Seq<ReplaceRequestV>, bool) {
    match s {
        SpecifierV::Named { local, imported, .. } => named_plan(local, imported, ci, c, refs),
        _ => (Seq::<ReplaceRequestV>::empty(), false),
    }
}

/// The requests of the specifiers of an import, in order.
pub open spec fn specs_requests(
    specs: Seq<SpecifierV>,
    ci: usize,
    c: BabelImportConfig,
    refs: IdentComponent,
) -> Seq<ReplaceRequestV>
    decreases specs.len(),
{
    if specs.len() == 0 {
        Seq::<ReplaceRequestV>::empty()
    } else {
        specs_requests(specs.drop_last(), ci, c, refs) + specifier_plan(specs.last(), ci, c, refs).0
    }
}

/// The specifiers of an import that are not dropped, in order.
pub open spec fn specs_kept(
    specs: Seq<SpecifierV>,
    ci: usize,
    c: BabelImportConfig,
    refs: IdentComponent,
) -> Seq<SpecifierV>
    decreases specs.len(),
{
    if specs.len() == 0 {
        Seq::<SpecifierV>::empty()
    } else {
        let prev = specs_kept(specs.drop_last(), ci, c, refs);
        if specifier_plan(specs.last(), ci, c, refs).1 {
            prev
        } else {
            prev.push(specs.last())
        }
    }
}

/// The first config at or after `i` for imports from `src`.
pub open spec fn find_config_from(configs: Seq<BabelImportConfig>, src: Seq<char>, i: int) -> Option<
    int,
>
    decreases configs.len() - i,
{
    if i < 0 || i >= configs.len() {
        None
    } else if configs[i].from_source@ == src {
        Some(i)
    } else {
        find_config_from(configs, src, i + 1)
    }
}

/// The first config for imports from `src`.
pub open spec fn find_config(configs: Seq<BabelImportConfig>, src: Seq<char>) -> Option<int> {
    find_config_from(configs, src, 0)
}

/// The requests a module item makes: only the imports from a configured library make any.
pub open spec fn item_requests(
    item: ItemV,
    configs: Seq<BabelImportConfig>,
    refs: IdentComponent,
) -> Seq<ReplaceRequestV> {
    match item {
        ItemV::Import(d) => match find_config(configs, d.src) {
            Some(ci) => specs_requests(d.specifiers, ci as usize, configs[ci], refs),
            None => Seq::<ReplaceRequestV>::empty(),
        },
        ItemV::Other(_) => Seq::<ReplaceRequestV>::empty(),
    }
}

/// What is left of a module item: an import from a configured library keeps the
/// specifiers that are not dropped, and goes when all of them are (an import
/// without specifiers included); every other item stays as it is.
pub open spec fn item_kept(item: ItemV, configs: Seq<BabelImportConfig>, refs: IdentComponent) -> Seq<
    ItemV,
> {
    match item {
        ItemV::Import(d) => match find_config(configs, d.src) {
            Some(ci) => {
                let kept = specs_kept(d.specifiers, ci as usize, configs[ci], refs);
                if kept.len() == 0 {
                    Seq::<ItemV>::empty()
                } else {
                    seq![
                        ItemV::Import(
                            ImportDeclV { src: d.src, specifiers: kept, type_only: d.type_only, origin: d.origin },
                        ),
                    ]
                }
            },
            None => seq![item],
        },
        ItemV::Other(_) => seq![item],
    }
}

/// The requests of a module's items, in order.
pub open spec fn module_requests(
    items: Seq<ItemV>,
    configs: Seq<BabelImportConfig>,
    refs: IdentComponent,
) -> Seq<ReplaceRequestV>
    decreases items.len(),
{
    if items.len() == 0 {
        Seq::<ReplaceRequestV>::empty()
    } else {
        module_requests(items.drop_last(), configs, refs) + item_requests(items.last(), configs, refs)
    }
}

/// What is left of a module's items, in order.
pub open spec fn module_kept(items: Seq<ItemV>, configs: Seq<BabelImportConfig>, refs: IdentComponent) -> Seq<
    ItemV,
>
    decreases items.len(),
{
    if items.len() == 0 {
        Seq::<ItemV>::empty()
    } else {
        module_kept(items.drop_last(), configs, refs) + item_kept(items.last(), configs, refs)
    }
}

/// The requests `transform_style` needs answered for a module.
pub open spec fn style_requests(
    items: Seq<ItemV>,
    config: TransformConfig,
    refs: IdentComponent,
) -> Seq<ReplaceRequestV> {
    match config.babel_import {
        Some(configs) => module_requests(items, configs@, refs),
        None => Seq::<ReplaceRequestV>::empty(),
    }
}

// ---------------------------------------------------------------------------
// The new imports
// ---------------------------------------------------------------------------

/// `import "<source>"`.
pub open spec fn css_import(source: Seq<char>) -> ItemV {
    ItemV::Import(
        ImportDeclV {
            src: source,
            specifiers: Seq::<SpecifierV>::empty(),
            type_only: false,
            origin: None,
        },
    )
}

/// The import of a component from `source`: as the default export, or as the
/// named export `default_spec`, under its local name.
pub open spec fn es_import(req: ReplaceRequestV, source: Seq<char>) -> ItemV {
    let local_name = match req.as_name {
        Some(a) => a,
        None => req.default_spec,
    };
    let local = IdentV { sym: local_name, ctxt: 0 };
    let spec = if req.use_default_import {
        SpecifierV::Default { local }
    } else {
        SpecifierV::Named {
            local,
            imported: match req.as_name {
                Some(_) => Some(ExportNameV::Ident(req.default_spec)),
                None => None,
            },
            is_type_only: false,
        }
    };
    ItemV::Import(ImportDeclV { src: source, specifiers: seq![spec], type_only: false, origin: None })
}

/// The style sheet imports for the answered requests, in request order.
pub open spec fn css_imports(reqs: Seq<ReplaceRequestV>, replies: Seq<Seq<char>>) -> Seq<ItemV>
    decreases reqs.len(),
{
    if reqs.len() == 0 {
        Seq::<ItemV>::empty()
    } else {
        let prev = css_imports(reqs.drop_last(), replies.take(reqs.len() - 1));
        if reqs.last().kind == ReplaceKind::Css {
            prev.push(css_import(replies[reqs.len() - 1]))
        } else {
            prev
        }
    }
}

/// The component imports for the answered requests, in request order.
pub open spec fn es_imports(reqs: Seq<ReplaceRequestV>, replies: Seq<Seq<char>>) -> Seq<ItemV>
    decreases reqs.len(),
{
    if reqs.len() == 0 {
        Seq::<ItemV>::empty()
    } else {
        let prev = es_imports(reqs.drop_last(), replies.take(reqs.len() - 1));
        if reqs.last().kind == ReplaceKind::Js {
            prev.push(es_import(reqs.last(), replies[reqs.len() - 1]))
        } else {
            prev
        }
    }
}

/// An item with the syntax context of its identifiers cleared.
pub open spec fn clear_item(item: ItemV) -> ItemV {
    match item {
        ItemV::Import(d) => ItemV::Import(
            ImportDeclV {
                src: d.src,
                specifiers: d.specifiers.map_values(|s: SpecifierV| clear_specifier(s)),
                type_only: d.type_only,
                origin: d.origin,
            },
        ),
        ItemV::Other(k) => ItemV::Other(k),
    }
}

pub open spec fn clear_specifier(s: SpecifierV) -> SpecifierV {
    match s {
        SpecifierV::Named { local, imported, is_type_only } => SpecifierV::Named {
            local: IdentV { sym: local.sym, ctxt: 0 },
            imported,
            is_type_only,
        },
        SpecifierV::Default { local } => SpecifierV::Default {
            local: IdentV { sym: local.sym, ctxt: 0 },
        },
        SpecifierV::Namespace { local } => SpecifierV::Namespace {
            local: IdentV { sym: local.sym, ctxt: 0 },
        },
    }
}

/// The module `transform_style` makes, given the answers to its requests. With
/// no library configured the module is left as it is. Otherwise the style
/// sheet imports come first, then the component imports, each group in the
/// reverse of request order, then what is left of the module's items; the
/// syntax contexts of all identifiers are cleared.
pub open spec fn transform_style_spec(
    items: Seq<ItemV>,
    config: TransformConfig,
    refs: IdentComponent,
    replies: Seq<Seq<char>>,
) -> Seq<ItemV> {
    match config.babel_import {
        Some(configs) => if configs.len() == 0 {
            items
        } else {
            let reqs = module_requests(items, configs@, refs);
            (css_imports(reqs, replies).reverse() + es_imports(reqs, replies).reverse()
                + module_kept(items, configs@, refs)).map_values(|it: ItemV| clear_item(it))
        },
        None => items,
    }
}


// ---------------------------------------------------------------------------
// Laws
// ---------------------------------------------------------------------------

/// With no library configured, `transform_style` asks for nothing and leaves
/// the module as it is.
pub proof fn lemma_unconfigured_unchanged(
    items: Seq<ItemV>,
    config: TransformConfig,
    refs: IdentComponent,
    replies: Seq<Seq<char>>,
)
    requires
        config.babel_import matches Some(c) ==> c@.len() == 0,
    ensures
        style_requests(items, config, refs).len() == 0,
        transform_style_spec(items, config, refs, replies) == items,
    decreases items.len(),
{
    if let Some(c) = config.babel_import {
        lemma_no_config_no_requests(items, c@, refs);
    }
}

proof fn lemma_no_config_no_requests(
    items: Seq<ItemV>,
    configs: Seq<BabelImportConfig>,
    refs: IdentComponent,
)
    requires
        configs.len() == 0,
    ensures
        module_requests(items, configs, refs).len() == 0,
    decreases items.len(),
{
    if items.len() > 0 {
        lemma_no_config_no_requests(items.drop_last(), configs, refs);
    }
}

/// A module item that `transform_style` does not look into: anything but an
/// import from a configured library.
pub open spec fn untouched(item: ItemV, configs: Seq<BabelImportConfig>) -> bool {
    match item {
        ItemV::Import(d) => find_config(configs, d.src) is None,
        ItemV::Other(_) => true,
    }
}

/// The untouched items of `items`, in order.
pub open spec fn untouched_items(items: Seq<ItemV>, configs: Seq<BabelImportConfig>) -> Seq<ItemV>
    decreases items.len(),
{
    if items.len() == 0 {
        Seq::<ItemV>::empty()
    } else {
        let prev = untouched_items(items.drop_last(), configs);
        if untouched(items.last(), configs) {
            prev.push(items.last())
        } else {
            prev
        }
    }
}

proof fn lemma_untouched_items_add(a: Seq<ItemV>, b: Seq<ItemV>, configs: Seq<BabelImportConfig>)
    ensures
        untouched_items(a + b, configs) == untouched_items(a, configs) + untouched_items(b, configs),
    decreases b.len(),
{
    if b.len() == 0 {
        assert(a + b =~= a);
        assert(untouched_items(a, configs) + untouched_items(b, configs) =~= untouched_items(a, configs));
    } else {
        lemma_untouched_items_add(a, b.drop_last(), configs);
        assert((a + b).drop_last() =~= a + b.drop_last());
        assert((a + b).last() == b.last());
        if untouched(b.last(), configs) {
            assert(untouched_items(a, configs) + untouched_items(b, configs) =~= (untouched_items(a, configs)
                + untouched_items(b.drop_last(), configs)).push(b.last()));
        } else {
            assert(untouched_items(a, configs) + untouched_items(b, configs) =~= untouched_items(a, configs)
                + untouched_items(b.drop_last(), configs));
        }
    }
}

/// Every item that is not an import from a configured library is kept, and
/// the kept items hold no other untouched item: the untouched items of the
/// module before and after are the same, in the same order.
pub proof fn lemma_untouched_items_kept(
    items: Seq<ItemV>,
    configs: Seq<BabelImportConfig>,
    refs: IdentComponent,
)
    ensures
        untouched_items(module_kept(items, configs, refs), configs) == untouched_items(items, configs),
    decreases items.len(),
{
    if items.len() > 0 {
        let last = items.last();
        lemma_untouched_items_kept(items.drop_last(), configs, refs);
        lemma_untouched_items_add(
            module_kept(items.drop_last(), configs, refs),
            item_kept(last, configs, refs),
            configs,
        );
        let k = item_kept(last, configs, refs);
        if untouched(last, configs) {
            assert(k == seq![last]);
            assert(seq![last].drop_last() =~= Seq::<ItemV>::empty());
            assert(untouched_items(seq![last], configs) == untouched_items(Seq::<ItemV>::empty(), configs).push(last));
            assert(untouched_items(k, configs) =~= seq![last]);
        } else {
            if k.len() > 0 {
                let d = last->Import_0;
                assert(find_config(configs, d.src) is Some);
                assert(k.len() == 1);
                assert(k[0]->Import_0.src == d.src);
                assert(k.drop_last() =~= Seq::<ItemV>::empty());
                assert(untouched_items(k.drop_last(), configs) == Seq::<ItemV>::empty());
                assert(!untouched(k.last(), configs));
            }
            assert(untouched_items(k, configs) =~= Seq::<ItemV>::empty());
        }
    }
}

/// A specifier that is kept is used: a named import left is used as a value or
/// as a type.
pub open spec fn used_if_named(s: SpecifierV, refs: IdentComponent) -> bool {
    match s {
        SpecifierV::Named { local, .. } => refs.referenced(local) || refs.type_referenced(local),
        _ => true,
    }
}

proof fn lemma_specs_kept_used(
    specs: Seq<SpecifierV>,
    ci: usize,
    c: BabelImportConfig,
    refs: IdentComponent,
)
    ensures
        forall|j: int|
            0 <= j < specs_kept(specs, ci, c, refs).len() ==> used_if_named(
                #[trigger] specs_kept(specs, ci, c, refs)[j],
                refs,
            ),
    decreases specs.len(),
{
    if specs.len() > 0 {
        lemma_specs_kept_used(specs.drop_last(), ci, c, refs);
        let prev = specs_kept(specs.drop_last(), ci, c, refs);
        let last = specs.last();
        if !specifier_plan(last, ci, c, refs).1 {
            assert(used_if_named(last, refs));
            assert forall|j: int|
                0 <= j < specs_kept(specs, ci, c, refs).len() implies used_if_named(
                #[trigger] specs_kept(specs, ci, c, refs)[j],
                refs,
            ) by {
                if j < prev.len() {
                    assert(specs_kept(specs, ci, c, refs)[j] == prev[j]);
                }
            }
        }
    }
}

/// An import from a configured library whose named imports are all used.
pub open spec fn imports_used(item: ItemV, configs: Seq<BabelImportConfig>, refs: IdentComponent) -> bool {
    match item {
        ItemV::Import(d) => find_config(configs, d.src) is Some ==> forall|j: int|
            0 <= j < d.specifiers.len() ==> used_if_named(#[trigger] d.specifiers[j], refs),
        ItemV::Other(_) => true,
    }
}

/// Tree shaking: in what is left of the module, every named import from a
/// configured library is used, as a value or as a type.
pub proof fn lemma_unused_imports_removed(
    items: Seq<ItemV>,
    configs: Seq<BabelImportConfig>,
    refs: IdentComponent,
)
    ensures
        forall|i: int|
            0 <= i < module_kept(items, configs, refs).len() ==> imports_used(
                #[trigger] module_kept(items, configs, refs)[i],
                configs,
                refs,
            ),
    decreases items.len(),
{
    if items.len() > 0 {
        let prev = module_kept(items.drop_last(), configs, refs);
        let k = item_kept(items.last(), configs, refs);
        lemma_unused_imports_removed(items.drop_last(), configs, refs);
        if let ItemV::Import(d) = items.last() {
            if let Some(ci) = find_config(configs, d.src) {
                lemma_specs_kept_used(d.specifiers, ci as usize, configs[ci], refs);
            }
        }
        assert forall|i: int|
            0 <= i < module_kept(items, configs, refs).len() implies imports_used(
            #[trigger] module_kept(items, configs, refs)[i],
            configs,
            refs,
        ) by {
            if i < prev.len() {
                assert(module_kept(items, configs, refs)[i] == prev[i]);
            } else {
                assert(module_kept(items, configs, refs)[i] == k[i - prev.len()]);
            }
        }
    }
}

/// A request names a configured library that has the replace function it asks for.
pub open spec fn request_answerable(r: ReplaceRequestV, configs: Seq<BabelImportConfig>) -> bool {
    &&& r.config_index < configs.len()
    &&& r.kind == ReplaceKind::Css ==> configs[r.config_index as int].replace_css is Some
    &&& r.kind == ReplaceKind::Js ==> configs[r.config_index as int].replace_js is Some
}

proof fn lemma_specs_requests_answerable(
    specs: Seq<SpecifierV>,
    ci: usize,
    configs: Seq<BabelImportConfig>,
    refs: IdentComponent,
)
    requires
        ci < configs.len(),
    ensures
        forall|i: int|
            0 <= i < specs_requests(specs, ci, configs[ci as int], refs).len() ==> request_answerable(
                #[trigger] specs_requests(specs, ci, configs[ci as int], refs)[i],
                configs,
            ),
    decreases specs.len(),
{
    if specs.len() > 0 {
        let c = configs[ci as int];
        lemma_specs_requests_answerable(specs.drop_last(), ci, configs, refs);
        let prev = specs_requests(specs.drop_last(), ci, c, refs);
        let more = specifier_plan(specs.last(), ci, c, refs).0;
        assert forall|i: int| 0 <= i < more.len() implies request_answerable(#[trigger] more[i], configs) by {}
        assert forall|i: int|
            0 <= i < specs_requests(specs, ci, c, refs).len() implies request_answerable(
            #[trigger] specs_requests(specs, ci, c, refs)[i],
            configs,
        ) by {
            if i < prev.len() {
                assert(specs_requests(specs, ci, c, refs)[i] == prev[i]);
            } else {
                assert(specs_requests(specs, ci, c, refs)[i] == more[i - prev.len()]);
            }
        }
    }
}

/// Every request names a configured library, and that library has the replace
/// function the request is for, so each request can be answered.
pub proof fn lemma_requests_answerable(
    items: Seq<ItemV>,
    configs: Seq<BabelImportConfig>,
    refs: IdentComponent,
)
    requires
        configs.len() <= usize::MAX,
    ensures
        forall|i: int|
            0 <= i < module_requests(items, configs, refs).len() ==> request_answerable(
                #[trigger] module_requests(items, configs, refs)[i],
                configs,
            ),
    decreases items.len(),
{
    if items.len() > 0 {
        lemma_requests_answerable(items.drop_last(), configs, refs);
        let prev = module_requests(items.drop_last(), configs, refs);
        let more = item_requests(items.last(), configs, refs);
        if let ItemV::Import(d) = items.last() {
            lemma_find_config_from(configs, d.src, 0);
            if let Some(ci) = find_config(configs, d.src) {
                lemma_specs_requests_answerable(d.specifiers, ci as usize, configs, refs);
                assert((ci as usize) as int == ci);
            }
        }
        assert forall|i: int|
            0 <= i < module_requests(items, configs, refs).len() implies request_answerable(
            #[trigger] module_requests(items, configs, refs)[i],
            configs,
        ) by {
            if i < prev.len() {
                assert(module_requests(items, configs, refs)[i] == prev[i]);
            } else {
                assert(module_requests(items, configs, refs)[i] == more[i - prev.len()]);
            }
        }
    }
}

/// The casing flags of the replace function a request is for: whether its
/// name goes to kebab case, and whether it goes to lower case.
pub open spec fn request_flags(r: ReplaceRequestV, configs: Seq<BabelImportConfig>) -> (bool, bool) {
    match r.kind {
        ReplaceKind::Css => match configs[r.config_index as int].replace_css {
            Some(css) => (flag(css.camel2_dash_component_name, false), flag(css.lower, false)),
            None => (false, false),
        },
        ReplaceKind::Js => match configs[r.config_index as int].replace_js {
            Some(js) => (flag(js.camel2_dash_component_name, false), flag(js.lower, false)),
            None => (false, false),
        },
    }
}

/// The argument of a request is the component's name as the library exports
/// it, put in kebab case first when asked, and then in lower case when asked.
pub open spec fn request_arg_cased(r: ReplaceRequestV, configs: Seq<BabelImportConfig>) -> bool {
    let (camel2dash, lower) = request_flags(r, configs);
    &&& camel2dash && lower ==> r.arg == lowercase(kebab_case(r.default_spec))
    &&& camel2dash && !lower ==> r.arg == kebab_case(r.default_spec)
    &&& !camel2dash && lower ==> r.arg == lowercase(r.default_spec)
    &&& !camel2dash && !lower ==> r.arg == r.default_spec
}

/// The requests a named import makes are for the component it imports: the
/// name the library exports it under (the imported name when the import
/// renames it, else its local name), with the local name as the alias when it
/// is renamed, under the config the import matched; and the same named import
/// not used at all (neither as a value nor as a type) makes no request and is
/// dropped.
pub proof fn lemma_named_requests_are_for_the_component(
    local: IdentV,
    imported: Option<ExportNameV>,
    ci: usize,
    c: BabelImportConfig,
    refs: IdentComponent,
)
    ensures
        forall|i: int|
            0 <= i < named_plan(local, imported, ci, c, refs).0.len() ==> {
                let r = #[trigger] named_plan(local, imported, ci, c, refs).0[i];
                &&& r.config_index == ci
                &&& r.default_spec == match imported {
                    Some(n) => n.name(),
                    None => local.sym,
                }
                &&& r.as_name == match imported {
                    Some(_) => Some(local.sym),
                    None => None::<Seq<char>>,
                }
            },
        !refs.referenced(local) && !refs.type_referenced(local) ==> named_plan(
            local,
            imported,
            ci,
            c,
            refs,
        ) == (Seq::<ReplaceRequestV>::empty(), true),
{
}

proof fn lemma_specs_requests_cased(
    specs: Seq<SpecifierV>,
    ci: usize,
    configs: Seq<BabelImportConfig>,
    refs: IdentComponent,
)
    requires
        ci < configs.len(),
    ensures
        forall|i: int|
            0 <= i < specs_requests(specs, ci, configs[ci as int], refs).len() ==> request_arg_cased(
                #[trigger] specs_requests(specs, ci, configs[ci as int], refs)[i],
                configs,
            ),
    decreases specs.len(),
{
    if specs.len() > 0 {
        let c = configs[ci as int];
        lemma_specs_requests_cased(specs.drop_last(), ci, configs, refs);
        let prev = specs_requests(specs.drop_last(), ci, c, refs);
        let more = specifier_plan(specs.last(), ci, c, refs).0;
        assert forall|i: int| 0 <= i < more.len() implies request_arg_cased(#[trigger] more[i], configs) by {}
        assert forall|i: int|
            0 <= i < specs_requests(specs, ci, c, refs).len() implies request_arg_cased(
            #[trigger] specs_requests(specs, ci, c, refs)[i],
            configs,
        ) by {
            if i < prev.len() {
                assert(specs_requests(specs, ci, c, refs)[i] == prev[i]);
            } else {
                assert(specs_requests(specs, ci, c, refs)[i] == more[i - prev.len()]);
            }
        }
    }
}

/// The name every replace function is called with is the component's name as
/// the library exports it, put in kebab case first when its config asks, and
/// then in lower case when its config asks: with both, `DatePicker` is asked
/// for as `date-picker`.
pub proof fn lemma_requests_cased(
    items: Seq<ItemV>,
    configs: Seq<BabelImportConfig>,
    refs: IdentComponent,
)
    requires
        configs.len() <= usize::MAX,
    ensures
        forall|i: int|
            0 <= i < module_requests(items, configs, refs).len() ==> request_arg_cased(
                #[trigger] module_requests(items, configs, refs)[i],
                configs,
            ),
    decreases items.len(),
{
    if items.len() > 0 {
        lemma_requests_cased(items.drop_last(), configs, refs);
        let prev = module_requests(items.drop_last(), configs, refs);
        let more = item_requests(items.last(), configs, refs);
        if let ItemV::Import(d) = items.last() {
            lemma_find_config_from(configs, d.src, 0);
            if let Some(ci) = find_config(configs, d.src) {
                lemma_specs_requests_cased(d.specifiers, ci as usize, configs, refs);
                assert((ci as usize) as int == ci);
            }
        }
        assert forall|i: int|
            0 <= i < module_requests(items, configs, refs).len() implies request_arg_cased(
            #[trigger] module_requests(items, configs, refs)[i],
            configs,
        ) by {
            if i < prev.len() {
                assert(module_requests(items, configs, refs)[i] == prev[i]);
            } else {
                assert(module_requests(items, configs, refs)[i] == more[i - prev.len()]);
            }
        }
    }
}

proof fn lemma_new_imports_len(reqs: Seq<ReplaceRequestV>, replies: Seq<Seq<char>>)
    ensures
        css_imports(reqs, replies).len() + es_imports(reqs, replies).len() == reqs.len(),
    decreases reqs.len(),
{
    if reqs.len() > 0 {
        lemma_new_imports_len(reqs.drop_last(), replies.take(reqs.len() - 1));
    }
}

/// With a library configured, the module `transform_style` makes has one new
/// import per request, then what is left of the module's items.
pub proof fn lemma_transform_style_len(
    items: Seq<ItemV>,
    config: TransformConfig,
    refs: IdentComponent,
    replies: Seq<Seq<char>>,
)
    requires
        config.babel_import matches Some(c) && c@.len() > 0,
    ensures
        transform_style_spec(items, config, refs, replies).len() == style_requests(
            items,
            config,
            refs,
        ).len() + module_kept(items, config.babel_import->0@, refs).len(),
{
    let configs = config.babel_import->0@;
    let reqs = module_requests(items, configs, refs);
    lemma_new_imports_len(reqs, replies);
}

// ---------------------------------------------------------------------------
// Implementation
// ---------------------------------------------------------------------------

fn clone_opt_string(o: &Option<String>) -> (r: Option<String>)
    ensures
        match (r, *o) {
            (Some(a), Some(b)) => a@ == b@,
            (None, None) => true,
            _ => false,
        },
{
    match o {
        Some(s) => Some(s.clone()),
        None => None,
    }
}

fn named_plan_exec(
    local: &Ident,
    imported: &Option<ModuleExportName>,
    ci: usize,
    c: &BabelImportConfig,
    refs: &IdentComponent,
) -> (r: (Vec<ReplaceRequest>, bool))
    ensures
        (requests_view(r.0@), r.1) == named_plan(
            local@,
            crate::web_transform::ast::opt_name_view(*imported),
            ci,
            *c,
            *refs,
        ),
{
    let ghost imp = crate::web_transform::ast::opt_name_view(*imported);
    let ident: String = match imported {
        Some(n) => n.name(),
        None => local.sym.clone(),
    };
    let as_name: Option<String> = match imported {
        Some(_) => Some(local.sym.clone()),
        None => None,
    };
    assert(ident@ == imported_name(local@, imp));
    let mut reqs: Vec<ReplaceRequest> = Vec::new();
    if refs.is_referenced(local) {
        if let Some(css) = &c.replace_css {
            if !listed_exec(&css.ignore_style_component, &ident) {
                let arg = component_name_exec(
                    &ident,
                    flag_exec(css.camel2_dash_component_name, false),
                    flag_exec(css.lower, false),
                );
                reqs.push(
                    ReplaceRequest {
                        kind: ReplaceKind::Css,
                        config_index: ci,
                        arg,
                        default_spec: ident.clone(),
                        as_name: clone_opt_string(&as_name),
                        use_default_import: false,
                    },
                );
            }
        }
        match &c.replace_js {
            Some(js) => {
                if !listed_exec(&js.ignore_es_component, &ident) {
                    let arg = component_name_exec(
                        &ident,
                        flag_exec(js.camel2_dash_component_name, false),
                        flag_exec(js.lower, false),
                    );
                    reqs.push(
                        ReplaceRequest {
                            kind: ReplaceKind::Js,
                            config_index: ci,
                            arg,
                            default_spec: ident.clone(),
                            as_name: clone_opt_string(&as_name),
                            use_default_import: flag_exec(js.transform_to_default_import, true),
                        },
                    );
                    assert(requests_view(reqs@) =~= named_plan(local@, imp, ci, *c, *refs).0);
                    return (reqs, true);
                }
                assert(requests_view(reqs@) =~= named_plan(local@, imp, ci, *c, *refs).0);
                (reqs, false)
            },
            None => {
                assert(requests_view(reqs@) =~= named_plan(local@, imp, ci, *c, *refs).0);
                (reqs, false)
            },
        }
    } else if refs.is_type_referenced(local) {
        assert(requests_view(reqs@) =~= Seq::<ReplaceRequestV>::empty());
        (reqs, false)
    } else {
        assert(requests_view(reqs@) =~= Seq::<ReplaceRequestV>::empty());
        (reqs, true)
    }
}

proof fn lemma_requests_view_push(s: Seq<ReplaceRequest>, x: ReplaceRequest)
    ensures
        requests_view(s.push(x)) == requests_view(s).push(x@),
{
    assert(requests_view(s.push(x)) =~= requests_view(s).push(x@));
}

proof fn lemma_find_config_from(configs: Seq<BabelImportConfig>, src: Seq<char>, i: int)
    ensures
        find_config_from(configs, src, i) matches Some(k) ==> 0 <= k < configs.len()
            && configs[k].from_source@ == src,
    decreases configs.len() - i,
{
    if 0 <= i < configs.len() && configs[i].from_source@ != src {
        lemma_find_config_from(configs, src, i + 1);
    }
}

fn clone_request(r: &ReplaceRequest) -> (c: ReplaceRequest)
    ensures
        c@ == r@,
{
    ReplaceRequest {
        kind: r.kind,
        config_index: r.config_index,
        arg: r.arg.clone(),
        default_spec: r.default_spec.clone(),
        as_name: clone_opt_string(&r.as_name),
        use_default_import: r.use_default_import,
    }
}

fn append_requests(dst: &mut Vec<ReplaceRequest>, src: &Vec<ReplaceRequest>)
    ensures
        requests_view(final(dst)@) == requests_view(old(dst)@) + requests_view(src@),
{
    let ghost d0 = requests_view(dst@);
    let mut i: usize = 0;
    while i < src.len()
        invariant
            i <= src.len(),
            requests_view(dst@) == d0 + requests_view(src@).take(i as int),
        decreases src.len() - i,
    {
        let ghost before = dst@;
        dst.push(clone_request(&src[i]));
        proof {
            lemma_requests_view_push(before, dst@[before.len() as int]);
        }
        i = i + 1;
        assert(requests_view(dst@) =~= d0 + requests_view(src@).take(i as int));
    }
    assert(requests_view(src@).take(src.len() as int) =~= requests_view(src@));
}

/// The requests and the kept specifiers of an import from a configured library.
fn decl_plan(d: &ImportDecl, ci: usize, c: &BabelImportConfig, refs: &IdentComponent) -> (r: (
    Vec<ReplaceRequest>,
    Vec<ImportSpecifier>,
))
    ensures
        requests_view(r.0@) == specs_requests(d@.specifiers, ci, *c, *refs),
        specifiers_view(r.1@) == specs_kept(d@.specifiers, ci, *c, *refs),
{
    let ghost specs = d@.specifiers;
    let mut reqs: Vec<ReplaceRequest> = Vec::new();
    let mut kept: Vec<ImportSpecifier> = Vec::new();
    let mut j: usize = 0;
    while j < d.specifiers.len()
        invariant
            j <= d.specifiers.len(),
            specs == d@.specifiers,
            requests_view(reqs@) == specs_requests(specs.take(j as int), ci, *c, *refs),
            specifiers_view(kept@) == specs_kept(specs.take(j as int), ci, *c, *refs),
        decreases d.specifiers.len() - j,
    {
        assert(specs.take(j + 1).drop_last() =~= specs.take(j as int));
        assert(specs.take(j + 1).last() == d.specifiers@[j as int]@);
        let spec = &d.specifiers[j];
        let (more, dropped) = match spec {
            ImportSpecifier::Named { local, imported, .. } => named_plan_exec(
                local,
                imported,
                ci,
                c,
                refs,
            ),
            _ => {
                let none: Vec<ReplaceRequest> = Vec::new();
                assert(requests_view(none@) =~= Seq::<ReplaceRequestV>::empty());
                (none, false)
            },
        };
        append_requests(&mut reqs, &more);
        if !dropped {
            let ghost before = specifiers_view(kept@);
            kept.push(spec.clone_spec());
            assert(specifiers_view(kept@) =~= before.push(spec@));
        }
        j = j + 1;
    }
    assert(specs.take(d.specifiers.len() as int) =~= specs);
    (reqs, kept)
}

fn find_config_exec(configs: &Vec<BabelImportConfig>, src: &String) -> (r: Option<usize>)
    ensures
        match r {
            Some(i) => find_config(configs@, src@) == Some(i as int),
            None => find_config(configs@, src@) is None,
        },
{
    let mut i: usize = 0;
    while i < configs.len()
        invariant
            i <= configs.len(),
            find_config(configs@, src@) == find_config_from(configs@, src@, i as int),
        decreases configs.len() - i,
    {
        if configs[i].from_source == *src {
            return Some(i);
        }
        i = i + 1;
    }
    None
}

/// The requests and what is left of one module item.
fn item_plan(item: &ModuleItem, configs: &Vec<BabelImportConfig>, refs: &IdentComponent) -> (r: (
    Vec<ReplaceRequest>,
    Vec<ModuleItem>,
))
    ensures
        requests_view(r.0@) == item_requests(item@, configs@, *refs),
        items_view(r.1@) == item_kept(item@, configs@, *refs),
{
    let mut out: Vec<ModuleItem> = Vec::new();
    match item {
        ModuleItem::Import(d) => {
            proof {
                lemma_find_config_from(configs@, d.src@, 0);
            }
            match find_config_exec(configs, &d.src) {
                Some(ci) => {
                    let (reqs, kept) = decl_plan(d, ci, &configs[ci], refs);
                    if kept.len() > 0 {
                        out.push(
                            ModuleItem::Import(
                                ImportDecl {
                                    src: d.src.clone(),
                                    specifiers: kept,
                                    type_only: d.type_only,
                                    origin: d.origin,
                                },
                            ),
                        );
                        assert(items_view(out@) =~= item_kept(item@, configs@, *refs));
                    } else {
                        assert(items_view(out@) =~= item_kept(item@, configs@, *refs));
                    }
                    (reqs, out)
                },
                None => {
                    out.push(clone_item(item));
                    assert(items_view(out@) =~= item_kept(item@, configs@, *refs));
                    let none: Vec<ReplaceRequest> = Vec::new();
                    assert(requests_view(none@) =~= item_requests(item@, configs@, *refs));
                    (none, out)
                },
            }
        },
        ModuleItem::Other(k) => {
            out.push(ModuleItem::Other(*k));
            assert(items_view(out@) =~= item_kept(item@, configs@, *refs));
            let none: Vec<ReplaceRequest> = Vec::new();
            assert(requests_view(none@) =~= item_requests(item@, configs@, *refs));
            (none, out)
        },
    }
}

fn append_items(dst: &mut Vec<ModuleItem>, src: &Vec<ModuleItem>)
    ensures
        items_view(final(dst)@) == items_view(old(dst)@) + items_view(src@),
{
    let ghost d0 = items_view(dst@);
    let mut i: usize = 0;
    while i < src.len()
        invariant
            i <= src.len(),
            items_view(dst@) == d0 + items_view(src@).take(i as int),
        decreases src.len() - i,
    {
        let ghost before = dst@;
        dst.push(clone_item(&src[i]));
        proof {
            lemma_items_view_push(before, dst@[before.len() as int]);
        }
        i = i + 1;
        assert(items_view(dst@) =~= d0 + items_view(src@).take(i as int));
    }
    assert(items_view(src@).take(src.len() as int) =~= items_view(src@));
}

/// The requests and what is left of the module's items.
fn module_plan(module: &ModuleItems, configs: &Vec<BabelImportConfig>, refs: &IdentComponent) -> (r: (
    Vec<ReplaceRequest>,
    Vec<ModuleItem>,
))
    ensures
        requests_view(r.0@) == module_requests(module@, configs@, *refs),
        items_view(r.1@) == module_kept(module@, configs@, *refs),
{
    let ghost items = module@;
    let mut reqs: Vec<ReplaceRequest> = Vec::new();
    let mut kept: Vec<ModuleItem> = Vec::new();
    let mut i: usize = 0;
    while i < module.body.len()
        invariant
            i <= module.body.len(),
            items == module@,
            requests_view(reqs@) == module_requests(items.take(i as int), configs@, *refs),
            items_view(kept@) == module_kept(items.take(i as int), configs@, *refs),
        decreases module.body.len() - i,
    {
        assert(items.take(i + 1).drop_last() =~= items.take(i as int));
        assert(items.take(i + 1).last() == module.body@[i as int]@);
        let (more, left) = item_plan(&module.body[i], configs, refs);
        append_requests(&mut reqs, &more);
        append_items(&mut kept, &left);
        i = i + 1;
    }
    assert(items.take(module.body.len() as int) =~= items);
    (reqs, kept)
}

/// The names to pass to the replace functions of the configured libraries, in
/// the order the calls are made: for each import from a configured library, for

/// Whether `transform_style` rewrites a module: some library is configured.
/// Only then does it clear the syntax contexts of the module's identifiers.
pub fn style_configured(config: &TransformConfig) -> (r: bool)
    ensures
        r == (config.babel_import matches Some(c) && c@.len() > 0),
{
    match &config.babel_import {
        Some(c) => c.len() > 0,
        None => false,
    }
}

/// each used component, first its style sheet, then its module.
pub fn babel_import_requests(
    module: &ModuleItems,
    project_config: &TransformConfig,
    refs: &IdentComponent,
) -> (r: Vec<ReplaceRequest>)
    ensures
        requests_view(r@) == style_requests(module@, *project_config, *refs),
{
    match &project_config.babel_import {
        Some(configs) => module_plan(module, configs, refs).0,
        None => {
            let none: Vec<ReplaceRequest> = Vec::new();
            assert(requests_view(none@) =~= Seq::<ReplaceRequestV>::empty());
            none
        },
    }
}

fn es_import_exec(req: &ReplaceRequest, source: &String) -> (r: ModuleItem)
    ensures
        r@ == es_import(req@, source@),
{
    let local_name = match &req.as_name {
        Some(a) => a.clone(),
        None => req.default_spec.clone(),
    };
    let local = Ident { sym: local_name, ctxt: 0 };
    let spec = if req.use_default_import {
        ImportSpecifier::Default { local }
    } else {
        let imported = match &req.as_name {
            Some(_) => Some(ModuleExportName::Ident(req.default_spec.clone())),
            None => None,
        };
        ImportSpecifier::Named { local, imported, is_type_only: false }
    };
    let ghost sv = spec@;
    let mut specs: Vec<ImportSpecifier> = Vec::new();
    specs.push(spec);
    assert(specifiers_view(specs@) =~= seq![sv]);
    ModuleItem::Import(
        ImportDecl { src: source.clone(), specifiers: specs, type_only: false, origin: None },
    )
}

fn clear_specifier_exec(s: &ImportSpecifier) -> (r: ImportSpecifier)
    ensures
        r@ == clear_specifier(s@),
{
    let mut mark = ClearMark;
    match s {
        ImportSpecifier::Named { local, imported, is_type_only } => {
            let mut local = local.clone_ident();
            mark.visit_mut_ident(&mut local);
            let imported = match imported {
                Some(n) => Some(n.clone_name()),
                None => None,
            };
            ImportSpecifier::Named { local, imported, is_type_only: *is_type_only }
        },
        ImportSpecifier::Default { local } => {
            let mut local = local.clone_ident();
            mark.visit_mut_ident(&mut local);
            ImportSpecifier::Default { local }
        },
        ImportSpecifier::Namespace { local } => {
            let mut local = local.clone_ident();
            mark.visit_mut_ident(&mut local);
            ImportSpecifier::Namespace { local }
        },
    }
}

fn clear_marks(item: &ModuleItem) -> (r: ModuleItem)
    ensures
        r@ == clear_item(item@),
{
    match item {
        ModuleItem::Import(d) => {
            let mut specs: Vec<ImportSpecifier> = Vec::new();
            let mut j: usize = 0;
            while j < d.specifiers.len()
                invariant
                    j <= d.specifiers.len(),
                    specifiers_view(specs@) == specifiers_view(d.specifiers@).take(j as int).map_values(
                        |s: SpecifierV| clear_specifier(s),
                    ),
                decreases d.specifiers.len() - j,
            {
                let s = clear_specifier_exec(&d.specifiers[j]);
                let ghost before = specs@;
                specs.push(s);
                proof {
                    lemma_specifiers_view_push(before, specs@[before.len() as int]);
                }
                j = j + 1;
                assert(specifiers_view(specs@) =~= specifiers_view(d.specifiers@).take(j as int).map_values(
                    |s: SpecifierV| clear_specifier(s),
                ));
            }
            assert(specifiers_view(d.specifiers@).take(d.specifiers.len() as int) =~= specifiers_view(
                d.specifiers@,
            ));
            ModuleItem::Import(
                ImportDecl {
                    src: d.src.clone(),
                    specifiers: specs,
                    type_only: d.type_only,
                    origin: d.origin,
                },
            )
        },
        ModuleItem::Other(k) => ModuleItem::Other(*k),
    }
}

/// Rewrites the imports of the configured libraries, given `replies`, the
/// answers of the replace functions to the requests of `babel_import_requests`
/// in the same order (see `transform_style_spec`).
pub fn transform_style(
    module: &mut ModuleItems,
    project_config: &TransformConfig,
    refs: &IdentComponent,
    replies: &Vec<String>,
)
    requires
        replies@.len() == style_requests(old(module)@, *project_config, *refs).len(),
    ensures
        final(module)@ == transform_style_spec(
            old(module)@,
            *project_config,
            *refs,
            replies.deep_view(),
        ),
{
    let configs = match &project_config.babel_import {
        Some(configs) => configs,
        None => {
            return;
        },
    };
    if configs.len() == 0 {
        return;
    }
    let ghost rs = replies.deep_view();
    let (reqs, kept) = module_plan(module, configs, refs);
    let ghost rv = requests_view(reqs@);
    // The new imports, in request order.
    let mut css: Vec<ModuleItem> = Vec::new();
    let mut es: Vec<ModuleItem> = Vec::new();
    let mut i: usize = 0;
    while i < reqs.len()
        invariant
            i <= reqs.len(),
            rv == requests_view(reqs@),
            rs == replies.deep_view(),
            replies@.len() == reqs@.len(),
            items_view(css@) == css_imports(rv.take(i as int), rs.take(i as int)),
            items_view(es@) == es_imports(rv.take(i as int), rs.take(i as int)),
        decreases reqs.len() - i,
    {
        assert(rv.take(i + 1).drop_last() =~= rv.take(i as int));
        assert(rs.take(i + 1).take(i as int) =~= rs.take(i as int));
        assert(rv.take(i + 1).last() == reqs@[i as int]@);
        assert(rs.take(i + 1)[i as int] == replies@[i as int]@);
        if reqs[i].kind == ReplaceKind::Css {
            let ghost before = items_view(css@);
            let none: Vec<ImportSpecifier> = Vec::new();
            assert(specifiers_view(none@) =~= Seq::<SpecifierV>::empty());
            css.push(
                ModuleItem::Import(
                    ImportDecl { src: replies[i].clone(), specifiers: none, type_only: false, origin: None },
                ),
            );
            assert(items_view(css@) =~= before.push(css_import(replies@[i as int]@)));
        } else {
            let ghost before = items_view(es@);
            es.push(es_import_exec(&reqs[i], &replies[i]));
            assert(items_view(es@) =~= before.push(es_import(reqs@[i as int]@, replies@[i as int]@)));
        }
        i = i + 1;
    }
    assert(rv.take(reqs.len() as int) =~= rv);
    assert(rs.take(reqs.len() as int) =~= rs);
    let ghost whole = css_imports(rv, rs).reverse() + es_imports(rv, rs).reverse() + module_kept(
        old(module)@,
        configs@,
        *refs,
    );
    // Each new import goes in front of the body, so each group ends up reversed.
    let mut body: Vec<ModuleItem> = Vec::new();
    let mut k: usize = css.len();
    while k > 0
        invariant
            k <= css.len(),
            whole == css_imports(rv, rs).reverse() + es_imports(rv, rs).reverse() + items_view(kept@),
            items_view(css@) == css_imports(rv, rs),
            items_view(body@) == whole.take((css.len() - k) as int).map_values(
                |it: ItemV| clear_item(it),
            ),
        decreases k,
    {
        k = k - 1;
        let ghost before = body@;
        body.push(clear_marks(&css[k]));
        proof {
            lemma_items_view_push(before, body@[before.len() as int]);
        }
        assert(whole[(css.len() - 1 - k) as int] == items_view(css@)[k as int]);
        assert(items_view(body@) =~= whole.take((css.len() - k) as int).map_values(
            |it: ItemV| clear_item(it),
        ));
    }
    let mut k: usize = es.len();
    while k > 0
        invariant
            k <= es.len(),
            whole == css_imports(rv, rs).reverse() + es_imports(rv, rs).reverse() + items_view(kept@),
            items_view(css@) == css_imports(rv, rs),
            items_view(es@) == es_imports(rv, rs),
            items_view(body@) == whole.take((css.len() + es.len() - k) as int).map_values(
                |it: ItemV| clear_item(it),
            ),
        decreases k,
    {
        k = k - 1;
        let ghost before = body@;
        body.push(clear_marks(&es[k]));
        proof {
            lemma_items_view_push(before, body@[before.len() as int]);
        }
        assert(whole[(css.len() + es.len() - 1 - k) as int] == items_view(es@)[k as int]);
        assert(items_view(body@) =~= whole.take((css.len() + es.len() - k) as int).map_values(
            |it: ItemV| clear_item(it),
        ));
    }
    let mut j: usize = 0;
    while j < kept.len()
        invariant
            j <= kept.len(),
            whole == css_imports(rv, rs).reverse() + es_imports(rv, rs).reverse() + items_view(kept@),
            items_view(css@) == css_imports(rv, rs),
            items_view(es@) == es_imports(rv, rs),
            items_view(body@) == whole.take((css.len() + es.len() + j) as int).map_values(
                |it: ItemV| clear_item(it),
            ),
        decreases kept.len() - j,
    {
        let ghost before = body@;
        body.push(clear_marks(&kept[j]));
        proof {
            lemma_items_view_push(before, body@[before.len() as int]);
        }
        j = j + 1;
        assert(items_view(body@) =~= whole.take((css.len() + es.len() + j) as int).map_values(
            |it: ItemV| clear_item(it),
        ));
    }
    assert(whole.take(whole.len() as int) =~= whole);
    module.body = body;
}

} // verus!
