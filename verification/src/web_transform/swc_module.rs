//! A source file parsed by swc into its syntax tree, the library's view of
//! the tree's items, and the printing of the tree back to code with a source
//! map.
use std::rc::Rc;

use swc_common::source_map::DefaultSourceMapGenConfig;
use swc_common::{BytePos, FileName, Globals, LineCol, Mark, SourceMap, GLOBALS};
use swc_ecma_ast::EsVersion as SwcVersion;
use swc_ecma_codegen::text_writer::JsWriter;
use swc_ecma_codegen::{Config, Emitter, Node};
use swc_ecma_parser::lexer::Lexer;
use swc_ecma_parser::{Parser, StringInput, Syntax, TsSyntax};
use swc_ecma_transforms::resolver;
use swc_ecma_visit::VisitMutWith;
use vstd::prelude::*;

use crate::text::concat;
use crate::web_transform::babel_import::clear_item;
use crate::types::{flag, TransformConfig, TransformOutput};
use crate::web_transform::ast::{
    self as model, items_view, lemma_items_view_push, lemma_specifiers_view_push, opt_name_view,
    specifiers_view, Ident, IdentV, ImportDecl, ImportSpecifier, ItemV, ModuleExportName, ModuleItem,
    SpecifierV,
};
use crate::web_transform::parser::EsVersion::{Es2015, Es2016, Es2020, Es5};
use crate::web_transform::parser::{
    es_target, es_target_spec, join_error_messages, parse_version, source_filename, tsx_parse,
    EsVersion,
};

verus! {

#[verifier::external_type_specification]
#[verifier::external_body]
pub struct ExSwcModule(swc_ecma_ast::Module);

#[verifier::external_type_specification]
#[verifier::external_body]
pub struct ExSourceMap(swc_common::SourceMap);

#[verifier::external_type_specification]
#[verifier::external_body]
pub struct ExBytePos(swc_common::BytePos);

#[verifier::external_type_specification]
#[verifier::external_body]
pub struct ExLineCol(swc_common::LineCol);

/// What the body of a swc module holds, as the library views it: at each
/// position, an import declaration with its source, specifiers, type-only
/// flag and that position as its origin, or `ItemV::Other` with that position
/// for any other item.
pub uninterp spec fn swc_items(m: swc_ecma_ast::Module) -> Seq<ItemV>;

/// The number of items in the module's body (`Vec::len` on `Module::body`).
#[verifier::external_body]
fn body_len(m: &swc_ecma_ast::Module) -> (r: usize)
    ensures
        r == swc_items(*m).len(),
{
    m.body.len()
}

/// The item at `i` when it is an import declaration (swc's
/// `ModuleItem::as_module_decl` and `ModuleDecl::as_import`): its source, its
/// type-only flag and its number of specifiers; `None` for any other item.
#[verifier::external_body]
fn import_header(m: &swc_ecma_ast::Module, i: usize) -> (r: Option<(String, bool, usize)>)
    requires
        i < swc_items(*m).len(),
    ensures
        match r {
            Some(h) => swc_items(*m)[i as int] matches ItemV::Import(d) && d.src == h.0@
                && d.type_only == h.1 && d.specifiers.len() == h.2 && d.origin == Some(i),
            None => swc_items(*m)[i as int] == ItemV::Other(i),
        },
{
    m.body[i].as_module_decl().and_then(|d| d.as_import()).map(
        |d| (d.src.value.to_atom_lossy().to_string(), d.type_only, d.specifiers.len()),
    )
}

/// Whether the item at `i` is an import declaration with a specifier at `j`.
pub open spec fn has_specifier(items: Seq<ItemV>, i: int, j: int) -> bool {
    &&& 0 <= i < items.len()
    &&& items[i] matches ItemV::Import(d) && 0 <= j < d.specifiers.len()
}

/// The specifier at `j` of the import declaration at `i`.
pub open spec fn specifier_of(items: Seq<ItemV>, i: int, j: int) -> SpecifierV
    recommends
        has_specifier(items, i, j),
{
    match items[i] {
        ItemV::Import(d) => d.specifiers[j],
        ItemV::Other(_) => arbitrary(),
    }
}

/// The identifier a specifier binds.
pub open spec fn local_of(s: SpecifierV) -> IdentV {
    match s {
        SpecifierV::Named { local, .. } => local,
        SpecifierV::Default { local } => local,
        SpecifierV::Namespace { local } => local,
    }
}

/// The identifier a specifier binds (swc's `ImportSpecifier::local`), by its
/// name and syntax context.
#[verifier::external_body]
fn specifier_local(m: &swc_ecma_ast::Module, i: usize, j: usize) -> (r: Option<Ident>)
    requires
        has_specifier(swc_items(*m), i as int, j as int),
    ensures
        match r {
            Some(l) => l@ == local_of(specifier_of(swc_items(*m), i as int, j as int)),
            None => false,
        },
{
    let d = m.body[i].as_module_decl().and_then(|d| d.as_import())?;
    let l = d.specifiers[j].local();
    Some(Ident { sym: l.sym.to_string(), ctxt: l.ctxt.as_u32() })
}

/// The form of a specifier, apart from the identifier it binds.
pub enum SpecifierForm {
    Named { imported: Option<ModuleExportName>, is_type_only: bool },
    Default,
    Namespace,
}

/// Whether `f` is the form of `s`.
pub open spec fn form_of(f: SpecifierForm, s: SpecifierV) -> bool {
    match f {
        SpecifierForm::Named { imported, is_type_only } => s matches SpecifierV::Named {
            imported: i2,
            is_type_only: t2,
            ..
        } && i2 == opt_name_view(imported) && t2 == is_type_only,
        SpecifierForm::Default => s is Default,
        SpecifierForm::Namespace => s is Namespace,
    }
}

/// The variant of a specifier (swc's `ImportSpecifier`), with the exported
/// name and the type-only flag of a named one.
#[verifier::external_body]
fn specifier_form(m: &swc_ecma_ast::Module, i: usize, j: usize) -> (r: Option<SpecifierForm>)
    requires
        has_specifier(swc_items(*m), i as int, j as int),
    ensures
        match r {
            Some(f) => form_of(f, specifier_of(swc_items(*m), i as int, j as int)),
            None => false,
        },
{
    let d = m.body[i].as_module_decl().and_then(|d| d.as_import())?;
    Some(match &d.specifiers[j] {
        swc_ecma_ast::ImportSpecifier::Named(n) => SpecifierForm::Named {
            imported: n.imported.as_ref().map(|x| match x {
                swc_ecma_ast::ModuleExportName::Ident(x) => ModuleExportName::Ident(x.sym.to_string()),
                swc_ecma_ast::ModuleExportName::Str(s) => ModuleExportName::Str(s.value.to_atom_lossy().to_string()),
            }),
            is_type_only: n.is_type_only,
        },
        swc_ecma_ast::ImportSpecifier::Default(_) => SpecifierForm::Default,
        swc_ecma_ast::ImportSpecifier::Namespace(_) => SpecifierForm::Namespace,
    })
}

/// The specifier at `j` of the import declaration at `i`.
fn specifier_at(m: &swc_ecma_ast::Module, i: usize, j: usize) -> (r: ImportSpecifier)
    requires
        has_specifier(swc_items(*m), i as int, j as int),
    ensures
        r@ == specifier_of(swc_items(*m), i as int, j as int),
{
    let local = specifier_local(m, i, j);
    let form = specifier_form(m, i, j);
    match (local, form) {
        (Some(local), Some(SpecifierForm::Named { imported, is_type_only })) => {
            ImportSpecifier::Named { local, imported, is_type_only }
        },
        (Some(local), Some(SpecifierForm::Default)) => ImportSpecifier::Default { local },
        (Some(local), Some(SpecifierForm::Namespace)) => ImportSpecifier::Namespace { local },
        _ => {
            proof {
                assert(false);
            }
            ImportSpecifier::Default { local: Ident { sym: String::new(), ctxt: 0 } }
        },
    }
}

/// The specifiers of the import declaration at `i`, which has `count` of them.
fn specifiers_at(m: &swc_ecma_ast::Module, i: usize, count: usize) -> (r: Vec<ImportSpecifier>)
    requires
        i < swc_items(*m).len(),
        swc_items(*m)[i as int] matches ItemV::Import(d) && d.specifiers.len() == count,
    ensures
        swc_items(*m)[i as int] matches ItemV::Import(d) && specifiers_view(r@) == d.specifiers,
{
    let ghost specs = swc_items(*m)[i as int]->Import_0.specifiers;
    let mut r: Vec<ImportSpecifier> = Vec::new();
    let mut j: usize = 0;
    while j < count
        invariant
            j <= count,
            i < swc_items(*m).len(),
            swc_items(*m)[i as int] matches ItemV::Import(d) && d.specifiers == specs,
            specs.len() == count,
            specifiers_view(r@) == specs.take(j as int),
        decreases count - j,
    {
        let s = specifier_at(m, i, j);
        proof {
            lemma_specifiers_view_push(r@, s);
        }
        r.push(s);
        j = j + 1;
        assert(specifiers_view(r@) =~= specs.take(j as int));
    }
    assert(specs.take(count as int) =~= specs);
    r
}

/// The library's view of a swc module: its import declarations, and every
/// other item by its position.
pub fn items_of(m: &swc_ecma_ast::Module) -> (r: model::ModuleItems)
    ensures
        r@ == swc_items(*m),
{
    let n = body_len(m);
    let mut body: Vec<ModuleItem> = Vec::new();
    let mut i: usize = 0;
    while i < n
        invariant
            i <= n,
            n == swc_items(*m).len(),
            items_view(body@) == swc_items(*m).take(i as int),
        decreases n - i,
    {
        let item = match import_header(m, i) {
            None => ModuleItem::Other(i),
            Some((src, type_only, count)) => {
                let specifiers = specifiers_at(m, i, count);
                ModuleItem::Import(ImportDecl { src, specifiers, type_only, origin: Some(i) })
            },
        };
        proof {
            lemma_items_view_push(body@, item);
        }
        body.push(item);
        i = i + 1;
        assert(items_view(body@) =~= swc_items(*m).take(i as int));
    }
    assert(swc_items(*m).take(n as int) =~= swc_items(*m));
    model::ModuleItems { body }
}

/// A source file parsed by swc: its syntax tree, and the source map that
/// holds the file and is needed to print the tree with a source map.
pub struct ParsedModule {
    pub module: swc_ecma_ast::Module,
    pub source_map: Rc<SourceMap>,
}

/// The type of a parsed module with its source map, as spec values.
pub type Parsed = (swc_ecma_ast::Module, SourceMap);

/// What swc's parser gives for a source held in a new source map as a file
/// named `filename`, parsed as TypeScript (`tsx` with JSX, `decorators` with
/// decorators) for the ECMAScript `version`: the messages of the errors it reports on creation
/// (`Parser::take_errors`), then the module it parses (`Parser::parse_module`)
/// with the source map, or the message of its error.
pub uninterp spec fn swc_parse(
    code: Seq<char>,
    filename: Seq<char>,
    tsx: bool,
    decorators: bool,
    version: EsVersion,
) -> (
    Seq<Seq<char>>,
    Result<Parsed, Seq<char>>,
);

/// Parses `code` with swc (`Lexer::new`, `Parser::new_from`,
/// `Parser::take_errors`, `Parser::parse_module`) in a new source map
/// (`SourceMap::new_source_file`) that holds it as a file named `filename`.
/// The contract claims that the early error messages, and the parsed module
/// with its source map or the parse error, are those `swc_parse` names, a
/// function of `code`, `filename`, `tsx`, `decorators` and `version` alone.
#[verifier::external_body]
fn parse_with_swc(
    code: &str,
    filename: String,
    tsx: bool,
    decorators: bool,
    version: EsVersion,
) -> (r: (
    Vec<String>,
    Result<(swc_ecma_ast::Module, Rc<SourceMap>), String>,
))
    ensures
        r.0.deep_view() == swc_parse(code@, filename@, tsx, decorators, version).0,
        match r.1 {
            Ok(p) => swc_parse(code@, filename@, tsx, decorators, version).1 == Ok::<Parsed, Seq<char>>(
                (p.0, *p.1),
            ),
            Err(e) => swc_parse(code@, filename@, tsx, decorators, version).1 == Err::<Parsed, Seq<char>>(
                e@,
            ),
        },
{
    let cm = Rc::new(SourceMap::default());
    let fm = cm.new_source_file(FileName::Custom(filename).into(), code.to_string());
    let target = match version {
        Es5 => SwcVersion::Es5, Es2015 => SwcVersion::Es2015,
        Es2016 => SwcVersion::Es2016, Es2020 => SwcVersion::Es2020,
    };
    let ts = TsSyntax { tsx, decorators, ..Default::default() };
    let mut parser =
        Parser::new_from(Lexer::new(Syntax::Typescript(ts), target, StringInput::from(&*fm), None));
    (
        parser.take_errors().iter().map(|e| e.kind().msg().to_string()).collect(),
        parser.parse_module().map(|m| (m, cm)).map_err(|e| e.into_kind().msg().to_string()),
    )
}

/// What parsing gives once the parser has answered: the messages of the errors
/// it reported on creation, one after the other, when there are any; else the
/// parsed module, or the message of the error that stopped it.
pub open spec fn parse_result_spec<T>(
    early_errors: Seq<Seq<char>>,
    parsed: Result<T, Seq<char>>,
) -> Result<T, Seq<char>> {
    if early_errors.len() > 0 {
        Err(concat(early_errors))
    } else {
        parsed
    }
}

/// The view of an optional string.
pub open spec fn opt_view(o: Option<String>) -> Option<Seq<char>> {
    match o {
        Some(s) => Some(s@),
        None => None,
    }
}

/// The name the source file is given: `filename`, or "test.js" when there is none.
pub open spec fn filename_spec(filename: Option<Seq<char>>) -> Seq<char> {
    match filename {
        Some(f) => f,
        None => "test.js"@,
    }
}

/// What parsing `code` gives as the transform parses it: as TypeScript with
/// decorators, with JSX unless `tsx` is false, for ES2016, in a file named by
/// `filename_spec`.
pub open spec fn parse_spec(code: Seq<char>, filename: Option<Seq<char>>, tsx: Option<bool>) -> Result<
    Parsed,
    Seq<char>,
> {
    let p = swc_parse(code, filename_spec(filename), flag(tsx, true), true, EsVersion::Es2016);
    parse_result_spec(p.0, p.1)
}

/// The outcome of a parse from what the parser answered (see `parse_result_spec`).
pub fn parse_outcome(
    early_errors: Vec<String>,
    parsed: Result<(swc_ecma_ast::Module, Rc<SourceMap>), String>,
) -> (r: Result<ParsedModule, String>)
    ensures
        match r {
            Ok(p) => early_errors.len() == 0 && (parsed matches Ok(q) && p.module == q.0
                && p.source_map == q.1),
            Err(e) => if early_errors.len() > 0 {
                e@ == concat(early_errors.deep_view())
            } else {
                (parsed matches Err(e2) && e@ == e2@)
            },
        },
{
    if early_errors.len() > 0 {
        return Err(join_error_messages(&early_errors));
    }
    match parsed {
        Ok((module, source_map)) => Ok(ParsedModule { module, source_map }),
        Err(e) => Err(e),
    }
}

/// Parses `code` as the transform does (see `parse_spec`). It fails with the
/// parser's early error messages joined, or else with the message of the
/// error that stopped the parse.
pub fn parse_source(code: &str, filename: Option<String>, config: &TransformConfig) -> (r: Result<
    ParsedModule,
    String,
>)
    ensures
        match r {
            Ok(m) => parse_spec(code@, opt_view(filename), config.tsx) == Ok::<Parsed, Seq<char>>(
                (m.module, *m.source_map),
            ),
            Err(e) => parse_spec(code@, opt_view(filename), config.tsx) == Err::<Parsed, Seq<char>>(
                e@,
            ),
        },
{
    let name = source_filename(filename);
    let tsx = tsx_parse(config);
    let version = parse_version();
    let (early_errors, parsed) = parse_with_swc(code, name, tsx, true, version);
    parse_outcome(early_errors, parsed)
}

/// The items of what a parse gave, when it gave a module.
pub open spec fn parsed_items(p: Result<Parsed, Seq<char>>) -> Result<Seq<ItemV>, Seq<char>> {
    match p {
        Ok(q) => Ok(swc_items(q.0)),
        Err(e) => Err(e),
    }
}

/// With no file name the source is parsed as "test.js": parsing with no name
/// and with "test.js" gives the same.
pub proof fn lemma_default_file_name(code: Seq<char>, tsx: Option<bool>)
    ensures
        parse_spec(code, None, tsx) == parse_spec(code, Some("test.js"@), tsx),
{
}

/// What swc's code generator prints for a module whose source map is `cm`,
/// for the ECMAScript `version`, ending lines with `new_line`: the code with the mapping of each printed
/// position to its source position, or the message of its error.
pub uninterp spec fn swc_emit(
    m: swc_ecma_ast::Module,
    cm: SourceMap,
    version: EsVersion,
    new_line: Seq<char>,
) -> Result<
    (Seq<char>, Seq<(BytePos, LineCol)>),
    Seq<char>,
>;

/// Prints `module` with swc's code generator (`Emitter` over a `JsWriter`,
/// with no comments and swc's default options) for the ECMAScript `version`,
/// ending lines with `new_line`, collecting the mapping of each printed position to its source position.
/// The contract claims that the code and mappings, or the error, are those
/// `swc_emit` names, a function of the module, the source map, the version
/// and the line ending.
#[verifier::external_body]
fn emit_module(
    module: &swc_ecma_ast::Module,
    cm: &Rc<SourceMap>,
    version: EsVersion,
    new_line: &str,
) -> (r:
    Result<(String, Vec<(BytePos, LineCol)>), String>)
    ensures
        match r {
            Ok(p) => swc_emit(*module, **cm, version, new_line@) == Ok::<
                (Seq<char>, Seq<(BytePos, LineCol)>),
                Seq<char>,
            >((p.0@, p.1@)),
            Err(e) => swc_emit(*module, **cm, version, new_line@) == Err::<
                (Seq<char>, Seq<(BytePos, LineCol)>),
                Seq<char>,
            >(e@),
        },
{
    let target = match version {
        Es5 => SwcVersion::Es5,
        Es2015 => SwcVersion::Es2015,
        Es2016 => SwcVersion::Es2016,
        Es2020 => SwcVersion::Es2020,
    };
    let (mut buf, mut mappings) = (Vec::new(), Vec::new());
    {
        let wr = JsWriter::new(cm.clone(), new_line, &mut buf, Some(&mut mappings));
        let cfg = Config::default().with_target(target);
        let mut emitter = Emitter { cfg, cm: cm.clone(), comments: None, wr };
        module.emit_with(&mut emitter).map_err(|e| e.to_string())?;
    }
    String::from_utf8(buf).map(|code| (code, mappings)).map_err(|e| e.to_string())
}

/// The source map, as JSON, that swc_common builds from the source map `cm`
/// for the printed `mappings`, or the message of the error writing it gave.
pub uninterp spec fn swc_map_json(cm: SourceMap, mappings: Seq<(BytePos, LineCol)>) -> Result<
    Seq<char>,
    Seq<char>,
>;

/// The source map of printed code as JSON (swc_common's
/// `SourceMap::build_source_map` with its default generator configuration,
/// written out by `swc_sourcemap::SourceMap::to_writer`). The contract claims
/// that the JSON, or the error, is what `swc_map_json` names, a function of the
/// source map and the mappings.
#[verifier::external_body]
fn source_map_json(cm: &Rc<SourceMap>, mappings: &Vec<(BytePos, LineCol)>) -> (r: Result<
    String,
    String,
>)
    ensures
        match r {
            Ok(j) => swc_map_json(**cm, mappings@) == Ok::<Seq<char>, Seq<char>>(j@),
            Err(e) => swc_map_json(**cm, mappings@) == Err::<Seq<char>, Seq<char>>(e@),
        },
{
    let mut buf = Vec::new();
    let map = cm.build_source_map(mappings, None, DefaultSourceMapGenConfig);
    map.to_writer(&mut buf).map_err(|e| e.to_string())?;
    String::from_utf8(buf).map_err(|e| e.to_string())
}

/// The output of a print once the source map of the printed `code` is written
/// out: the code with its source map, or the error that writing it gave.
pub fn print_outcome(code: String, map: Result<String, String>) -> (r: Result<
    TransformOutput,
    String,
>)
    ensures
        match map {
            Ok(m) => r matches Ok(out) && out.code@ == code@ && (out.map matches Some(m2)
                && m2@ == m@),
            Err(e) => r matches Err(e2) && e2@ == e@,
        },
{
    match map {
        Ok(m) => Ok(TransformOutput { code, map: Some(m) }),
        Err(e) => Err(e),
    }
}

/// What printing a module whose source map is `cm` for `target` gives: the
/// code swc prints for the version `target` names (see `es_target_spec`), with
/// lines ending in a line feed, and the source map of that print as JSON, or
/// the first error.
pub open spec fn print_spec(m: swc_ecma_ast::Module, cm: SourceMap, target: Option<Seq<char>>) -> Result<
    (Seq<char>, Seq<char>),
    Seq<char>,
> {
    match swc_emit(m, cm, es_target_spec(target), "\n"@) {
        Err(e) => Err(e),
        Ok(p) => match swc_map_json(cm, p.1) {
            Ok(map) => Ok((p.0, map)),
            Err(e) => Err(e),
        },
    }
}

/// Prints a parsed module for the ECMAScript version that `target` names, with
/// its source map (see `print_spec`).
pub fn print_module(parsed: &ParsedModule, target: Option<String>) -> (r: Result<
    TransformOutput,
    String,
>)
    ensures
        match r {
            Ok(out) => out.map is Some && print_spec(
                parsed.module,
                *parsed.source_map,
                opt_view(target),
            ) == Ok::<(Seq<char>, Seq<char>), Seq<char>>((out.code@, out.map->Some_0@)),
            Err(e) => print_spec(parsed.module, *parsed.source_map, opt_view(target)) == Err::<
                (Seq<char>, Seq<char>),
                Seq<char>,
            >(e@),
        },
{
    let version = es_target(target);
    match emit_module(&parsed.module, &parsed.source_map, version, "\n") {
        Err(e) => Err(e),
        Ok((code, mappings)) => print_outcome(code, source_map_json(&parsed.source_map, &mappings)),
    }
}

/// Targets that name the same ECMAScript version print alike: no target, ""
/// and "ES5" as ES5, "ES6" as ES2015, and every other target as ES2020.
pub proof fn lemma_same_version_same_print(
    m: swc_ecma_ast::Module,
    cm: SourceMap,
    t1: Option<Seq<char>>,
    t2: Option<Seq<char>>,
)
    requires
        es_target_spec(t1) == es_target_spec(t2),
    ensures
        print_spec(m, cm, t1) == print_spec(m, cm, t2),
{
}

/// The items with the syntax contexts of their identifiers cleared.
pub open spec fn without_contexts(items: Seq<ItemV>) -> Seq<ItemV> {
    items.map_values(|it: ItemV| clear_item(it))
}

/// What swc's scope resolution makes of a module (`resolver` of
/// swc_ecma_transforms, for TypeScript, with new unresolved and top-level
/// marks under a new `Globals`).
pub uninterp spec fn swc_resolve(m: swc_ecma_ast::Module) -> swc_ecma_ast::Module;

/// Runs swc's scope resolution over the module. The contract claims that the
/// module becomes what `swc_resolve` names, a function of the module alone,
/// and that resolution gives identifiers their syntax contexts and changes
/// nothing else of the items the library views: with contexts cleared, those
/// items stay as they were.
#[verifier::external_body]
fn resolve_with_swc(module: &mut swc_ecma_ast::Module)
    ensures
        *final(module) == swc_resolve(*old(module)),
        without_contexts(swc_items(*final(module))) == without_contexts(swc_items(*old(module))),
{
    GLOBALS.set(&Globals::new(), || {
        module.visit_mut_with(&mut resolver(Mark::new(), Mark::new(), true));
    });
}

/// Resolves the scopes of a parsed module (see `resolve_with_swc`); the
/// source map stays as it was.
pub fn resolve_scopes(parsed: &mut ParsedModule)
    ensures
        final(parsed).module == swc_resolve(old(parsed).module),
        without_contexts(swc_items(final(parsed).module)) == without_contexts(
            swc_items(old(parsed).module),
        ),
        final(parsed).source_map == old(parsed).source_map,
{
    resolve_with_swc(&mut parsed.module);
}

} // verus!
