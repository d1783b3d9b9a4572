//! The decisions of the transform of a source file: how to parse it, what to
//! do to its module, and which ECMAScript version to print it for.
use vstd::prelude::*;

use crate::text::{concat, concat_strings, str_eq};
use crate::types::{flag, flag_exec, TransformConfig};
use crate::web_transform::ast::{ItemV, ModuleItems};
use crate::web_transform::babel_import::{style_requests, transform_style, transform_style_spec};
use crate::web_transform::react::{prefix_react_spec, transform_perfixreact};
use crate::web_transform::remove_effect::{module_marks, remove_call, RmUseEffect};
use crate::web_transform::visit::IdentComponent;

verus! {

/// The ECMAScript versions the transform parses and prints for.
#[derive(PartialEq, Eq, Structural, Clone, Copy, Debug)]
pub enum EsVersion {
    Es5,
    Es2015,
    Es2016,
    Es2020,
}

/// The version to print for: ES5 when no target or an empty one is given or
/// "ES5", ES2015 for "ES6", ES2020 for anything else.
pub open spec fn es_target_spec(target: Option<Seq<char>>) -> EsVersion {
    let t = match target {
        Some(t) => t,
        None => ""@,
    };
    if t == ""@ || t == "ES5"@ {
        EsVersion::Es5
    } else if t == "ES6"@ {
        EsVersion::Es2015
    } else {
        EsVersion::Es2020
    }
}

/// The version to print for (see `es_target_spec`).
pub fn es_target(target: Option<String>) -> (r: EsVersion)
    ensures
        r == es_target_spec(
            match target {
                Some(t) => Some(t@),
                None => None,
            },
        ),
{
    let t = match target {
        Some(t) => t,
        None => String::from_str(""),
    };
    if str_eq(t.as_str(), "") || str_eq(t.as_str(), "ES5") {
        EsVersion::Es5
    } else if str_eq(t.as_str(), "ES6") {
        EsVersion::Es2015
    } else {
        EsVersion::Es2020
    }
}

/// The version the source is parsed as.
pub fn parse_version() -> (r: EsVersion)
    ensures
        r == EsVersion::Es2016,
{
    EsVersion::Es2016
}

/// The name the source file is given: `filename`, or "test.js" when there is none.
pub fn source_filename(filename: Option<String>) -> (r: String)
    ensures
        r@ == match filename {
            Some(f) => f@,
            None => "test.js"@,
        },
{
    match filename {
        Some(f) => f,
        None => String::from_str("test.js"),
    }
}

/// Whether the source is parsed with JSX: unless the config says otherwise.
pub fn tsx_parse(config: &TransformConfig) -> (r: bool)
    ensures
        r == flag(config.tsx, true),
{
    flag_exec(config.tsx, true)
}

/// The error message for the errors the parser reported: their messages one
/// after the other.
pub fn join_error_messages(messages: &Vec<String>) -> (r: String)
    ensures
        r@ == concat(messages.deep_view()),
{
    concat_strings(messages.as_slice())
}

/// The module after the transforms: the imports of the configured libraries
/// rewritten, then React imported when asked for.
pub open spec fn transform_module_spec(
    items: Seq<ItemV>,
    config: TransformConfig,
    refs: IdentComponent,
    replies: Seq<Seq<char>>,
    origin: Seq<char>,
) -> Seq<ItemV> {
    prefix_react_spec(transform_style_spec(items, config, refs, replies), config, origin)
}

/// Runs the transforms on a module: the imports of the configured libraries are
/// rewritten (given `replies`, the answers to the requests of
/// `babel_import_requests`), React is imported when asked for, and the remover
/// of `useEffect` calls, when asked for, is made from the resulting module; it
/// is returned for the caller to apply to every block.
pub fn transform_module(
    module: &mut ModuleItems,
    config: &TransformConfig,
    refs: &IdentComponent,
    replies: &Vec<String>,
    origin_code: &str,
) -> (r: Option<RmUseEffect>)
    requires
        replies@.len() == style_requests(old(module)@, *config, *refs).len(),
    ensures
        final(module)@ == transform_module_spec(
            old(module)@,
            *config,
            *refs,
            replies.deep_view(),
            origin_code@,
        ),
        match config.remove_use_effect {
            Some(true) => r matches Some(v) && v.marks() == module_marks(final(module)@),
            _ => r is None,
        },
{
    transform_style(module, config, refs, replies);
    transform_perfixreact(module, config, origin_code);
    remove_call(module, config)
}

} // verus!
