//! The options of a transform and what it produces.
use vstd::prelude::*;

verus! {

/// The code a transform produces, with its source map when one was made.
pub struct TransformOutput {
    pub code: String,
    pub map: Option<String>,
}

/// What the transform of a module does.
pub struct TransformConfig {
    /// Remove the statements that call React's `useEffect`.
    pub remove_use_effect: Option<bool>,
    /// Import `React` from "react" when the code does not.
    pub react_runtime: Option<bool>,
    /// Rewrite the imports of component libraries.
    pub babel_import: Option<Vec<BabelImportConfig>>,
    pub code_type: Option<String>,
    /// Remove the statements that call functions or methods of these names.
    pub remove_call: Option<Vec<String>>,
    /// Parse JSX in TypeScript (the default).
    pub tsx: Option<bool>,
}

/// How the imports from one library are rewritten.
pub struct BabelImportConfig {
    /// The module the imports come from, as written in the import.
    pub from_source: String,
    /// Add an import of the style sheet of each imported component.
    pub replace_css: Option<ReplaceCssConfig>,
    /// Import each component from its own module.
    pub replace_js: Option<ReplaceJsConfig>,
}

/// How the module of an imported component is named.
pub struct ReplaceJsConfig {
    /// Components that keep their import.
    pub ignore_es_component: Option<Vec<String>>,
    /// Pass the name in lower case.
    pub lower: Option<bool>,
    /// Pass the name in kebab case.
    pub camel2_dash_component_name: Option<bool>,
    /// Import the component as the default export of its module (the default).
    pub transform_to_default_import: Option<bool>,
}

/// How the style sheet of an imported component is named.
pub struct ReplaceCssConfig {
    /// Components that get no style sheet import.
    pub ignore_style_component: Option<Vec<String>>,
    /// Pass the name in lower case.
    pub lower: Option<bool>,
    /// Pass the name in kebab case.
    pub camel2_dash_component_name: Option<bool>,
}

/// The value of an optional flag, `default` when it is not set.
pub open spec fn flag(o: Option<bool>, default: bool) -> bool {
    match o {
        Some(b) => b,
        None => default,
    }
}

pub fn flag_exec(o: Option<bool>, default: bool) -> (r: bool)
    ensures
        r == flag(o, default),
{
    match o {
        Some(b) => b,
        None => default,
    }
}

} // verus!
